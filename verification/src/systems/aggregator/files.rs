//! The export-file flow: the listing request, and where each listed file is
//! written locally.
use vstd::prelude::*;
use crate::sdk_core::error::SdkError;
use crate::sdk_core::text::{clone_opt_string, clone_strings, str_chars, trimmed_nonblank};
use crate::systems::aggregator::types::{FilesDownloadsRequest, FilesDownloadsRow, normalize_required_pair_values};

verus! {

/// Where files land when the caller names no directory.
pub const DEFAULT_DOWNLOAD_ROOT: &'static str = "/tmp/mathilde";

/// Whether a character may stand in a path component as it is.
pub open spec fn path_safe_char(c: char) -> bool {
    ('a' <= c && c <= 'z') || ('A' <= c && c <= 'Z') || ('0' <= c && c <= '9') || c == '-' || c
        == '_' || c == '.'
}

/// A path component: every character that is not an ASCII letter or digit,
/// `-`, `_` or `.` becomes `_`.
pub open spec fn sanitized(raw: Seq<char>) -> Seq<char> {
    Seq::new(raw.len(), |i: int| if path_safe_char(raw[i]) { raw[i] } else { '_' })
}

fn is_path_safe(c: char) -> (r: bool)
    ensures
        r == path_safe_char(c),
{
    ('a' <= c && c <= 'z') || ('A' <= c && c <= 'Z') || ('0' <= c && c <= '9') || c == '-' || c
        == '_' || c == '.'
}

/// The text as a safe path component.
pub fn sanitize_path_component(raw: &str) -> (r: String)
    ensures
        r@ == sanitized(raw@),
{
    let chars = str_chars(raw);
    let mut out = String::new();
    let mut i: usize = 0;
    while i < chars.len()
        invariant
            chars@ == raw@,
            i <= chars.len(),
            out@ == sanitized(raw@.subrange(0, i as int)),
        decreases chars.len() - i,
    {
        let ghost before = out@;
        if is_path_safe(chars[i]) {
            let one = raw.substring_char(i, i + 1);
            out.append(one);
        } else {
            out.append("_");
            proof {
                reveal_strlit("_");
            }
        }
        proof {
            assert(out@ =~= sanitized(raw@.subrange(0, i + 1)));
        }
        i = i + 1;
    }
    assert(raw@.subrange(0, chars.len() as int) =~= raw@);
    out
}

/// The path components, below the root, where a listed file is written:
/// period, pair, timeframe, and the label with `.parquet` appended.
pub fn destination_components(row: &FilesDownloadsRow) -> (r: Vec<String>)
    ensures
        r@.len() == 4,
        r@[0]@ == sanitized(row.period@),
        r@[1]@ == sanitized(row.pair@),
        r@[2]@ == sanitized(row.tf@),
        r@[3]@ == sanitized(row.label_utc@) + ".parquet"@,
{
    let mut v: Vec<String> = Vec::new();
    v.push(sanitize_path_component(row.period.as_str()));
    v.push(sanitize_path_component(row.pair.as_str()));
    v.push(sanitize_path_component(row.tf.as_str()));
    v.push(sanitize_path_component(row.label_utc.as_str()).concat(".parquet"));
    v
}

/// The wire body of a files listing.
#[derive(Debug, Clone, PartialEq, Eq)]
pub struct NormalizedFilesDownloadsRequest {
    pub period: Option<String>,
    pub pairs: Vec<String>,
    pub tfs: Vec<String>,
    pub start_label_utc: Option<String>,
    pub end_label_utc: Option<String>,
    pub order: Option<String>,
}

impl FilesDownloadsRequest {
    /// The wire body: pairs trimmed and blanks dropped; refused without pairs.
    pub fn normalize(&self) -> (r: Result<NormalizedFilesDownloadsRequest, SdkError>)
        ensures
            trimmed_nonblank(self.pairs.deep_view()).len() > 0 ==> (r matches Ok(n)
                && n.pairs.deep_view() == trimmed_nonblank(self.pairs.deep_view()) && n.period
                == self.period && n.tfs@ == self.tfs@ && n.start_label_utc == self.start_label_utc
                && n.end_label_utc == self.end_label_utc && n.order == self.order),
            trimmed_nonblank(self.pairs.deep_view()).len() == 0 ==> (r matches Err(
                SdkError::RequestBuild { message },
            ) && message@ == "files downloads"@ + " requires at least one pair"@),
    {
        let pairs = normalize_required_pair_values(&self.pairs, "files downloads")?;
        Ok(NormalizedFilesDownloadsRequest {
            period: clone_opt_string(&self.period),
            pairs,
            tfs: clone_strings(&self.tfs),
            start_label_utc: clone_opt_string(&self.start_label_utc),
            end_label_utc: clone_opt_string(&self.end_label_utc),
            order: clone_opt_string(&self.order),
        })
    }
}

/// Ok when bearer auth is configured: downloading export files needs it.
pub fn require_download_auth(has_bearer_token: bool) -> (r: Result<(), SdkError>)
    ensures
        r is Ok <==> has_bearer_token,
        !has_bearer_token ==> (r matches Err(SdkError::UnsupportedOrUnprovedUsage { message })
            && message@ == "files_download_items requires bearer auth configured on the client"@),
{
    if !has_bearer_token {
        return Err(
            SdkError::unsupported_or_unproved_usage(
                String::from_str("files_download_items requires bearer auth configured on the client"),
            ),
        );
    }
    Ok(())
}


/// A sanitized path component has the length of its input, holds only safe
/// characters, and keeps every safe character where it was.
pub proof fn law_sanitized_is_safe(raw: Seq<char>)
    ensures
        sanitized(raw).len() == raw.len(),
        forall|i: int| 0 <= i < raw.len() ==> path_safe_char(#[trigger] sanitized(raw)[i]),
        forall|i: int| 0 <= i < raw.len() && path_safe_char(raw[i]) ==> #[trigger] sanitized(raw)[i] == raw[i],
{
}

} // verus!
