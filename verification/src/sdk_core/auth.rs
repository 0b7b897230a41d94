//! Bearer tokens for the public MATHILDE surfaces.
use vstd::prelude::*;
use crate::sdk_core::error::SdkError;
use crate::sdk_core::text::{trim, has_whitespace, trim_str, contains_whitespace};

verus! {

/// `reqwest::header::HeaderValue` (the `http` crate's header value).
#[verifier::external_type_specification]
#[verifier::external_body]
pub struct ExHeaderValue(reqwest::header::HeaderValue);

/// `reqwest::header::InvalidHeaderValue`.
#[verifier::external_type_specification]
#[verifier::external_body]
pub struct ExInvalidHeaderValue(reqwest::header::InvalidHeaderValue);

/// Whether `HeaderValue::from_str` accepts a string with these characters:
/// each byte must be at least 32 and not 127, or a tab. A character at or
/// above U+0080 encodes to bytes that are all at least 0x80.
pub open spec fn header_value_text_valid(s: Seq<char>) -> bool {
    forall|i: int|
        0 <= i < s.len() ==> ((#[trigger] s[i] as u32 >= 32 && s[i] as u32 != 127) || s[i] == '\t')
}

/// A header value together with the text it was made from.
/// `HeaderValue::from_str` keeps the bytes of its input as they are, so the
/// text is exactly what the header carries. Values are made only by
/// `header_value_from_str`.
#[derive(Debug)]
pub struct HeaderText {
    value: reqwest::header::HeaderValue,
    text: String,
}

impl View for HeaderText {
    type V = Seq<char>;

    closed spec fn view(&self) -> Seq<char> {
        self.text@
    }
}

impl HeaderText {
    /// The header value.
    pub fn as_header_value(&self) -> &reqwest::header::HeaderValue {
        &self.value
    }

    /// The text the header carries.
    pub fn as_str(&self) -> (r: &str)
        ensures
            r@ == self@,
    {
        self.text.as_str()
    }
}

/// `HeaderValue::from_str` of the `http` crate (re-exported by reqwest).
/// Its source checks every byte with `b >= 32 && b != 127 || b == b'\t'` and
/// fails exactly when one byte fails; the contract states that test over
/// characters. On success the value holds the bytes of `src` unchanged.
#[verifier::external_body]
fn header_value_from_str(src: &str) -> (r: Result<HeaderText, reqwest::header::InvalidHeaderValue>)
    ensures
        r is Ok <==> header_value_text_valid(src@),
        r matches Ok(h) ==> h@ == src@,
{
    match reqwest::header::HeaderValue::from_str(src) {
        Ok(value) => Ok(HeaderText { value, text: src.to_string() }),
        Err(e) => Err(e),
    }
}

/// A bearer token: non-empty, trimmed, and free of whitespace.
#[derive(Debug, Clone, PartialEq, Eq)]
pub struct BearerToken(String);

impl View for BearerToken {
    type V = Seq<char>;

    closed spec fn view(&self) -> Seq<char> {
        self.0@
    }
}

/// What `BearerToken::new` gives for `raw`: the error message, or the token text.
pub open spec fn bearer_token_outcome(raw: Seq<char>) -> Result<Seq<char>, Seq<char>> {
    let t = trim(raw);
    if t.len() == 0 {
        Err("bearer token must not be empty"@)
    } else if has_whitespace(t) {
        Err("bearer token must not contain whitespace"@)
    } else {
        Ok(t)
    }
}

impl BearerToken {
    /// A token from `raw` with surrounding whitespace removed. Refused when
    /// nothing is left or whitespace remains inside.
    pub fn new(raw: &str) -> (r: Result<Self, SdkError>)
        ensures
            match bearer_token_outcome(raw@) {
                Ok(t) => r matches Ok(tok) && tok@ == t,
                Err(m) => r matches Err(SdkError::InvalidAuthToken { message }) && message@ == m,
            },
    {
        let trimmed = trim_str(raw);
        if trimmed.as_str().is_empty() {
            return Err(SdkError::invalid_auth_token("bearer token must not be empty"));
        }
        if contains_whitespace(trimmed.as_str()) {
            return Err(SdkError::invalid_auth_token("bearer token must not contain whitespace"));
        }
        Ok(BearerToken(trimmed))
    }

    /// The token text.
    pub fn as_str(&self) -> (r: &str)
        ensures
            r@ == self@,
    {
        self.0.as_str()
    }

    /// The `Authorization` header value `Bearer <token>`; refused when that
    /// text holds a character a header value cannot carry.
    pub fn as_authorization_value(&self) -> (r: Result<HeaderText, SdkError>)
        ensures
            r is Ok <==> header_value_text_valid("Bearer "@ + self@),
            r matches Ok(h) ==> h@ == "Bearer "@ + self@,
            r is Err ==> r matches Err(SdkError::InvalidAuthToken { .. }),
    {
        let text = String::from_str("Bearer ").concat(self.0.as_str());
        match header_value_from_str(text.as_str()) {
            Ok(v) => Ok(v),
            Err(_) => Err(
                SdkError::invalid_auth_token(
                    "bearer token cannot be encoded as an authorization header",
                ),
            ),
        }
    }
}


/// An accepted token is the input trimmed, not empty, with no whitespace.
pub proof fn law_token_trimmed_and_solid(raw: Seq<char>)
    requires
        bearer_token_outcome(raw) is Ok,
    ensures
        bearer_token_outcome(raw) == Ok::<Seq<char>, Seq<char>>(trim(raw)),
        trim(raw).len() > 0,
        !has_whitespace(trim(raw)),
{
}

} // verus!
