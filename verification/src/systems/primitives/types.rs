//! Primitives outputs: selectors, the output mode a request implies, the
//! requests and their wire forms, and the responses.
use vstd::prelude::*;
use crate::sdk_core::error::SdkError;
use crate::sdk_core::pagination::str_eq;
use crate::sdk_core::text::{
    trimmed_nonblank, trim, trim_str, clone_opt_string, clone_opt_strings, clone_strings,
    normalize_optional_string, trimmed_nonblank_opt, opt_string_view,
};
use crate::sdk_core::time::{TimeInput, opt_time_input_ms, time_input_ms, opt_to_utc_ms};
use crate::systems::aggregator::bars::latest_mode_from_name;
use crate::systems::types::{
    AlignMode, HttpFormat, LatestMode, Timeframe, timeframe_name, latest_mode_name, align_mode_name,
};
use crate::systems::aggregator::types::{
    clone_time_input, clone_opt_time_input, clone_opt_i64s, normalize_pair_values,
    normalize_required_pair_values, has_pairs, same_opt_seq, or_zero, window_inputs_ok, window_time_message,
    range_time_message,
};

verus! {

/// The shape of the output rows a request asks for.
#[derive(Debug, Clone, Copy, PartialEq, Eq, Structural)]
pub enum PrimitiveOutputMode {
    Min,
    WithMeta,
    ProjectedMin,
    ProjectedWithMeta,
}

/// The mode of a request that does or does not select processors, and does
/// or does not ask for metadata.
pub open spec fn mode_of(projected: bool, with_meta: bool) -> PrimitiveOutputMode {
    match (projected, with_meta) {
        (false, false) => PrimitiveOutputMode::Min,
        (false, true) => PrimitiveOutputMode::WithMeta,
        (true, false) => PrimitiveOutputMode::ProjectedMin,
        (true, true) => PrimitiveOutputMode::ProjectedWithMeta,
    }
}

pub open spec fn mode_is_projected(m: PrimitiveOutputMode) -> bool {
    m == PrimitiveOutputMode::ProjectedMin || m == PrimitiveOutputMode::ProjectedWithMeta
}

pub open spec fn mode_has_metadata(m: PrimitiveOutputMode) -> bool {
    m == PrimitiveOutputMode::WithMeta || m == PrimitiveOutputMode::ProjectedWithMeta
}

impl PrimitiveOutputMode {
    /// Whether rows hold only the selected processors.
    pub fn is_projected(self) -> (r: bool)
        ensures
            r == mode_is_projected(self),
    {
        match self {
            PrimitiveOutputMode::ProjectedMin | PrimitiveOutputMode::ProjectedWithMeta => true,
            _ => false,
        }
    }

    /// Whether rows carry metadata.
    pub fn has_metadata(self) -> (r: bool)
        ensures
            r == mode_has_metadata(self),
    {
        match self {
            PrimitiveOutputMode::WithMeta | PrimitiveOutputMode::ProjectedWithMeta => true,
            _ => false,
        }
    }
}

/// Row shape a response declares.
#[derive(Debug, Clone, Copy, PartialEq, Eq, Structural)]
pub enum OutputView {
    Min,
    Full,
}

pub open spec fn output_view_name(v: OutputView) -> Seq<char> {
    match v {
        OutputView::Min => "min"@,
        OutputView::Full => "full"@,
    }
}

impl OutputView {
    pub fn as_str(self) -> (r: &'static str)
        ensures
            r@ == output_view_name(self),
    {
        match self {
            OutputView::Min => "min",
            OutputView::Full => "full",
        }
    }
}

/// The view a response to a request of mode `m` must declare.
pub open spec fn expected_view(m: PrimitiveOutputMode) -> OutputView {
    if mode_has_metadata(m) {
        OutputView::Full
    } else {
        OutputView::Min
    }
}

/// The view a response to a request of this mode must declare.
pub fn expected_output_view(mode: PrimitiveOutputMode) -> (r: OutputView)
    ensures
        r == expected_view(mode),
{
    if mode.has_metadata() {
        OutputView::Full
    } else {
        OutputView::Min
    }
}

/// Ok when the declared view is the one the mode implies.
pub fn ensure_latest_view_matches_mode(view: OutputView, mode: PrimitiveOutputMode, context: &str) -> (r:
    Result<(), SdkError>)
    ensures
        r is Ok <==> view == expected_view(mode),
        r is Err ==> r matches Err(SdkError::ContractDrift { .. }),
{
    let expected = expected_output_view(mode);
    if view == expected {
        return Ok(());
    }
    Err(
        SdkError::contract_drift(
            String::from_str(context).concat(" response view `").concat(view.as_str()).concat(
                "` did not match request mode `",
            ).concat(expected.as_str()).concat("`"),
        ),
    )
}

/// Ok unless the mode is projected: protobuf leaves unselected computed
/// fields unset, so projected rows cannot be read back from it.
pub fn ensure_proto_output_mode_supported(mode: PrimitiveOutputMode, context: &str) -> (r: Result<
    (),
    SdkError,
>)
    ensures
        r is Ok <==> !mode_is_projected(mode),
        r is Err ==> r matches Err(SdkError::UnsupportedOrUnprovedUsage { .. }),
{
    if mode.is_projected() {
        return Err(
            SdkError::unsupported_or_unproved_usage(
                String::from_str(context).concat(
                    " is not proved for projected selector mode because protobuf leaves unselected computed fields unset",
                ),
            ),
        );
    }
    Ok(())
}

/// Ok unless a projected request asks for an HTTP protobuf body.
pub fn ensure_http_format_supported(
    mode: PrimitiveOutputMode,
    format: Option<HttpFormat>,
    context: &str,
) -> (r: Result<(), SdkError>)
    ensures
        r is Ok <==> !(mode_is_projected(mode) && format == Some(HttpFormat::Protobuf)),
        r is Err ==> r matches Err(SdkError::UnsupportedOrUnprovedUsage { .. }),
{
    if mode.is_projected() && format == Some(HttpFormat::Protobuf) {
        return Err(
            SdkError::unsupported_or_unproved_usage(
                String::from_str(context).concat(" selector-present HTTP protobuf requests are rejected by primitives v1"),
            ),
        );
    }
    Ok(())
}

/// Whether diagnostics were asked for; absent means no.
pub fn diagnostics_enabled(value: Option<bool>) -> (r: bool)
    ensures
        r == (value == Some(true)),
{
    value.unwrap_or(false)
}

/// A processor family selector, by its canonical name.
#[derive(Debug, Clone, PartialEq, Eq)]
pub struct ProcessorFamily(pub String);

/// A processor group selector, by its canonical name.
#[derive(Debug, Clone, PartialEq, Eq)]
pub struct ProcessorGroup(pub String);

impl View for ProcessorFamily {
    type V = Seq<char>;

    open spec fn view(&self) -> Seq<char> {
        self.0@
    }
}

impl View for ProcessorGroup {
    type V = Seq<char>;

    open spec fn view(&self) -> Seq<char> {
        self.0@
    }
}

impl ProcessorFamily {
    /// The family that selects metadata columns.
    pub fn metadata() -> (r: Self)
        ensures
            r@ == "metadata"@,
    {
        ProcessorFamily(String::from_str("metadata"))
    }

    /// The canonical name.
    pub fn canonical_name(&self) -> (r: &str)
        ensures
            r@ == self@,
    {
        self.0.as_str()
    }
}

impl ProcessorGroup {
    /// The canonical name.
    pub fn canonical_name(&self) -> (r: &str)
        ensures
            r@ == self@,
    {
        self.0.as_str()
    }
}

/// The canonical names of family selectors.
pub open spec fn family_names(s: Seq<ProcessorFamily>) -> Seq<Seq<char>> {
    Seq::new(s.len(), |i: int| s[i]@)
}

/// The canonical names of group selectors.
pub open spec fn group_names(s: Seq<ProcessorGroup>) -> Seq<Seq<char>> {
    Seq::new(s.len(), |i: int| s[i]@)
}

/// The names of optional family selectors.
pub open spec fn opt_family_names(o: Option<Vec<ProcessorFamily>>) -> Option<Seq<Seq<char>>> {
    match o {
        Some(v) => Some(family_names(v@)),
        None => None,
    }
}

/// The names of optional group selectors.
pub open spec fn opt_group_names(o: Option<Vec<ProcessorGroup>>) -> Option<Seq<Seq<char>>> {
    match o {
        Some(v) => Some(group_names(v@)),
        None => None,
    }
}

/// Whether a selector list is given and not empty.
pub open spec fn selectors_present(o: Option<Seq<Seq<char>>>) -> bool {
    o matches Some(s) && s.len() > 0
}

/// Whether the family selectors name the metadata family.
pub open spec fn selects_metadata(o: Option<Seq<Seq<char>>>) -> bool {
    o matches Some(s) && s.contains("metadata"@)
}

/// The mode a request implies, or `None` when it selects the metadata
/// family without asking for metadata.
pub open spec fn output_mode_spec(
    family: Option<Seq<Seq<char>>>,
    group: Option<Seq<Seq<char>>>,
    metadata: Option<bool>,
) -> Option<PrimitiveOutputMode> {
    if selects_metadata(family) && metadata != Some(true) {
        None
    } else {
        Some(mode_of(selectors_present(family) || selectors_present(group), metadata == Some(true)))
    }
}

/// What `infer_output_mode` gives for these selectors: the mode, or the
/// request error of the metadata family without metadata.
pub open spec fn output_mode_matches(
    r: Result<PrimitiveOutputMode, SdkError>,
    family: Option<Seq<Seq<char>>>,
    group: Option<Seq<Seq<char>>>,
    metadata: Option<bool>,
) -> bool {
    match output_mode_spec(family, group, metadata) {
        Some(m) => r == Ok::<PrimitiveOutputMode, SdkError>(m),
        None => r matches Err(SdkError::RequestBuild { message }) && message@
            == "family=metadata requires metadata=true"@,
    }
}

/// Whether some family selector is the metadata family.
pub fn selects_metadata_family(values: Option<&Vec<ProcessorFamily>>) -> (r: bool)
    ensures
        r == selects_metadata(
            match values {
                Some(v) => Some(family_names(v@)),
                None => None,
            },
        ),
{
    match values {
        None => false,
        Some(v) => {
            let mut i: usize = 0;
            while i < v.len()
                invariant
                    values == Some(v),
                    i <= v.len(),
                    forall|j: int| 0 <= j < i ==> #[trigger] family_names(v@)[j] != "metadata"@,
                decreases v.len() - i,
            {
                if str_eq(v[i].canonical_name(), "metadata") {
                    assert(family_names(v@)[i as int] == "metadata"@);
                    return true;
                }
                i = i + 1;
            }
            false
        },
    }
}

/// Whether a selector list is given and not empty.
pub fn selector_values_present<T>(values: Option<&Vec<T>>) -> (r: bool)
    ensures
        r == (values matches Some(v) && v@.len() > 0),
{
    match values {
        Some(v) => v.len() > 0,
        None => false,
    }
}

/// The output mode a request's selectors imply. Selecting the metadata
/// family without asking for metadata is refused.
pub fn infer_output_mode(
    family: Option<&Vec<ProcessorFamily>>,
    group: Option<&Vec<ProcessorGroup>>,
    metadata: Option<bool>,
) -> (r: Result<PrimitiveOutputMode, SdkError>)
    ensures
        output_mode_matches(
            r,
            match family {
                Some(v) => Some(family_names(v@)),
                None => None,
            },
            match group {
                Some(v) => Some(group_names(v@)),
                None => None,
            },
            metadata,
        ),
        r matches Ok(m) ==> ((m == PrimitiveOutputMode::ProjectedMin || m == PrimitiveOutputMode::ProjectedWithMeta)
            <==> ((family matches Some(f) && f@.len() > 0) || (group matches Some(g) && g@.len() > 0))),
        r matches Ok(m) ==> ((m == PrimitiveOutputMode::WithMeta || m == PrimitiveOutputMode::ProjectedWithMeta)
            <==> metadata == Some(true)),
{
    let projected = selector_values_present(family) || selector_values_present(group);
    let with_meta = metadata.unwrap_or(false);
    if selects_metadata_family(family) && !with_meta {
        return Err(SdkError::request_build(String::from_str("family=metadata requires metadata=true")));
    }
    if projected {
        if with_meta {
            Ok(PrimitiveOutputMode::ProjectedWithMeta)
        } else {
            Ok(PrimitiveOutputMode::ProjectedMin)
        }
    } else {
        if with_meta {
            Ok(PrimitiveOutputMode::WithMeta)
        } else {
            Ok(PrimitiveOutputMode::Min)
        }
    }
}

/// A copy of family selectors.
pub fn clone_families(v: &Vec<ProcessorFamily>) -> (r: Vec<ProcessorFamily>)
    ensures
        family_names(r@) == family_names(v@),
{
    let mut out: Vec<ProcessorFamily> = Vec::new();
    let mut i: usize = 0;
    while i < v.len()
        invariant
            i <= v.len(),
            out@.len() == i,
            forall|j: int| 0 <= j < i ==> out@[j]@ == v@[j]@,
        decreases v.len() - i,
    {
        out.push(ProcessorFamily(v[i].0.clone()));
        i = i + 1;
    }
    assert(family_names(out@) =~= family_names(v@));
    out
}

/// A copy of group selectors.
pub fn clone_groups(v: &Vec<ProcessorGroup>) -> (r: Vec<ProcessorGroup>)
    ensures
        group_names(r@) == group_names(v@),
{
    let mut out: Vec<ProcessorGroup> = Vec::new();
    let mut i: usize = 0;
    while i < v.len()
        invariant
            i <= v.len(),
            out@.len() == i,
            forall|j: int| 0 <= j < i ==> out@[j]@ == v@[j]@,
        decreases v.len() - i,
    {
        out.push(ProcessorGroup(v[i].0.clone()));
        i = i + 1;
    }
    assert(group_names(out@) =~= group_names(v@));
    out
}

/// Selectors as sent: an empty list is left out.
pub open spec fn normalized_selectors(o: Option<Seq<Seq<char>>>) -> Option<Seq<Seq<char>>> {
    match o {
        Some(s) => if s.len() == 0 { None } else { Some(s) },
        None => None,
    }
}

/// The family selectors as sent: an empty list is left out.
pub fn normalize_family_selectors(values: &Option<Vec<ProcessorFamily>>) -> (r: Option<
    Vec<ProcessorFamily>,
>)
    ensures
        opt_family_names(r) == normalized_selectors(opt_family_names(*values)),
{
    match values {
        Some(v) => if v.len() == 0 {
            None
        } else {
            Some(clone_families(v))
        },
        None => None,
    }
}

/// The group selectors as sent: an empty list is left out.
pub fn normalize_group_selectors(values: &Option<Vec<ProcessorGroup>>) -> (r: Option<
    Vec<ProcessorGroup>,
>)
    ensures
        opt_group_names(r) == normalized_selectors(opt_group_names(*values)),
{
    match values {
        Some(v) => if v.len() == 0 {
            None
        } else {
            Some(clone_groups(v))
        },
        None => None,
    }
}

/// The canonical names of the family selectors; none when absent.
pub fn selector_family_names(values: &Option<Vec<ProcessorFamily>>) -> (r: Vec<String>)
    ensures
        r.deep_view() == match *values {
            Some(v) => family_names(v@),
            None => Seq::<Seq<char>>::empty(),
        },
{
    let mut out: Vec<String> = Vec::new();
    match values {
        Some(v) => {
            let mut i: usize = 0;
            while i < v.len()
                invariant
                    i <= v.len(),
                    out@.len() == i,
                    forall|j: int| 0 <= j < i ==> out@[j]@ == #[trigger] family_names(v@)[j],
                decreases v.len() - i,
            {
                out.push(v[i].0.clone());
                i = i + 1;
            }
            assert(out.deep_view() =~= family_names(v@));
        },
        None => {
            assert(out.deep_view() =~= Seq::<Seq<char>>::empty());
        },
    }
    out
}

/// The canonical names of the group selectors; none when absent.
pub fn selector_group_names(values: &Option<Vec<ProcessorGroup>>) -> (r: Vec<String>)
    ensures
        r.deep_view() == match *values {
            Some(v) => group_names(v@),
            None => Seq::<Seq<char>>::empty(),
        },
{
    let mut out: Vec<String> = Vec::new();
    match values {
        Some(v) => {
            let mut i: usize = 0;
            while i < v.len()
                invariant
                    i <= v.len(),
                    out@.len() == i,
                    forall|j: int| 0 <= j < i ==> out@[j]@ == #[trigger] group_names(v@)[j],
                decreases v.len() - i,
            {
                out.push(v[i].0.clone());
                i = i + 1;
            }
            assert(out.deep_view() =~= group_names(v@));
        },
        None => {
            assert(out.deep_view() =~= Seq::<Seq<char>>::empty());
        },
    }
    out
}


/// A processor diagnostic, the document as the service sent it.
#[derive(Debug, Clone, PartialEq, Eq)]
pub struct OutputProcessDiagnostic {
    pub json: String,
}

/// Output metadata, the document as the service sent it.
#[derive(Debug, Clone, PartialEq, Eq)]
pub struct OutputMetadata {
    pub json: String,
}

/// The row part of an output: its pair, its bar window and the computed
/// numeric fields, each value an IEEE-754 bit pattern.
#[derive(Debug, Clone, PartialEq)]
pub struct OutputRow {
    pub pair: String,
    pub open_utc: String,
    pub close_utc: String,
    pub computed: Vec<(String, u64)>,
}

/// An output row without metadata.
#[derive(Debug, Clone, PartialEq)]
pub struct ProcessorOutputMin {
    pub row: OutputRow,
    pub diagnostics: Option<Vec<OutputProcessDiagnostic>>,
}

/// An output row with its metadata.
#[derive(Debug, Clone, PartialEq)]
pub struct ProcessorOutputWithMeta {
    pub row: OutputRow,
    pub metadata: OutputMetadata,
    pub diagnostics: Option<Vec<OutputProcessDiagnostic>>,
}

/// One output row, in the shape its request asked for.
#[derive(Debug, Clone, PartialEq)]
pub enum PrimitiveOutput {
    Min(ProcessorOutputMin),
    WithMeta(ProcessorOutputWithMeta),
    ProjectedMin(ProcessorOutputMin),
    ProjectedWithMeta(ProcessorOutputWithMeta),
}

/// The mode an output row is in.
pub open spec fn output_mode_of(o: PrimitiveOutput) -> PrimitiveOutputMode {
    match o {
        PrimitiveOutput::Min(_) => PrimitiveOutputMode::Min,
        PrimitiveOutput::WithMeta(_) => PrimitiveOutputMode::WithMeta,
        PrimitiveOutput::ProjectedMin(_) => PrimitiveOutputMode::ProjectedMin,
        PrimitiveOutput::ProjectedWithMeta(_) => PrimitiveOutputMode::ProjectedWithMeta,
    }
}

/// The diagnostics an output row carries.
pub open spec fn output_diagnostics(o: PrimitiveOutput) -> Option<Vec<OutputProcessDiagnostic>> {
    match o {
        PrimitiveOutput::Min(x) => x.diagnostics,
        PrimitiveOutput::WithMeta(x) => x.diagnostics,
        PrimitiveOutput::ProjectedMin(x) => x.diagnostics,
        PrimitiveOutput::ProjectedWithMeta(x) => x.diagnostics,
    }
}

/// The output row with its diagnostics dropped unless they were asked for.
pub open spec fn gated(o: PrimitiveOutput, enabled: bool) -> PrimitiveOutput {
    if enabled {
        o
    } else {
        match o {
            PrimitiveOutput::Min(x) => PrimitiveOutput::Min(ProcessorOutputMin { diagnostics: None, ..x }),
            PrimitiveOutput::WithMeta(x) => PrimitiveOutput::WithMeta(
                ProcessorOutputWithMeta { diagnostics: None, ..x },
            ),
            PrimitiveOutput::ProjectedMin(x) => PrimitiveOutput::ProjectedMin(
                ProcessorOutputMin { diagnostics: None, ..x },
            ),
            PrimitiveOutput::ProjectedWithMeta(x) => PrimitiveOutput::ProjectedWithMeta(
                ProcessorOutputWithMeta { diagnostics: None, ..x },
            ),
        }
    }
}

impl PrimitiveOutput {
    /// The mode this row is in.
    pub fn mode(&self) -> (r: PrimitiveOutputMode)
        ensures
            r == output_mode_of(*self),
    {
        match self {
            PrimitiveOutput::Min(_) => PrimitiveOutputMode::Min,
            PrimitiveOutput::WithMeta(_) => PrimitiveOutputMode::WithMeta,
            PrimitiveOutput::ProjectedMin(_) => PrimitiveOutputMode::ProjectedMin,
            PrimitiveOutput::ProjectedWithMeta(_) => PrimitiveOutputMode::ProjectedWithMeta,
        }
    }

    /// Whether this row holds only the selected processors.
    pub fn is_projected(&self) -> (r: bool)
        ensures
            r == mode_is_projected(output_mode_of(*self)),
    {
        self.mode().is_projected()
    }

    /// Whether this row carries metadata.
    pub fn has_metadata(&self) -> (r: bool)
        ensures
            r == mode_has_metadata(output_mode_of(*self)),
    {
        self.mode().has_metadata()
    }

    /// The diagnostics of this row, if it carries any.
    pub fn diagnostics(&self) -> (r: Option<&Vec<OutputProcessDiagnostic>>)
        ensures
            match output_diagnostics(*self) {
                Some(d) => r == Some(&d),
                None => r is None,
            },
    {
        match self {
            PrimitiveOutput::Min(x) => x.diagnostics.as_ref(),
            PrimitiveOutput::WithMeta(x) => x.diagnostics.as_ref(),
            PrimitiveOutput::ProjectedMin(x) => x.diagnostics.as_ref(),
            PrimitiveOutput::ProjectedWithMeta(x) => x.diagnostics.as_ref(),
        }
    }

    /// The metadata of this row; none for the rows without metadata.
    pub fn metadata(&self) -> (r: Option<&OutputMetadata>)
        ensures
            match *self {
                PrimitiveOutput::WithMeta(x) => r == Some(&x.metadata),
                PrimitiveOutput::ProjectedWithMeta(x) => r == Some(&x.metadata),
                _ => r is None,
            },
    {
        match self {
            PrimitiveOutput::Min(_) | PrimitiveOutput::ProjectedMin(_) => None,
            PrimitiveOutput::WithMeta(x) => Some(&x.metadata),
            PrimitiveOutput::ProjectedWithMeta(x) => Some(&x.metadata),
        }
    }

    /// The row with its diagnostics dropped unless they were asked for.
    pub fn apply_diagnostics_gate(self, enabled: bool) -> (r: Self)
        ensures
            r == gated(self, enabled),
    {
        if enabled {
            return self;
        }
        match self {
            PrimitiveOutput::Min(x) => PrimitiveOutput::Min(
                ProcessorOutputMin { row: x.row, diagnostics: None },
            ),
            PrimitiveOutput::WithMeta(x) => PrimitiveOutput::WithMeta(
                ProcessorOutputWithMeta { row: x.row, metadata: x.metadata, diagnostics: None },
            ),
            PrimitiveOutput::ProjectedMin(x) => PrimitiveOutput::ProjectedMin(
                ProcessorOutputMin { row: x.row, diagnostics: None },
            ),
            PrimitiveOutput::ProjectedWithMeta(x) => PrimitiveOutput::ProjectedWithMeta(
                ProcessorOutputWithMeta { row: x.row, metadata: x.metadata, diagnostics: None },
            ),
        }
    }
}

impl PrimitiveOutput {
    /// A row without metadata, as decoded, with the diagnostics gate applied.
    pub fn from_min(output: ProcessorOutputMin, diagnostics_enabled: bool) -> (r: Self)
        ensures
            r == gated(PrimitiveOutput::Min(output), diagnostics_enabled),
    {
        PrimitiveOutput::Min(output).apply_diagnostics_gate(diagnostics_enabled)
    }

    /// A row with metadata, as decoded, with the diagnostics gate applied.
    pub fn from_with_meta(output: ProcessorOutputWithMeta, diagnostics_enabled: bool) -> (r: Self)
        ensures
            r == gated(PrimitiveOutput::WithMeta(output), diagnostics_enabled),
    {
        PrimitiveOutput::WithMeta(output).apply_diagnostics_gate(diagnostics_enabled)
    }

    /// A projected row without metadata, with the diagnostics gate applied.
    pub fn from_projected_min(output: ProcessorOutputMin, diagnostics_enabled: bool) -> (r: Self)
        ensures
            r == gated(PrimitiveOutput::ProjectedMin(output), diagnostics_enabled),
    {
        PrimitiveOutput::ProjectedMin(output).apply_diagnostics_gate(diagnostics_enabled)
    }

    /// A projected row with metadata, with the diagnostics gate applied.
    pub fn from_projected_with_meta(output: ProcessorOutputWithMeta, diagnostics_enabled: bool) -> (r: Self)
        ensures
            r == gated(PrimitiveOutput::ProjectedWithMeta(output), diagnostics_enabled),
    {
        PrimitiveOutput::ProjectedWithMeta(output).apply_diagnostics_gate(diagnostics_enabled)
    }
}

/// The latest mode named on the wire; an unknown name is contract drift.
pub fn latest_mode_from_proto(value: &str) -> (r: Result<LatestMode, SdkError>)
    ensures
        latest_mode_from_name(value@) matches Some(m) ==> r == Ok::<LatestMode, SdkError>(m),
        latest_mode_from_name(value@) is None ==> r matches Err(SdkError::ContractDrift { .. }),
{
    LatestMode::from_proto(value)
}

/// Every row with its diagnostics dropped unless they were asked for.
pub open spec fn all_gated(rows: Seq<PrimitiveOutput>, enabled: bool) -> Seq<PrimitiveOutput> {
    Seq::new(rows.len(), |i: int| gated(rows[i], enabled))
}

/// The rows with their diagnostics dropped unless they were asked for.
pub fn gate_outputs(rows: Vec<PrimitiveOutput>, enabled: bool) -> (r: Vec<PrimitiveOutput>)
    ensures
        r@ == all_gated(rows@, enabled),
{
    let ghost orig = rows@;
    let mut rest = rows;
    let mut out: Vec<PrimitiveOutput> = Vec::new();
    let n = rest.len();
    let mut k: usize = 0;
    while k < n
        invariant
            orig == rows@,
            n == orig.len(),
            k <= n,
            rest@ == orig.subrange(k as int, n as int),
            out@.len() == k,
            forall|i: int| 0 <= i < k ==> out@[i] == gated(orig[i], enabled),
        decreases n - k,
    {
        let row = rest.remove(0);
        assert(row == orig[k as int]);
        out.push(row.apply_diagnostics_gate(enabled));
        k = k + 1;
        assert(rest@ =~= orig.subrange(k as int, n as int));
    }
    assert(out@ =~= all_gated(orig, enabled));
    out
}


/// A copy of optional family selectors.
pub fn clone_opt_families(v: &Option<Vec<ProcessorFamily>>) -> (r: Option<Vec<ProcessorFamily>>)
    ensures
        opt_family_names(r) == opt_family_names(*v),
{
    match v {
        Some(x) => Some(clone_families(x)),
        None => None,
    }
}

/// A copy of optional group selectors.
pub fn clone_opt_groups(v: &Option<Vec<ProcessorGroup>>) -> (r: Option<Vec<ProcessorGroup>>)
    ensures
        opt_group_names(r) == opt_group_names(*v),
{
    match v {
        Some(x) => Some(clone_groups(x)),
        None => None,
    }
}

/// `latest` for primitives outputs.
#[derive(Debug, Clone, PartialEq)]
pub struct LatestOutputsRequest {
    pub pairs: Vec<String>,
    pub tf: Timeframe,
    pub latest_mode: Option<LatestMode>,
    pub family: Option<Vec<ProcessorFamily>>,
    pub group: Option<Vec<ProcessorGroup>>,
    pub metadata: Option<bool>,
    pub diagnostics: Option<bool>,
    pub format: Option<HttpFormat>,
}
/// `latest` for primitives outputs over gRPC.
#[derive(Debug, Clone, PartialEq)]
pub struct LatestOutputsGrpcRequest {
    pub pairs: Vec<String>,
    pub tf: Timeframe,
    pub latest_mode: Option<LatestMode>,
    pub family: Option<Vec<ProcessorFamily>>,
    pub group: Option<Vec<ProcessorGroup>>,
    pub metadata: Option<bool>,
    pub diagnostics: Option<bool>,
}

impl LatestOutputsRequest {
    /// Ok when the request can be sent as it is.
    pub fn validate(&self) -> (r: Result<(), SdkError>)
        ensures
            output_mode_spec(opt_family_names(self.family), opt_group_names(self.group), self.metadata) is Some ==> r is Ok,
            output_mode_spec(opt_family_names(self.family), opt_group_names(self.group), self.metadata) is None ==> (r matches Err(SdkError::RequestBuild { message }) && message@ == "family=metadata requires metadata=true"@),
    {
        let _ = self.output_mode()?;
        Ok(())
    }

    /// The shape of the rows this request asks for.
    pub fn output_mode(&self) -> (r: Result<PrimitiveOutputMode, SdkError>)
        ensures
            output_mode_matches(r, opt_family_names(self.family), opt_group_names(self.group), self.metadata),
    {
        infer_output_mode(self.family.as_ref(), self.group.as_ref(), self.metadata)
    }
}

impl LatestOutputsGrpcRequest {
    /// Ok when the request can be sent as it is.
    pub fn validate(&self) -> (r: Result<(), SdkError>)
        ensures
            output_mode_spec(opt_family_names(self.family), opt_group_names(self.group), self.metadata) is Some ==> r is Ok,
            output_mode_spec(opt_family_names(self.family), opt_group_names(self.group), self.metadata) is None ==> (r matches Err(SdkError::RequestBuild { message }) && message@ == "family=metadata requires metadata=true"@),
    {
        let _ = self.output_mode()?;
        Ok(())
    }

    /// The shape of the rows this request asks for.
    pub fn output_mode(&self) -> (r: Result<PrimitiveOutputMode, SdkError>)
        ensures
            output_mode_matches(r, opt_family_names(self.family), opt_group_names(self.group), self.metadata),
    {
        infer_output_mode(self.family.as_ref(), self.group.as_ref(), self.metadata)
    }
}

impl LatestOutputsGrpcRequest {
    /// The gRPC form of a `latest` request.
    pub fn from_latest(value: &LatestOutputsRequest) -> (r: Self)
        ensures
            r.pairs@ == value.pairs@,
            r.tf == value.tf,
            r.latest_mode == value.latest_mode,
            opt_family_names(r.family) == opt_family_names(value.family),
            opt_group_names(r.group) == opt_group_names(value.group),
            r.metadata == value.metadata,
            r.diagnostics == value.diagnostics,
    {
        LatestOutputsGrpcRequest {
            pairs: clone_strings(&value.pairs),
            tf: value.tf,
            latest_mode: value.latest_mode,
            family: clone_opt_families(&value.family),
            group: clone_opt_groups(&value.group),
            metadata: value.metadata,
            diagnostics: value.diagnostics,
        }
    }
}
/// `range` for primitives outputs.
#[derive(Debug, Clone, PartialEq)]
pub struct RangeOutputsRequest {
    pub pairs: Vec<String>,
    pub tf: Timeframe,
    pub align_mode: Option<AlignMode>,
    pub close_start: Option<TimeInput>,
    pub cursor: Option<String>,
    pub close_end: Option<TimeInput>,
    pub limit: Option<i64>,
    pub family: Option<Vec<ProcessorFamily>>,
    pub group: Option<Vec<ProcessorGroup>>,
    pub metadata: Option<bool>,
    pub diagnostics: Option<bool>,
    pub format: Option<HttpFormat>,
}
/// `range` for primitives outputs over gRPC.
#[derive(Debug, Clone, PartialEq)]
pub struct RangeOutputsGrpcRequest {
    pub pairs: Vec<String>,
    pub tf: Timeframe,
    pub align_mode: Option<AlignMode>,
    pub close_start: Option<TimeInput>,
    pub cursor: Option<String>,
    pub close_end: Option<TimeInput>,
    pub limit: Option<i64>,
    pub family: Option<Vec<ProcessorFamily>>,
    pub group: Option<Vec<ProcessorGroup>>,
    pub metadata: Option<bool>,
    pub diagnostics: Option<bool>,
}

impl RangeOutputsRequest {
    /// Ok when the request can be sent as it is.
    pub fn validate(&self) -> (r: Result<(), SdkError>)
        ensures
            output_mode_spec(opt_family_names(self.family), opt_group_names(self.group), self.metadata) is Some ==> r is Ok,
            output_mode_spec(opt_family_names(self.family), opt_group_names(self.group), self.metadata) is None ==> (r matches Err(SdkError::RequestBuild { message }) && message@ == "family=metadata requires metadata=true"@),
    {
        let _ = self.output_mode()?;
        Ok(())
    }

    /// The shape of the rows this request asks for.
    pub fn output_mode(&self) -> (r: Result<PrimitiveOutputMode, SdkError>)
        ensures
            output_mode_matches(r, opt_family_names(self.family), opt_group_names(self.group), self.metadata),
    {
        infer_output_mode(self.family.as_ref(), self.group.as_ref(), self.metadata)
    }
}

impl RangeOutputsGrpcRequest {
    /// Ok when the request can be sent as it is.
    pub fn validate(&self) -> (r: Result<(), SdkError>)
        ensures
            output_mode_spec(opt_family_names(self.family), opt_group_names(self.group), self.metadata) is Some ==> r is Ok,
            output_mode_spec(opt_family_names(self.family), opt_group_names(self.group), self.metadata) is None ==> (r matches Err(SdkError::RequestBuild { message }) && message@ == "family=metadata requires metadata=true"@),
    {
        let _ = self.output_mode()?;
        Ok(())
    }

    /// The shape of the rows this request asks for.
    pub fn output_mode(&self) -> (r: Result<PrimitiveOutputMode, SdkError>)
        ensures
            output_mode_matches(r, opt_family_names(self.family), opt_group_names(self.group), self.metadata),
    {
        infer_output_mode(self.family.as_ref(), self.group.as_ref(), self.metadata)
    }
}

impl RangeOutputsGrpcRequest {
    /// The gRPC form of a `range` request.
    pub fn from_range(value: &RangeOutputsRequest) -> (r: Self)
        ensures
            r.pairs@ == value.pairs@,
            r.tf == value.tf,
            r.align_mode == value.align_mode,
            r.close_start == value.close_start,
            r.cursor == value.cursor,
            r.close_end == value.close_end,
            r.limit == value.limit,
            opt_family_names(r.family) == opt_family_names(value.family),
            opt_group_names(r.group) == opt_group_names(value.group),
            r.metadata == value.metadata,
            r.diagnostics == value.diagnostics,
    {
        RangeOutputsGrpcRequest {
            pairs: clone_strings(&value.pairs),
            tf: value.tf,
            align_mode: value.align_mode,
            close_start: clone_opt_time_input(&value.close_start),
            cursor: clone_opt_string(&value.cursor),
            close_end: clone_opt_time_input(&value.close_end),
            limit: value.limit,
            family: clone_opt_families(&value.family),
            group: clone_opt_groups(&value.group),
            metadata: value.metadata,
            diagnostics: value.diagnostics,
        }
    }
}
/// `search` for primitives outputs.
#[derive(Debug, Clone, PartialEq)]
pub struct SearchOutputsRequest {
    pub tf: Timeframe,
    pub close_start: TimeInput,
    pub close_end: Option<TimeInput>,
    pub cursor: Option<String>,
    pub predicate: String,
    pub evaluate_pair: Option<String>,
    pub family: Option<Vec<ProcessorFamily>>,
    pub group: Option<Vec<ProcessorGroup>>,
    pub metadata: Option<bool>,
    pub diagnostics: Option<bool>,
    pub max_hits: Option<i64>,
    pub format: Option<HttpFormat>,
}
/// `search` for primitives outputs over gRPC.
#[derive(Debug, Clone, PartialEq)]
pub struct SearchOutputsGrpcRequest {
    pub tf: Timeframe,
    pub close_start: TimeInput,
    pub close_end: Option<TimeInput>,
    pub cursor: Option<String>,
    pub predicate: String,
    pub evaluate_pair: Option<String>,
    pub family: Option<Vec<ProcessorFamily>>,
    pub group: Option<Vec<ProcessorGroup>>,
    pub metadata: Option<bool>,
    pub diagnostics: Option<bool>,
    pub max_hits: Option<i64>,
}

impl SearchOutputsRequest {
    /// Ok when the request can be sent as it is.
    pub fn validate(&self) -> (r: Result<(), SdkError>)
        ensures
            output_mode_spec(opt_family_names(self.family), opt_group_names(self.group), self.metadata) is Some ==> r is Ok,
            output_mode_spec(opt_family_names(self.family), opt_group_names(self.group), self.metadata) is None ==> (r matches Err(SdkError::RequestBuild { message }) && message@ == "family=metadata requires metadata=true"@),
    {
        let _ = self.output_mode()?;
        Ok(())
    }

    /// The shape of the rows this request asks for.
    pub fn output_mode(&self) -> (r: Result<PrimitiveOutputMode, SdkError>)
        ensures
            output_mode_matches(r, opt_family_names(self.family), opt_group_names(self.group), self.metadata),
    {
        infer_output_mode(self.family.as_ref(), self.group.as_ref(), self.metadata)
    }
}

impl SearchOutputsGrpcRequest {
    /// Ok when the request can be sent as it is.
    pub fn validate(&self) -> (r: Result<(), SdkError>)
        ensures
            output_mode_spec(opt_family_names(self.family), opt_group_names(self.group), self.metadata) is Some ==> r is Ok,
            output_mode_spec(opt_family_names(self.family), opt_group_names(self.group), self.metadata) is None ==> (r matches Err(SdkError::RequestBuild { message }) && message@ == "family=metadata requires metadata=true"@),
    {
        let _ = self.output_mode()?;
        Ok(())
    }

    /// The shape of the rows this request asks for.
    pub fn output_mode(&self) -> (r: Result<PrimitiveOutputMode, SdkError>)
        ensures
            output_mode_matches(r, opt_family_names(self.family), opt_group_names(self.group), self.metadata),
    {
        infer_output_mode(self.family.as_ref(), self.group.as_ref(), self.metadata)
    }
}

impl SearchOutputsGrpcRequest {
    /// The gRPC form of a `search` request.
    pub fn from_search(value: &SearchOutputsRequest) -> (r: Self)
        ensures
            r.tf == value.tf,
            r.close_start == value.close_start,
            r.close_end == value.close_end,
            r.cursor == value.cursor,
            r.predicate == value.predicate,
            r.evaluate_pair == value.evaluate_pair,
            opt_family_names(r.family) == opt_family_names(value.family),
            opt_group_names(r.group) == opt_group_names(value.group),
            r.metadata == value.metadata,
            r.diagnostics == value.diagnostics,
            r.max_hits == value.max_hits,
    {
        SearchOutputsGrpcRequest {
            tf: value.tf,
            close_start: clone_time_input(&value.close_start),
            close_end: clone_opt_time_input(&value.close_end),
            cursor: clone_opt_string(&value.cursor),
            predicate: value.predicate.clone(),
            evaluate_pair: clone_opt_string(&value.evaluate_pair),
            family: clone_opt_families(&value.family),
            group: clone_opt_groups(&value.group),
            metadata: value.metadata,
            diagnostics: value.diagnostics,
            max_hits: value.max_hits,
        }
    }
}
/// `time_machine` for primitives outputs.
#[derive(Debug, Clone, PartialEq)]
pub struct TimeMachineOutputsRequest {
    pub tf: Timeframe,
    pub close_start: TimeInput,
    pub close_end: Option<TimeInput>,
    pub cursor: Option<String>,
    pub predicate: Option<String>,
    pub hits: Option<Vec<i64>>,
    pub output_pairs: Option<Vec<String>>,
    pub family: Option<Vec<ProcessorFamily>>,
    pub group: Option<Vec<ProcessorGroup>>,
    pub metadata: Option<bool>,
    pub diagnostics: Option<bool>,
    pub before_bars: Option<i64>,
    pub after_bars: Option<i64>,
    pub max_hits: Option<i64>,
    pub overlap_mode: Option<String>,
    pub format: Option<HttpFormat>,
}
/// `time_machine` for primitives outputs over gRPC.
#[derive(Debug, Clone, PartialEq)]
pub struct TimeMachineOutputsGrpcRequest {
    pub tf: Timeframe,
    pub close_start: TimeInput,
    pub close_end: Option<TimeInput>,
    pub cursor: Option<String>,
    pub predicate: Option<String>,
    pub hits: Option<Vec<i64>>,
    pub output_pairs: Option<Vec<String>>,
    pub family: Option<Vec<ProcessorFamily>>,
    pub group: Option<Vec<ProcessorGroup>>,
    pub metadata: Option<bool>,
    pub diagnostics: Option<bool>,
    pub before_bars: Option<i64>,
    pub after_bars: Option<i64>,
    pub max_hits: Option<i64>,
    pub overlap_mode: Option<String>,
}

impl TimeMachineOutputsRequest {
    /// Ok when the request can be sent as it is.
    pub fn validate(&self) -> (r: Result<(), SdkError>)
        ensures
            output_mode_spec(opt_family_names(self.family), opt_group_names(self.group), self.metadata) is Some ==> r is Ok,
            output_mode_spec(opt_family_names(self.family), opt_group_names(self.group), self.metadata) is None ==> (r matches Err(SdkError::RequestBuild { message }) && message@ == "family=metadata requires metadata=true"@),
    {
        let _ = self.output_mode()?;
        Ok(())
    }

    /// The shape of the rows this request asks for.
    pub fn output_mode(&self) -> (r: Result<PrimitiveOutputMode, SdkError>)
        ensures
            output_mode_matches(r, opt_family_names(self.family), opt_group_names(self.group), self.metadata),
    {
        infer_output_mode(self.family.as_ref(), self.group.as_ref(), self.metadata)
    }
}

impl TimeMachineOutputsGrpcRequest {
    /// Ok when the request can be sent as it is.
    pub fn validate(&self) -> (r: Result<(), SdkError>)
        ensures
            output_mode_spec(opt_family_names(self.family), opt_group_names(self.group), self.metadata) is Some ==> r is Ok,
            output_mode_spec(opt_family_names(self.family), opt_group_names(self.group), self.metadata) is None ==> (r matches Err(SdkError::RequestBuild { message }) && message@ == "family=metadata requires metadata=true"@),
    {
        let _ = self.output_mode()?;
        Ok(())
    }

    /// The shape of the rows this request asks for.
    pub fn output_mode(&self) -> (r: Result<PrimitiveOutputMode, SdkError>)
        ensures
            output_mode_matches(r, opt_family_names(self.family), opt_group_names(self.group), self.metadata),
    {
        infer_output_mode(self.family.as_ref(), self.group.as_ref(), self.metadata)
    }
}

impl TimeMachineOutputsGrpcRequest {
    /// The gRPC form of a `time_machine` request.
    pub fn from_time_machine(value: &TimeMachineOutputsRequest) -> (r: Self)
        ensures
            r.tf == value.tf,
            r.close_start == value.close_start,
            r.close_end == value.close_end,
            r.cursor == value.cursor,
            r.predicate == value.predicate,
            same_opt_seq(r.hits, value.hits),
            same_opt_seq(r.output_pairs, value.output_pairs),
            opt_family_names(r.family) == opt_family_names(value.family),
            opt_group_names(r.group) == opt_group_names(value.group),
            r.metadata == value.metadata,
            r.diagnostics == value.diagnostics,
            r.before_bars == value.before_bars,
            r.after_bars == value.after_bars,
            r.max_hits == value.max_hits,
            r.overlap_mode == value.overlap_mode,
    {
        TimeMachineOutputsGrpcRequest {
            tf: value.tf,
            close_start: clone_time_input(&value.close_start),
            close_end: clone_opt_time_input(&value.close_end),
            cursor: clone_opt_string(&value.cursor),
            predicate: clone_opt_string(&value.predicate),
            hits: clone_opt_i64s(&value.hits),
            output_pairs: clone_opt_strings(&value.output_pairs),
            family: clone_opt_families(&value.family),
            group: clone_opt_groups(&value.group),
            metadata: value.metadata,
            diagnostics: value.diagnostics,
            before_bars: value.before_bars,
            after_bars: value.after_bars,
            max_hits: value.max_hits,
            overlap_mode: clone_opt_string(&value.overlap_mode),
        }
    }
}



/// A list of names, or none when absent.
pub open spec fn opt_names_or_empty(o: Option<Seq<Seq<char>>>) -> Seq<Seq<char>> {
    match o {
        Some(s) => s,
        None => Seq::empty(),
    }
}

/// The texts of an optional list of strings.
pub open spec fn opt_deep(o: Option<Vec<String>>) -> Option<Seq<Seq<char>>> {
    match o {
        Some(v) => Some(v.deep_view()),
        None => None,
    }
}

/// The wire name of an optional alignment.
pub open spec fn opt_align_name(m: Option<AlignMode>) -> Option<Seq<char>> {
    match m {
        Some(a) => Some(align_mode_name(a)),
        None => None,
    }
}

/// The wire name of an optional alignment.
pub fn align_mode_text(m: Option<AlignMode>) -> (r: Option<String>)
    ensures
        opt_string_view(r) == opt_align_name(m),
{
    match m {
        Some(a) => Some(String::from_str(a.as_str())),
        None => None,
    }
}

/// The text trimmed; refused when nothing is left.
pub fn normalize_required_string(value: &String, context: &str) -> (r: Result<String, SdkError>)
    ensures
        trim(value@).len() > 0 ==> (r matches Ok(t) && t@ == trim(value@)),
        trim(value@).len() == 0 ==> (r matches Err(SdkError::RequestBuild { message }) && message@
            == context@ + " must not be blank"@),
{
    let t = trim_str(value.as_str());
    if t.as_str().is_empty() {
        return Err(SdkError::request_build(String::from_str(context).concat(" must not be blank")));
    }
    Ok(t)
}

/// Whether an optional text, when given, is not blank.
pub open spec fn optional_text_ok(o: Option<String>) -> bool {
    match o {
        Some(v) => trim(v@).len() > 0,
        None => true,
    }
}

/// An optional text trimmed.
pub open spec fn trimmed_opt(o: Option<Seq<char>>) -> Option<Seq<char>> {
    match o {
        Some(v) => Some(trim(v)),
        None => None,
    }
}

/// An optional text trimmed; refused when given and blank.
pub fn normalize_optional_required_string(value: &Option<String>, context: &str) -> (r: Result<
    Option<String>,
    SdkError,
>)
    ensures
        optional_text_ok(*value) ==> (r matches Ok(t) && opt_string_view(t) == trimmed_opt(
            opt_string_view(*value),
        )),
        !optional_text_ok(*value) ==> (r matches Err(SdkError::RequestBuild { message })
            && message@ == context@ + " must not be blank"@),
{
    match value {
        Some(v) => {
            let t = normalize_required_string(v, context)?;
            Ok(Some(t))
        },
        None => Ok(None),
    }
}

/// Optional pairs normalized; none when nothing is left.
pub open spec fn normalized_opt_pairs(o: Option<Vec<String>>) -> Option<Seq<Seq<char>>> {
    match o {
        Some(v) => if trimmed_nonblank(v.deep_view()).len() == 0 {
            None
        } else {
            Some(trimmed_nonblank(v.deep_view()))
        },
        None => None,
    }
}

/// Optional pairs trimmed, blanks dropped; none when nothing is left.
pub fn normalize_optional_pair_values(values: &Option<Vec<String>>) -> (r: Option<Vec<String>>)
    ensures
        opt_deep(r) == normalized_opt_pairs(*values),
{
    match values {
        Some(v) => {
            let normalized = normalize_pair_values(v);
            if normalized.len() == 0 {
                assert(normalized.deep_view().len() == 0);
                None
            } else {
                assert(normalized.deep_view().len() > 0);
                Some(normalized)
            }
        },
        None => None,
    }
}

/// The listed values, or none.
pub open spec fn opt_i64s_or_empty(o: Option<Vec<i64>>) -> Seq<i64> {
    match o {
        Some(v) => v@,
        None => Seq::empty(),
    }
}

/// The hits, or none when absent.
pub fn hits_or_empty(o: &Option<Vec<i64>>) -> (r: Vec<i64>)
    ensures
        r@ == opt_i64s_or_empty(*o),
{
    match o {
        Some(v) => crate::sdk_core::text::clone_i64s(v),
        None => Vec::new(),
    }
}

/// The pairs, or none when absent.
pub fn pairs_or_empty(o: Option<Vec<String>>) -> (r: Vec<String>)
    ensures
        r.deep_view() == opt_names_or_empty(opt_deep(o)),
{
    match o {
        Some(v) => v,
        None => {
            let e: Vec<String> = Vec::new();
            assert(e.deep_view() =~= Seq::<Seq<char>>::empty());
            e
        },
    }
}

/// The wire body of an outputs `latest` request.
#[derive(Debug, Clone, PartialEq)]
pub struct NormalizedLatestOutputsRequest {
    pub pairs: Vec<String>,
    pub tf: Timeframe,
    pub latest_mode: Option<LatestMode>,
    pub family: Option<Vec<ProcessorFamily>>,
    pub group: Option<Vec<ProcessorGroup>>,
    pub metadata: Option<bool>,
    pub diagnostics: Option<bool>,
    pub format: Option<HttpFormat>,
}

impl LatestOutputsRequest {
    /// The fields of the wire body built from this request.
    pub open spec fn http_body_spec(&self, n: NormalizedLatestOutputsRequest) -> bool {
        n.pairs.deep_view() == trimmed_nonblank(self.pairs.deep_view()) && n.tf == self.tf && n.latest_mode == self.latest_mode && opt_family_names(n.family) == normalized_selectors(opt_family_names(self.family)) && opt_group_names(n.group) == normalized_selectors(opt_group_names(self.group)) && n.metadata == self.metadata && n.diagnostics == self.diagnostics && n.format == self.format
    }

    /// The wire body of this request.
    pub fn normalize_http(&self) -> (r: Result<NormalizedLatestOutputsRequest, SdkError>)
        ensures
            (output_mode_spec(opt_family_names(self.family), opt_group_names(self.group), self.metadata) is Some && has_pairs(self.pairs.deep_view())) ==> (r matches Ok(n) && self.http_body_spec(n)),
            !(output_mode_spec(opt_family_names(self.family), opt_group_names(self.group), self.metadata) is Some && has_pairs(self.pairs.deep_view())) ==> r is Err,
            output_mode_spec(opt_family_names(self.family), opt_group_names(self.group), self.metadata) is None ==> (r matches Err(SdkError::RequestBuild { message }) && message@ == "family=metadata requires metadata=true"@),
            output_mode_spec(opt_family_names(self.family), opt_group_names(self.group), self.metadata) is Some && !has_pairs(self.pairs.deep_view()) ==> (r matches Err(SdkError::RequestBuild { message }) && message@ == "latest outputs"@ + " requires at least one pair"@),
    {
        self.validate()?;
        let pairs = normalize_required_pair_values(&self.pairs, "latest outputs")?;
        Ok(NormalizedLatestOutputsRequest {
            pairs: pairs,
            tf: self.tf,
            latest_mode: self.latest_mode,
            family: normalize_family_selectors(&self.family),
            group: normalize_group_selectors(&self.group),
            metadata: self.metadata,
            diagnostics: self.diagnostics,
            format: self.format,
        })
    }
}
/// The gRPC body of an outputs `latest` request.
#[derive(Debug, Clone, PartialEq)]
pub struct NormalizedLatestOutputsGrpcRequest {
    pub pairs: Vec<String>,
    pub tf: String,
    pub latest_mode: String,
    pub metadata: bool,
    pub family: Vec<String>,
    pub group: Vec<String>,
    pub diagnostics: Option<bool>,
}

impl LatestOutputsGrpcRequest {
    /// The fields of the gRPC body built from this request.
    pub open spec fn proto_body_spec(&self, n: NormalizedLatestOutputsGrpcRequest) -> bool {
        n.pairs.deep_view() == trimmed_nonblank(self.pairs.deep_view()) && n.tf@ == timeframe_name(self.tf) && n.latest_mode@ == latest_mode_name(match self.latest_mode { Some(m) => m, None => LatestMode::ExactWatermark }) && n.metadata == (self.metadata == Some(true)) && n.family.deep_view() == opt_names_or_empty(opt_family_names(self.family)) && n.group.deep_view() == opt_names_or_empty(opt_group_names(self.group)) && n.diagnostics == self.diagnostics
    }

    /// Whether this request can be built into its gRPC body.

    pub open spec fn proto_ok(&self) -> bool {

        (output_mode_spec(opt_family_names(self.family), opt_group_names(self.group), self.metadata) is Some && has_pairs(self.pairs.deep_view()))

    }


    /// The wire body of this request.
    pub fn to_proto(&self) -> (r: Result<NormalizedLatestOutputsGrpcRequest, SdkError>)
        ensures
            self.proto_ok() ==> (r matches Ok(n) && self.proto_body_spec(n)),
            !self.proto_ok() ==> r is Err,
            output_mode_spec(opt_family_names(self.family), opt_group_names(self.group), self.metadata) is None ==> (r matches Err(SdkError::RequestBuild { message }) && message@ == "family=metadata requires metadata=true"@),
            output_mode_spec(opt_family_names(self.family), opt_group_names(self.group), self.metadata) is Some && !has_pairs(self.pairs.deep_view()) ==> (r matches Err(SdkError::RequestBuild { message }) && message@ == "latest outputs"@ + " requires at least one pair"@),
    {
        self.validate()?;
        let pairs = normalize_required_pair_values(&self.pairs, "latest outputs")?;
        Ok(NormalizedLatestOutputsGrpcRequest {
            pairs: pairs,
            tf: String::from_str(self.tf.as_str()),
            latest_mode: String::from_str(self.latest_mode.unwrap_or(LatestMode::ExactWatermark).as_str()),
            metadata: self.metadata.unwrap_or(false),
            family: selector_family_names(&self.family),
            group: selector_group_names(&self.group),
            diagnostics: self.diagnostics,
        })
    }
}
/// The wire body of an outputs `range` request.
#[derive(Debug, Clone, PartialEq)]
pub struct NormalizedRangeOutputsRequest {
    pub pairs: Vec<String>,
    pub tf: Timeframe,
    pub align_mode: Option<AlignMode>,
    pub close_start_ms: Option<i64>,
    pub cursor: Option<String>,
    pub close_end_ms: Option<i64>,
    pub limit: Option<i64>,
    pub family: Option<Vec<ProcessorFamily>>,
    pub group: Option<Vec<ProcessorGroup>>,
    pub metadata: Option<bool>,
    pub diagnostics: Option<bool>,
    pub format: Option<HttpFormat>,
}

impl RangeOutputsRequest {
    /// The fields of the wire body built from this request.
    pub open spec fn http_body_spec(&self, n: NormalizedRangeOutputsRequest) -> bool {
        n.pairs.deep_view() == trimmed_nonblank(self.pairs.deep_view()) && n.tf == self.tf && n.align_mode == self.align_mode && n.close_start_ms == opt_time_input_ms(self.close_start).unwrap() && opt_string_view(n.cursor) == trimmed_nonblank_opt(opt_string_view(self.cursor)) && n.close_end_ms == opt_time_input_ms(self.close_end).unwrap() && n.limit == self.limit && opt_family_names(n.family) == normalized_selectors(opt_family_names(self.family)) && opt_group_names(n.group) == normalized_selectors(opt_group_names(self.group)) && n.metadata == self.metadata && n.diagnostics == self.diagnostics && n.format == self.format
    }

    /// The wire body of this request.
    pub fn normalize_http(&self) -> (r: Result<NormalizedRangeOutputsRequest, SdkError>)
        ensures
            (output_mode_spec(opt_family_names(self.family), opt_group_names(self.group), self.metadata) is Some && has_pairs(self.pairs.deep_view()) && opt_time_input_ms(self.close_start) is Some && opt_time_input_ms(self.close_end) is Some) ==> (r matches Ok(n) && self.http_body_spec(n)),
            !(output_mode_spec(opt_family_names(self.family), opt_group_names(self.group), self.metadata) is Some && has_pairs(self.pairs.deep_view()) && opt_time_input_ms(self.close_start) is Some && opt_time_input_ms(self.close_end) is Some) ==> r is Err,
            output_mode_spec(opt_family_names(self.family), opt_group_names(self.group), self.metadata) is None ==> (r matches Err(SdkError::RequestBuild { message }) && message@ == "family=metadata requires metadata=true"@),
            output_mode_spec(opt_family_names(self.family), opt_group_names(self.group), self.metadata) is Some && !has_pairs(self.pairs.deep_view()) ==> (r matches Err(SdkError::RequestBuild { message }) && message@ == "range outputs"@ + " requires at least one pair"@),
            output_mode_spec(opt_family_names(self.family), opt_group_names(self.group), self.metadata) is Some && has_pairs(self.pairs.deep_view()) && !(opt_time_input_ms(self.close_start) is Some && opt_time_input_ms(self.close_end) is Some) ==> (r matches Err(SdkError::InvalidTimeInput { message }) && message@ == range_time_message(self.close_start, self.close_end)),
    {
        self.validate()?;
        let pairs = normalize_required_pair_values(&self.pairs, "range outputs")?;
        let close_start_ms = opt_to_utc_ms(&self.close_start)?;
        let close_end_ms = opt_to_utc_ms(&self.close_end)?;
        Ok(NormalizedRangeOutputsRequest {
            pairs: pairs,
            tf: self.tf,
            align_mode: self.align_mode,
            close_start_ms: close_start_ms,
            cursor: normalize_optional_string(&self.cursor),
            close_end_ms: close_end_ms,
            limit: self.limit,
            family: normalize_family_selectors(&self.family),
            group: normalize_group_selectors(&self.group),
            metadata: self.metadata,
            diagnostics: self.diagnostics,
            format: self.format,
        })
    }
}
/// The gRPC body of an outputs `range` request: absent bounds are 0.
#[derive(Debug, Clone, PartialEq)]
pub struct NormalizedRangeOutputsGrpcRequest {
    pub pairs: Vec<String>,
    pub tf: String,
    pub close_end_ms: i64,
    pub cursor: Option<String>,
    pub limit: Option<i64>,
    pub metadata: bool,
    pub close_start_ms: i64,
    pub align_mode: Option<String>,
    pub family: Vec<String>,
    pub group: Vec<String>,
    pub diagnostics: Option<bool>,
}

impl RangeOutputsGrpcRequest {
    /// The fields of the gRPC body built from this request.
    pub open spec fn proto_body_spec(&self, n: NormalizedRangeOutputsGrpcRequest) -> bool {
        n.pairs.deep_view() == trimmed_nonblank(self.pairs.deep_view()) && n.tf@ == timeframe_name(self.tf) && n.close_end_ms == or_zero(opt_time_input_ms(self.close_end).unwrap()) && opt_string_view(n.cursor) == trimmed_nonblank_opt(opt_string_view(self.cursor)) && n.limit == self.limit && n.metadata == (self.metadata == Some(true)) && n.close_start_ms == or_zero(opt_time_input_ms(self.close_start).unwrap()) && opt_string_view(n.align_mode) == opt_align_name(self.align_mode) && n.family.deep_view() == opt_names_or_empty(opt_family_names(self.family)) && n.group.deep_view() == opt_names_or_empty(opt_group_names(self.group)) && n.diagnostics == self.diagnostics
    }

    /// Whether this request can be built into its gRPC body.

    pub open spec fn proto_ok(&self) -> bool {

        (output_mode_spec(opt_family_names(self.family), opt_group_names(self.group), self.metadata) is Some && has_pairs(self.pairs.deep_view()) && opt_time_input_ms(self.close_start) is Some && opt_time_input_ms(self.close_end) is Some)

    }


    /// The wire body of this request.
    pub fn to_proto(&self) -> (r: Result<NormalizedRangeOutputsGrpcRequest, SdkError>)
        ensures
            self.proto_ok() ==> (r matches Ok(n) && self.proto_body_spec(n)),
            !self.proto_ok() ==> r is Err,
            output_mode_spec(opt_family_names(self.family), opt_group_names(self.group), self.metadata) is None ==> (r matches Err(SdkError::RequestBuild { message }) && message@ == "family=metadata requires metadata=true"@),
            output_mode_spec(opt_family_names(self.family), opt_group_names(self.group), self.metadata) is Some && !has_pairs(self.pairs.deep_view()) ==> (r matches Err(SdkError::RequestBuild { message }) && message@ == "range outputs"@ + " requires at least one pair"@),
            output_mode_spec(opt_family_names(self.family), opt_group_names(self.group), self.metadata) is Some && has_pairs(self.pairs.deep_view()) && !(opt_time_input_ms(self.close_start) is Some && opt_time_input_ms(self.close_end) is Some) ==> (r matches Err(SdkError::InvalidTimeInput { message }) && message@ == range_time_message(self.close_start, self.close_end)),
    {
        self.validate()?;
        let pairs = normalize_required_pair_values(&self.pairs, "range outputs")?;
        let close_start_ms = opt_to_utc_ms(&self.close_start)?;
        let close_end_ms = opt_to_utc_ms(&self.close_end)?;
        Ok(NormalizedRangeOutputsGrpcRequest {
            pairs: pairs,
            tf: String::from_str(self.tf.as_str()),
            close_end_ms: close_end_ms.unwrap_or(0),
            cursor: normalize_optional_string(&self.cursor),
            limit: self.limit,
            metadata: self.metadata.unwrap_or(false),
            close_start_ms: close_start_ms.unwrap_or(0),
            align_mode: align_mode_text(self.align_mode),
            family: selector_family_names(&self.family),
            group: selector_group_names(&self.group),
            diagnostics: self.diagnostics,
        })
    }
}
/// The wire body of an outputs `search` request.
#[derive(Debug, Clone, PartialEq)]
pub struct NormalizedSearchOutputsRequest {
    pub tf: Timeframe,
    pub close_start_ms: i64,
    pub close_end_ms: Option<i64>,
    pub cursor: Option<String>,
    pub predicate: String,
    pub evaluate_pair: Option<String>,
    pub family: Option<Vec<ProcessorFamily>>,
    pub group: Option<Vec<ProcessorGroup>>,
    pub metadata: Option<bool>,
    pub diagnostics: Option<bool>,
    pub max_hits: Option<i64>,
    pub format: Option<HttpFormat>,
}

impl SearchOutputsRequest {
    /// The fields of the wire body built from this request.
    pub open spec fn http_body_spec(&self, n: NormalizedSearchOutputsRequest) -> bool {
        n.tf == self.tf && n.close_start_ms == time_input_ms(self.close_start).unwrap() && n.close_end_ms == opt_time_input_ms(self.close_end).unwrap() && opt_string_view(n.cursor) == trimmed_nonblank_opt(opt_string_view(self.cursor)) && n.predicate@ == trim(self.predicate@) && opt_string_view(n.evaluate_pair) == trimmed_nonblank_opt(opt_string_view(self.evaluate_pair)) && opt_family_names(n.family) == normalized_selectors(opt_family_names(self.family)) && opt_group_names(n.group) == normalized_selectors(opt_group_names(self.group)) && n.metadata == self.metadata && n.diagnostics == self.diagnostics && n.max_hits == self.max_hits && n.format == self.format
    }

    /// The wire body of this request.
    pub fn normalize_http(&self) -> (r: Result<NormalizedSearchOutputsRequest, SdkError>)
        ensures
            (output_mode_spec(opt_family_names(self.family), opt_group_names(self.group), self.metadata) is Some && window_inputs_ok(self.close_start, self.close_end) && trim(self.predicate@).len() > 0) ==> (r matches Ok(n) && self.http_body_spec(n)),
            !(output_mode_spec(opt_family_names(self.family), opt_group_names(self.group), self.metadata) is Some && window_inputs_ok(self.close_start, self.close_end) && trim(self.predicate@).len() > 0) ==> r is Err,
            output_mode_spec(opt_family_names(self.family), opt_group_names(self.group), self.metadata) is None ==> (r matches Err(SdkError::RequestBuild { message }) && message@ == "family=metadata requires metadata=true"@),
            output_mode_spec(opt_family_names(self.family), opt_group_names(self.group), self.metadata) is Some && trim(self.predicate@).len() == 0 ==> (r matches Err(SdkError::RequestBuild { message }) && message@ == "search outputs predicate"@ + " must not be blank"@),
            output_mode_spec(opt_family_names(self.family), opt_group_names(self.group), self.metadata) is Some && trim(self.predicate@).len() > 0 && !window_inputs_ok(self.close_start, self.close_end) ==> (r matches Err(SdkError::InvalidTimeInput { message }) && message@ == window_time_message(self.close_start, self.close_end)),
    {
        self.validate()?;
        let predicate = normalize_required_string(&self.predicate, "search outputs predicate")?;
        let close_start_ms = self.close_start.to_utc_ms()?;
        let close_end_ms = opt_to_utc_ms(&self.close_end)?;
        Ok(NormalizedSearchOutputsRequest {
            tf: self.tf,
            close_start_ms: close_start_ms,
            close_end_ms: close_end_ms,
            cursor: normalize_optional_string(&self.cursor),
            predicate: predicate,
            evaluate_pair: normalize_optional_string(&self.evaluate_pair),
            family: normalize_family_selectors(&self.family),
            group: normalize_group_selectors(&self.group),
            metadata: self.metadata,
            diagnostics: self.diagnostics,
            max_hits: self.max_hits,
            format: self.format,
        })
    }
}
/// The gRPC body of an outputs `search` request: an absent end is 0.
#[derive(Debug, Clone, PartialEq)]
pub struct NormalizedSearchOutputsGrpcRequest {
    pub tf: String,
    pub close_start_ms: i64,
    pub close_end_ms: i64,
    pub cursor: Option<String>,
    pub predicate: String,
    pub evaluate_pair: Option<String>,
    pub metadata: bool,
    pub max_hits: Option<i64>,
    pub family: Vec<String>,
    pub group: Vec<String>,
    pub diagnostics: Option<bool>,
}

impl SearchOutputsGrpcRequest {
    /// The fields of the gRPC body built from this request.
    pub open spec fn proto_body_spec(&self, n: NormalizedSearchOutputsGrpcRequest) -> bool {
        n.tf@ == timeframe_name(self.tf) && n.close_start_ms == time_input_ms(self.close_start).unwrap() && n.close_end_ms == or_zero(opt_time_input_ms(self.close_end).unwrap()) && opt_string_view(n.cursor) == trimmed_nonblank_opt(opt_string_view(self.cursor)) && n.predicate@ == trim(self.predicate@) && opt_string_view(n.evaluate_pair) == trimmed_nonblank_opt(opt_string_view(self.evaluate_pair)) && n.metadata == (self.metadata == Some(true)) && n.max_hits == self.max_hits && n.family.deep_view() == opt_names_or_empty(opt_family_names(self.family)) && n.group.deep_view() == opt_names_or_empty(opt_group_names(self.group)) && n.diagnostics == self.diagnostics
    }

    /// Whether this request can be built into its gRPC body.

    pub open spec fn proto_ok(&self) -> bool {

        (output_mode_spec(opt_family_names(self.family), opt_group_names(self.group), self.metadata) is Some && window_inputs_ok(self.close_start, self.close_end) && trim(self.predicate@).len() > 0)

    }


    /// The wire body of this request.
    pub fn to_proto(&self) -> (r: Result<NormalizedSearchOutputsGrpcRequest, SdkError>)
        ensures
            self.proto_ok() ==> (r matches Ok(n) && self.proto_body_spec(n)),
            !self.proto_ok() ==> r is Err,
            output_mode_spec(opt_family_names(self.family), opt_group_names(self.group), self.metadata) is None ==> (r matches Err(SdkError::RequestBuild { message }) && message@ == "family=metadata requires metadata=true"@),
            output_mode_spec(opt_family_names(self.family), opt_group_names(self.group), self.metadata) is Some && !window_inputs_ok(self.close_start, self.close_end) ==> (r matches Err(SdkError::InvalidTimeInput { message }) && message@ == window_time_message(self.close_start, self.close_end)),
            output_mode_spec(opt_family_names(self.family), opt_group_names(self.group), self.metadata) is Some && window_inputs_ok(self.close_start, self.close_end) && trim(self.predicate@).len() == 0 ==> (r matches Err(SdkError::RequestBuild { message }) && message@ == "search outputs predicate"@ + " must not be blank"@),
    {
        self.validate()?;
        let close_start_ms = self.close_start.to_utc_ms()?;
        let close_end_ms = opt_to_utc_ms(&self.close_end)?;
        let predicate = normalize_required_string(&self.predicate, "search outputs predicate")?;
        Ok(NormalizedSearchOutputsGrpcRequest {
            tf: String::from_str(self.tf.as_str()),
            close_start_ms: close_start_ms,
            close_end_ms: close_end_ms.unwrap_or(0),
            cursor: normalize_optional_string(&self.cursor),
            predicate: predicate,
            evaluate_pair: normalize_optional_string(&self.evaluate_pair),
            metadata: self.metadata.unwrap_or(false),
            max_hits: self.max_hits,
            family: selector_family_names(&self.family),
            group: selector_group_names(&self.group),
            diagnostics: self.diagnostics,
        })
    }
}
/// The wire body of an outputs `time_machine` request.
#[derive(Debug, Clone, PartialEq)]
pub struct NormalizedTimeMachineOutputsRequest {
    pub tf: Timeframe,
    pub close_start_ms: i64,
    pub close_end_ms: Option<i64>,
    pub cursor: Option<String>,
    pub predicate: Option<String>,
    pub hits: Option<Vec<i64>>,
    pub output_pairs: Option<Vec<String>>,
    pub family: Option<Vec<ProcessorFamily>>,
    pub group: Option<Vec<ProcessorGroup>>,
    pub metadata: Option<bool>,
    pub diagnostics: Option<bool>,
    pub before_bars: Option<i64>,
    pub after_bars: Option<i64>,
    pub max_hits: Option<i64>,
    pub overlap_mode: Option<String>,
    pub format: Option<HttpFormat>,
}

impl TimeMachineOutputsRequest {
    /// The fields of the wire body built from this request.
    pub open spec fn http_body_spec(&self, n: NormalizedTimeMachineOutputsRequest) -> bool {
        n.tf == self.tf && n.close_start_ms == time_input_ms(self.close_start).unwrap() && n.close_end_ms == opt_time_input_ms(self.close_end).unwrap() && opt_string_view(n.cursor) == trimmed_nonblank_opt(opt_string_view(self.cursor)) && opt_string_view(n.predicate) == trimmed_opt(opt_string_view(self.predicate)) && same_opt_seq(n.hits, self.hits) && opt_deep(n.output_pairs) == normalized_opt_pairs(self.output_pairs) && opt_family_names(n.family) == normalized_selectors(opt_family_names(self.family)) && opt_group_names(n.group) == normalized_selectors(opt_group_names(self.group)) && n.metadata == self.metadata && n.diagnostics == self.diagnostics && n.before_bars == self.before_bars && n.after_bars == self.after_bars && n.max_hits == self.max_hits && opt_string_view(n.overlap_mode) == trimmed_nonblank_opt(opt_string_view(self.overlap_mode)) && n.format == self.format
    }

    /// The wire body of this request.
    pub fn normalize_http(&self) -> (r: Result<NormalizedTimeMachineOutputsRequest, SdkError>)
        ensures
            (output_mode_spec(opt_family_names(self.family), opt_group_names(self.group), self.metadata) is Some && window_inputs_ok(self.close_start, self.close_end) && optional_text_ok(self.predicate)) ==> (r matches Ok(n) && self.http_body_spec(n)),
            !(output_mode_spec(opt_family_names(self.family), opt_group_names(self.group), self.metadata) is Some && window_inputs_ok(self.close_start, self.close_end) && optional_text_ok(self.predicate)) ==> r is Err,
            output_mode_spec(opt_family_names(self.family), opt_group_names(self.group), self.metadata) is None ==> (r matches Err(SdkError::RequestBuild { message }) && message@ == "family=metadata requires metadata=true"@),
            output_mode_spec(opt_family_names(self.family), opt_group_names(self.group), self.metadata) is Some && !window_inputs_ok(self.close_start, self.close_end) ==> (r matches Err(SdkError::InvalidTimeInput { message }) && message@ == window_time_message(self.close_start, self.close_end)),
            output_mode_spec(opt_family_names(self.family), opt_group_names(self.group), self.metadata) is Some && window_inputs_ok(self.close_start, self.close_end) && !optional_text_ok(self.predicate) ==> (r matches Err(SdkError::RequestBuild { message }) && message@ == "time machine predicate"@ + " must not be blank"@),
    {
        self.validate()?;
        let close_start_ms = self.close_start.to_utc_ms()?;
        let close_end_ms = opt_to_utc_ms(&self.close_end)?;
        let predicate = normalize_optional_required_string(&self.predicate, "time machine predicate")?;
        Ok(NormalizedTimeMachineOutputsRequest {
            tf: self.tf,
            close_start_ms: close_start_ms,
            close_end_ms: close_end_ms,
            cursor: normalize_optional_string(&self.cursor),
            predicate: predicate,
            hits: clone_opt_i64s(&self.hits),
            output_pairs: normalize_optional_pair_values(&self.output_pairs),
            family: normalize_family_selectors(&self.family),
            group: normalize_group_selectors(&self.group),
            metadata: self.metadata,
            diagnostics: self.diagnostics,
            before_bars: self.before_bars,
            after_bars: self.after_bars,
            max_hits: self.max_hits,
            overlap_mode: normalize_optional_string(&self.overlap_mode),
            format: self.format,
        })
    }
}
/// The gRPC body of an outputs `time_machine` request: an absent end is 0, absent lists are empty.
#[derive(Debug, Clone, PartialEq)]
pub struct NormalizedTimeMachineOutputsGrpcRequest {
    pub tf: String,
    pub close_start_ms: i64,
    pub close_end_ms: i64,
    pub cursor: Option<String>,
    pub predicate: Option<String>,
    pub hits: Vec<i64>,
    pub output_pairs: Vec<String>,
    pub metadata: bool,
    pub before_bars: Option<i64>,
    pub after_bars: Option<i64>,
    pub max_hits: Option<i64>,
    pub overlap_mode: Option<String>,
    pub family: Vec<String>,
    pub group: Vec<String>,
    pub diagnostics: Option<bool>,
}

impl TimeMachineOutputsGrpcRequest {
    /// The fields of the gRPC body built from this request.
    pub open spec fn proto_body_spec(&self, n: NormalizedTimeMachineOutputsGrpcRequest) -> bool {
        n.tf@ == timeframe_name(self.tf) && n.close_start_ms == time_input_ms(self.close_start).unwrap() && n.close_end_ms == or_zero(opt_time_input_ms(self.close_end).unwrap()) && opt_string_view(n.cursor) == trimmed_nonblank_opt(opt_string_view(self.cursor)) && opt_string_view(n.predicate) == trimmed_opt(opt_string_view(self.predicate)) && n.hits@ == opt_i64s_or_empty(self.hits) && n.output_pairs.deep_view() == opt_names_or_empty(normalized_opt_pairs(self.output_pairs)) && n.metadata == (self.metadata == Some(true)) && n.before_bars == self.before_bars && n.after_bars == self.after_bars && n.max_hits == self.max_hits && opt_string_view(n.overlap_mode) == trimmed_nonblank_opt(opt_string_view(self.overlap_mode)) && n.family.deep_view() == opt_names_or_empty(opt_family_names(self.family)) && n.group.deep_view() == opt_names_or_empty(opt_group_names(self.group)) && n.diagnostics == self.diagnostics
    }

    /// Whether this request can be built into its gRPC body.

    pub open spec fn proto_ok(&self) -> bool {

        (output_mode_spec(opt_family_names(self.family), opt_group_names(self.group), self.metadata) is Some && window_inputs_ok(self.close_start, self.close_end) && optional_text_ok(self.predicate))

    }


    /// The wire body of this request.
    pub fn to_proto(&self) -> (r: Result<NormalizedTimeMachineOutputsGrpcRequest, SdkError>)
        ensures
            self.proto_ok() ==> (r matches Ok(n) && self.proto_body_spec(n)),
            !self.proto_ok() ==> r is Err,
            output_mode_spec(opt_family_names(self.family), opt_group_names(self.group), self.metadata) is None ==> (r matches Err(SdkError::RequestBuild { message }) && message@ == "family=metadata requires metadata=true"@),
            output_mode_spec(opt_family_names(self.family), opt_group_names(self.group), self.metadata) is Some && !window_inputs_ok(self.close_start, self.close_end) ==> (r matches Err(SdkError::InvalidTimeInput { message }) && message@ == window_time_message(self.close_start, self.close_end)),
            output_mode_spec(opt_family_names(self.family), opt_group_names(self.group), self.metadata) is Some && window_inputs_ok(self.close_start, self.close_end) && !optional_text_ok(self.predicate) ==> (r matches Err(SdkError::RequestBuild { message }) && message@ == "time machine predicate"@ + " must not be blank"@),
    {
        self.validate()?;
        let close_start_ms = self.close_start.to_utc_ms()?;
        let close_end_ms = opt_to_utc_ms(&self.close_end)?;
        let predicate = normalize_optional_required_string(&self.predicate, "time machine predicate")?;
        Ok(NormalizedTimeMachineOutputsGrpcRequest {
            tf: String::from_str(self.tf.as_str()),
            close_start_ms: close_start_ms,
            close_end_ms: close_end_ms.unwrap_or(0),
            cursor: normalize_optional_string(&self.cursor),
            predicate: predicate,
            hits: hits_or_empty(&self.hits),
            output_pairs: pairs_or_empty(normalize_optional_pair_values(&self.output_pairs)),
            metadata: self.metadata.unwrap_or(false),
            before_bars: self.before_bars,
            after_bars: self.after_bars,
            max_hits: self.max_hits,
            overlap_mode: normalize_optional_string(&self.overlap_mode),
            family: selector_family_names(&self.family),
            group: selector_group_names(&self.group),
            diagnostics: self.diagnostics,
        })
    }
}



/// An output row as the protobuf message carries it.
#[derive(Debug, Clone, PartialEq)]
pub struct OutputRowWire {
    pub pair: String,
    pub open_utc: Option<String>,
    pub close_utc: Option<String>,
    pub computed: Vec<(String, u64)>,
    pub metadata: Option<OutputMetadata>,
    pub diagnostics: Option<Vec<OutputProcessDiagnostic>>,
}

/// The output a protobuf row stands for in a request of mode `mode`:
/// projected modes are not read back, both timestamps must be present, and
/// rows with metadata must carry it.
pub open spec fn output_from_wire(w: OutputRowWire, mode: PrimitiveOutputMode, diagnostics_enabled: bool) -> Option<
    PrimitiveOutput,
> {
    match (w.open_utc, w.close_utc) {
        (Some(open_utc), Some(close_utc)) => {
            let row = OutputRow { pair: w.pair, open_utc, close_utc, computed: w.computed };
            match mode {
                PrimitiveOutputMode::Min => Some(
                    gated(
                        PrimitiveOutput::Min(ProcessorOutputMin { row, diagnostics: w.diagnostics }),
                        diagnostics_enabled,
                    ),
                ),
                PrimitiveOutputMode::WithMeta => match w.metadata {
                    Some(metadata) => Some(
                        gated(
                            PrimitiveOutput::WithMeta(
                                ProcessorOutputWithMeta { row, metadata, diagnostics: w.diagnostics },
                            ),
                            diagnostics_enabled,
                        ),
                    ),
                    None => None,
                },
                _ => None,
            }
        },
        _ => None,
    }
}

impl PrimitiveOutput {
    /// The output of a protobuf row. Projected modes are refused; a missing
    /// timestamp, or missing metadata where it is required, is contract drift.
    pub fn from_proto_row(value: OutputRowWire, mode: PrimitiveOutputMode, diagnostics_enabled: bool) -> (r:
        Result<Self, SdkError>)
        ensures
            output_from_wire(value, mode, diagnostics_enabled) matches Some(o) ==> r == Ok::<
                Self,
                SdkError,
            >(o),
            mode_is_projected(mode) ==> r matches Err(SdkError::UnsupportedOrUnprovedUsage { .. }),
            !mode_is_projected(mode) && output_from_wire(value, mode, diagnostics_enabled) is None
                ==> r matches Err(SdkError::ContractDrift { .. }),
    {
        if mode.is_projected() {
            return Err(
                SdkError::unsupported_or_unproved_usage(
                    String::from_str(
                        "projected primitives protobuf/gRPC output decoding is not proved because unselected computed fields collapse to unset optional fields",
                    ),
                ),
            );
        }
        let open_utc = match value.open_utc {
            Some(v) => v,
            None => {
                return Err(
                    SdkError::contract_drift(
                        String::from_str("primitives outputs protobuf row missing `open_utc`"),
                    ),
                );
            },
        };
        let close_utc = match value.close_utc {
            Some(v) => v,
            None => {
                return Err(
                    SdkError::contract_drift(
                        String::from_str("primitives outputs protobuf row missing `close_utc`"),
                    ),
                );
            },
        };
        let row = OutputRow { pair: value.pair, open_utc, close_utc, computed: value.computed };
        match mode {
            PrimitiveOutputMode::WithMeta => match value.metadata {
                Some(metadata) => Ok(
                    PrimitiveOutput::WithMeta(
                        ProcessorOutputWithMeta { row, metadata, diagnostics: value.diagnostics },
                    ).apply_diagnostics_gate(diagnostics_enabled),
                ),
                None => Err(
                    SdkError::contract_drift(
                        String::from_str("primitives outputs full protobuf row missing `metadata`"),
                    ),
                ),
            },
            _ => Ok(
                PrimitiveOutput::Min(
                    ProcessorOutputMin { row, diagnostics: value.diagnostics },
                ).apply_diagnostics_gate(diagnostics_enabled),
            ),
        }
    }
}

/// Whether every protobuf row stands for an output.
pub open spec fn all_outputs_read(rows: Seq<OutputRowWire>, mode: PrimitiveOutputMode, d: bool) -> bool {
    forall|i: int| 0 <= i < rows.len() ==> (#[trigger] output_from_wire(rows[i], mode, d)) is Some
}

/// The outputs the protobuf rows stand for, in order.
pub open spec fn outputs_from_wire(rows: Seq<OutputRowWire>, mode: PrimitiveOutputMode, d: bool) -> Seq<
    PrimitiveOutput,
> {
    Seq::new(rows.len(), |i: int| output_from_wire(rows[i], mode, d).unwrap())
}

/// The outputs of protobuf rows, in order; the first row that does not read
/// refuses the lot.
pub(crate) fn outputs_from_proto(rows: Vec<OutputRowWire>, mode: PrimitiveOutputMode, diagnostics_enabled: bool) -> (r:
    Result<Vec<PrimitiveOutput>, SdkError>)
    requires
        !mode_is_projected(mode),
    ensures
        all_outputs_read(rows@, mode, diagnostics_enabled) ==> (r matches Ok(v) && v@
            == outputs_from_wire(rows@, mode, diagnostics_enabled)),
        !all_outputs_read(rows@, mode, diagnostics_enabled) ==> r matches Err(
            SdkError::ContractDrift { .. },
        ),
{
    let ghost orig = rows@;
    let mut rest = rows;
    let mut out: Vec<PrimitiveOutput> = Vec::new();
    let n = rest.len();
    let mut k: usize = 0;
    while k < n
        invariant
            !mode_is_projected(mode),
            orig == rows@,
            n == orig.len(),
            k <= n,
            rest@ == orig.subrange(k as int, n as int),
            out@.len() == k,
            forall|i: int|
                0 <= i < k ==> (#[trigger] output_from_wire(orig[i], mode, diagnostics_enabled)) is Some,
            forall|i: int|
                0 <= i < k ==> out@[i] == output_from_wire(orig[i], mode, diagnostics_enabled).unwrap(),
        decreases n - k,
    {
        let row = rest.remove(0);
        assert(row == orig[k as int]);
        let item = match PrimitiveOutput::from_proto_row(row, mode, diagnostics_enabled) {
            Ok(o) => o,
            Err(e) => {
                assert(output_from_wire(orig[k as int], mode, diagnostics_enabled) is None);
                assert(!all_outputs_read(orig, mode, diagnostics_enabled));
                return Err(e);
            },
        };
        out.push(item);
        k = k + 1;
        assert(rest@ =~= orig.subrange(k as int, n as int));
    }
    assert(out@ =~= outputs_from_wire(orig, mode, diagnostics_enabled));
    Ok(out)
}


/// An output present in a `latest` snapshot, with its age.
#[derive(Debug, Clone, PartialEq)]
pub struct LatestOutputsPresentRow {
    pub output: PrimitiveOutput,
    pub age_ms: i64,
}

/// A `latest` row as the protobuf message carries it.
#[derive(Debug, Clone, PartialEq)]
pub struct OutputsPresentRowWire {
    pub output: Option<OutputRowWire>,
    pub age_ms: Option<i64>,
}

/// The present row a protobuf `latest` row stands for.
pub open spec fn present_row_from_wire(w: OutputsPresentRowWire, mode: PrimitiveOutputMode, d: bool) -> Option<
    LatestOutputsPresentRow,
> {
    match w.output {
        Some(o) => match (output_from_wire(o, mode, d), w.age_ms) {
            (Some(output), Some(age_ms)) => Some(LatestOutputsPresentRow { output, age_ms }),
            _ => None,
        },
        None => None,
    }
}

impl LatestOutputsPresentRow {
    /// The present row of a protobuf `latest` row.
    pub(crate) fn from_proto(value: OutputsPresentRowWire, mode: PrimitiveOutputMode, diagnostics_enabled: bool) -> (r:
        Result<Self, SdkError>)
        requires
            !mode_is_projected(mode),
        ensures
            present_row_from_wire(value, mode, diagnostics_enabled) matches Some(p) ==> r == Ok::<
                Self,
                SdkError,
            >(p),
            present_row_from_wire(value, mode, diagnostics_enabled) is None ==> r matches Err(
                SdkError::ContractDrift { .. },
            ),
    {
        let wire = match value.output {
            Some(o) => o,
            None => {
                return Err(
                    SdkError::contract_drift(
                        String::from_str("latest outputs protobuf row missing `output`"),
                    ),
                );
            },
        };
        let output = PrimitiveOutput::from_proto_row(wire, mode, diagnostics_enabled)?;
        match value.age_ms {
            Some(age_ms) => Ok(LatestOutputsPresentRow { output, age_ms }),
            None => Err(
                SdkError::contract_drift(
                    String::from_str("latest outputs protobuf row missing `age_ms`"),
                ),
            ),
        }
    }
}

/// Whether every protobuf `latest` row reads.
pub open spec fn all_present_rows_read(rows: Seq<OutputsPresentRowWire>, mode: PrimitiveOutputMode, d: bool) -> bool {
    forall|i: int| 0 <= i < rows.len() ==> (#[trigger] present_row_from_wire(rows[i], mode, d)) is Some
}

/// The present rows the protobuf rows stand for, in order.
pub open spec fn present_rows_from_wire(rows: Seq<OutputsPresentRowWire>, mode: PrimitiveOutputMode, d: bool) -> Seq<
    LatestOutputsPresentRow,
> {
    Seq::new(rows.len(), |i: int| present_row_from_wire(rows[i], mode, d).unwrap())
}

/// The present rows of protobuf `latest` rows, in order.
pub(crate) fn present_rows_from_proto(
    rows: Vec<OutputsPresentRowWire>,
    mode: PrimitiveOutputMode,
    diagnostics_enabled: bool,
) -> (r: Result<Vec<LatestOutputsPresentRow>, SdkError>)
    requires
        !mode_is_projected(mode),
    ensures
        all_present_rows_read(rows@, mode, diagnostics_enabled) ==> (r matches Ok(v) && v@
            == present_rows_from_wire(rows@, mode, diagnostics_enabled)),
        !all_present_rows_read(rows@, mode, diagnostics_enabled) ==> r matches Err(
            SdkError::ContractDrift { .. },
        ),
{
    let ghost orig = rows@;
    let mut rest = rows;
    let mut out: Vec<LatestOutputsPresentRow> = Vec::new();
    let n = rest.len();
    let mut k: usize = 0;
    while k < n
        invariant
            !mode_is_projected(mode),
            orig == rows@,
            n == orig.len(),
            k <= n,
            rest@ == orig.subrange(k as int, n as int),
            out@.len() == k,
            forall|i: int|
                0 <= i < k ==> (#[trigger] present_row_from_wire(orig[i], mode, diagnostics_enabled)) is Some,
            forall|i: int|
                0 <= i < k ==> out@[i] == present_row_from_wire(orig[i], mode, diagnostics_enabled).unwrap(),
        decreases n - k,
    {
        let row = rest.remove(0);
        assert(row == orig[k as int]);
        let item = match LatestOutputsPresentRow::from_proto(row, mode, diagnostics_enabled) {
            Ok(o) => o,
            Err(e) => {
                assert(present_row_from_wire(orig[k as int], mode, diagnostics_enabled) is None);
                assert(!all_present_rows_read(orig, mode, diagnostics_enabled));
                return Err(e);
            },
        };
        out.push(item);
        k = k + 1;
        assert(rest@ =~= orig.subrange(k as int, n as int));
    }
    assert(out@ =~= present_rows_from_wire(orig, mode, diagnostics_enabled));
    Ok(out)
}

/// The view a protobuf message declares.
#[derive(Debug, Clone, Copy, PartialEq, Eq, Structural)]
pub enum ProtoOutputView {
    Min,
    Full,
    Unknown,
}

/// The view a protobuf message declares, when it is a known one.
pub open spec fn output_view_from_proto(v: ProtoOutputView) -> Option<OutputView> {
    match v {
        ProtoOutputView::Min => Some(OutputView::Min),
        ProtoOutputView::Full => Some(OutputView::Full),
        ProtoOutputView::Unknown => None,
    }
}

impl OutputView {
    /// The view a protobuf message declares; an unknown one is contract drift.
    pub fn from_proto(value: ProtoOutputView) -> (r: Result<Self, SdkError>)
        ensures
            output_view_from_proto(value) matches Some(v) ==> r == Ok::<Self, SdkError>(v),
            output_view_from_proto(value) is None ==> r matches Err(SdkError::ContractDrift { .. }),
    {
        match value {
            ProtoOutputView::Min => Ok(OutputView::Min),
            ProtoOutputView::Full => Ok(OutputView::Full),
            ProtoOutputView::Unknown => Err(
                SdkError::contract_drift(String::from_str("unsupported outputs view")),
            ),
        }
    }
}

/// A primitives `latest` snapshot.
#[derive(Debug, Clone, PartialEq)]
pub struct LatestOutputsResponse {
    pub watermark_end_ms: i64,
    pub close_end_ms: i64,
    pub latest_mode: LatestMode,
    pub view: OutputView,
    pub rows: Vec<LatestOutputsPresentRow>,
    pub missing_pairs: Vec<String>,
}

/// A `latest` snapshot as the protobuf message carries it.
#[derive(Debug, Clone, PartialEq)]
pub struct OutputsLatestResponseWire {
    pub watermark_end_ms: i64,
    pub close_end_ms: i64,
    pub latest_mode: String,
    pub view: ProtoOutputView,
    pub rows: Vec<OutputsPresentRowWire>,
    pub missing_pairs: Vec<String>,
}

/// Every present row with its diagnostics dropped unless asked for.
pub open spec fn present_rows_gated(rows: Seq<LatestOutputsPresentRow>, d: bool) -> Seq<LatestOutputsPresentRow> {
    Seq::new(rows.len(), |i: int| LatestOutputsPresentRow { output: gated(rows[i].output, d), ..rows[i] })
}

/// The present rows with their diagnostics dropped unless asked for.
pub fn gate_present_rows(rows: Vec<LatestOutputsPresentRow>, enabled: bool) -> (r: Vec<LatestOutputsPresentRow>)
    ensures
        r@ == present_rows_gated(rows@, enabled),
{
    let ghost orig = rows@;
    let mut rest = rows;
    let mut out: Vec<LatestOutputsPresentRow> = Vec::new();
    let n = rest.len();
    let mut k: usize = 0;
    while k < n
        invariant
            orig == rows@,
            n == orig.len(),
            k <= n,
            rest@ == orig.subrange(k as int, n as int),
            out@.len() == k,
            forall|i: int| 0 <= i < k ==> out@[i] == (LatestOutputsPresentRow { output: gated(orig[i].output, enabled), ..orig[i] }),
        decreases n - k,
    {
        let row = rest.remove(0);
        assert(row == orig[k as int]);
        out.push(LatestOutputsPresentRow { output: row.output.apply_diagnostics_gate(enabled), age_ms: row.age_ms });
        k = k + 1;
        assert(rest@ =~= orig.subrange(k as int, n as int));
    }
    assert(out@ =~= present_rows_gated(orig, enabled));
    out
}

impl LatestOutputsResponse {
    /// A snapshot decoded from JSON: the declared view must be the one the
    /// mode implies; diagnostics are dropped unless asked for.
    pub fn from_http(raw: Self, mode: PrimitiveOutputMode, diagnostics_enabled: bool) -> (r: Result<
        Self,
        SdkError,
    >)
        ensures
            raw.view == expected_view(mode) ==> (r matches Ok(p) && p.rows@ == present_rows_gated(
                raw.rows@,
                diagnostics_enabled,
            ) && p.watermark_end_ms == raw.watermark_end_ms && p.close_end_ms == raw.close_end_ms
                && p.latest_mode == raw.latest_mode && p.view == raw.view && p.missing_pairs
                == raw.missing_pairs),
            raw.view != expected_view(mode) ==> r matches Err(SdkError::ContractDrift { .. }),
    {
        ensure_latest_view_matches_mode(raw.view, mode, "latest outputs")?;
        Ok(LatestOutputsResponse {
            watermark_end_ms: raw.watermark_end_ms,
            close_end_ms: raw.close_end_ms,
            latest_mode: raw.latest_mode,
            view: raw.view,
            rows: gate_present_rows(raw.rows, diagnostics_enabled),
            missing_pairs: raw.missing_pairs,
        })
    }

    /// The snapshot a protobuf message stands for.
    pub fn from_proto(response: OutputsLatestResponseWire, mode: PrimitiveOutputMode, diagnostics_enabled: bool) -> (r:
        Result<Self, SdkError>)
        ensures
            mode_is_projected(mode) ==> r matches Err(SdkError::UnsupportedOrUnprovedUsage { .. }),
            !mode_is_projected(mode) ==> ((output_view_from_proto(response.view) == Some(
                expected_view(mode),
            ) && latest_mode_from_name(response.latest_mode@) is Some && all_present_rows_read(
                response.rows@,
                mode,
                diagnostics_enabled,
            )) <==> r is Ok),
            r matches Ok(p) ==> p.view == expected_view(mode) && p.latest_mode == latest_mode_from_name(
                response.latest_mode@,
            ).unwrap() && p.rows@ == present_rows_from_wire(response.rows@, mode, diagnostics_enabled)
                && p.watermark_end_ms == response.watermark_end_ms && p.close_end_ms
                == response.close_end_ms && p.missing_pairs == response.missing_pairs,
            !mode_is_projected(mode) && r is Err ==> r matches Err(SdkError::ContractDrift { .. }),
    {
        ensure_proto_output_mode_supported(mode, "latest outputs protobuf/gRPC")?;
        let view = OutputView::from_proto(response.view)?;
        ensure_latest_view_matches_mode(view, mode, "latest outputs")?;
        let latest_mode = latest_mode_from_proto(response.latest_mode.as_str())?;
        let rows = present_rows_from_proto(response.rows, mode, diagnostics_enabled)?;
        Ok(LatestOutputsResponse {
            watermark_end_ms: response.watermark_end_ms,
            close_end_ms: response.close_end_ms,
            latest_mode,
            view,
            rows,
            missing_pairs: response.missing_pairs,
        })
    }
}

/// The present rows of an outputs WebSocket protobuf payload.
#[derive(Debug, Clone, PartialEq)]
pub struct OutputsRowsPayloadWire {
    pub view: ProtoOutputView,
    pub rows: Vec<OutputsPresentRowWire>,
}

/// The present rows of an outputs WebSocket protobuf payload, checked
/// against the request's mode.
pub fn decode_latest_outputs_ws_proto(
    payload: OutputsRowsPayloadWire,
    mode: PrimitiveOutputMode,
    diagnostics_enabled: bool,
) -> (r: Result<Vec<LatestOutputsPresentRow>, SdkError>)
    ensures
        mode_is_projected(mode) ==> r matches Err(SdkError::UnsupportedOrUnprovedUsage { .. }),
        !mode_is_projected(mode) ==> ((output_view_from_proto(payload.view) == Some(expected_view(mode))
            && all_present_rows_read(payload.rows@, mode, diagnostics_enabled)) <==> r is Ok),
        r matches Ok(v) ==> v@ == present_rows_from_wire(payload.rows@, mode, diagnostics_enabled),
        !mode_is_projected(mode) && r is Err ==> r matches Err(SdkError::ContractDrift { .. }),
{
    ensure_proto_output_mode_supported(mode, "outputs ws protobuf rows")?;
    let view = OutputView::from_proto(payload.view)?;
    let expected = expected_output_view(mode);
    if view != expected {
        return Err(
            SdkError::contract_drift(
                String::from_str("outputs ws protobuf payload view `").concat(view.as_str()).concat(
                    "` did not match request mode `",
                ).concat(expected.as_str()).concat("`"),
            ),
        );
    }
    present_rows_from_proto(payload.rows, mode, diagnostics_enabled)
}


/// One page of a primitives `range` read.
#[derive(Debug, Clone, PartialEq)]
pub struct RangeOutputsResponse {
    pub rows: Vec<PrimitiveOutput>,
    pub close_end_ms: i64,
    pub next_cursor: Option<String>,
}

/// A `range` page as the protobuf message carries it.
#[derive(Debug, Clone, PartialEq)]
pub struct OutputsRangeResponseWire {
    pub rows: Vec<OutputRowWire>,
    pub close_end_ms: i64,
    pub next_cursor: Option<String>,
}

/// Every page a primitives `range` traversal fetched.
#[derive(Debug, Clone, PartialEq)]
pub struct RangeOutputsTraverseResult {
    pub pages: Vec<RangeOutputsResponse>,
    pub pages_fetched: usize,
}

impl RangeOutputsResponse {
    /// The cursor of the next page, if any.
    pub fn next_cursor(&self) -> (r: Option<&str>)
        ensures
            match r {
                Some(c) => self.next_cursor matches Some(s) && c@ == s@,
                None => self.next_cursor is None,
            },
    {
        match &self.next_cursor {
            Some(s) => Some(s.as_str()),
            None => None,
        }
    }

    /// The end of the window this page belongs to.
    pub fn close_end_ms(&self) -> (r: i64)
        ensures
            r == self.close_end_ms,
    {
        self.close_end_ms
    }

    /// Whether this is the last page.
    pub fn done(&self) -> (r: bool)
        ensures
            r == self.next_cursor is None,
    {
        self.next_cursor.is_none()
    }

    /// A page decoded from JSON, with diagnostics dropped unless asked for.
    pub fn from_http(raw: Self, diagnostics_enabled: bool) -> (r: Self)
        ensures
            r.rows@ == all_gated(raw.rows@, diagnostics_enabled),
            r.close_end_ms == raw.close_end_ms,
            r.next_cursor == raw.next_cursor,
    {
        RangeOutputsResponse {
            rows: gate_outputs(raw.rows, diagnostics_enabled),
            close_end_ms: raw.close_end_ms,
            next_cursor: raw.next_cursor,
        }
    }

    /// The page a protobuf message stands for.
    pub fn from_proto(response: OutputsRangeResponseWire, mode: PrimitiveOutputMode, diagnostics_enabled: bool) -> (r:
        Result<Self, SdkError>)
        ensures
            mode_is_projected(mode) ==> r matches Err(SdkError::UnsupportedOrUnprovedUsage { .. }),
            !mode_is_projected(mode) ==> (all_outputs_read(response.rows@, mode, diagnostics_enabled)
                <==> r is Ok),
            r matches Ok(p) ==> p.rows@ == outputs_from_wire(response.rows@, mode, diagnostics_enabled)
                && p.close_end_ms == response.close_end_ms && p.next_cursor == response.next_cursor,
            !mode_is_projected(mode) && r is Err ==> r matches Err(SdkError::ContractDrift { .. }),
    {
        ensure_proto_output_mode_supported(mode, "range outputs protobuf/gRPC")?;
        let rows = outputs_from_proto(response.rows, mode, diagnostics_enabled)?;
        Ok(RangeOutputsResponse {
            rows,
            close_end_ms: response.close_end_ms,
            next_cursor: response.next_cursor,
        })
    }
}

/// One page of a primitives `search`.
#[derive(Debug, Clone, PartialEq)]
pub struct SearchOutputsResponse {
    pub hits: Vec<i64>,
    pub evaluated_rows: Option<Vec<PrimitiveOutput>>,
    pub next_cursor: Option<String>,
    pub done: bool,
    pub returned_hits: i64,
    pub effective_hits_limit: i64,
    pub truncated: bool,
    pub predicate_pairs: Vec<String>,
    pub predicate_normalized: String,
}

/// A `search` page as the protobuf message carries it.
#[derive(Debug, Clone, PartialEq)]
pub struct OutputsSearchResponseWire {
    pub hits: Vec<i64>,
    pub evaluated_rows: Vec<OutputRowWire>,
    pub next_cursor: Option<String>,
    pub done: bool,
    pub returned_hits: i64,
    pub effective_hits_limit: i64,
    pub truncated: bool,
    pub predicate_pairs: Vec<String>,
    pub predicate_normalized: String,
}

/// Every page a primitives `search` traversal fetched.
#[derive(Debug, Clone, PartialEq)]
pub struct SearchOutputsTraverseResult {
    pub pages: Vec<SearchOutputsResponse>,
    pub pages_fetched: usize,
}

/// Optional rows with their diagnostics dropped unless asked for.
pub open spec fn opt_all_gated(o: Option<Vec<PrimitiveOutput>>, d: bool) -> Option<Seq<PrimitiveOutput>> {
    match o {
        Some(v) => Some(all_gated(v@, d)),
        None => None,
    }
}

/// The view of optional rows.
pub open spec fn opt_outputs_view(o: Option<Vec<PrimitiveOutput>>) -> Option<Seq<PrimitiveOutput>> {
    match o {
        Some(v) => Some(v@),
        None => None,
    }
}

impl SearchOutputsResponse {
    /// The cursor of the next page, if any.
    pub fn next_cursor(&self) -> (r: Option<&str>)
        ensures
            match r {
                Some(c) => self.next_cursor matches Some(s) && c@ == s@,
                None => self.next_cursor is None,
            },
    {
        match &self.next_cursor {
            Some(s) => Some(s.as_str()),
            None => None,
        }
    }

    /// Whether the search is finished.
    pub fn done(&self) -> (r: bool)
        ensures
            r == self.done,
    {
        self.done
    }

    /// A page decoded from JSON, with diagnostics dropped unless asked for.
    pub fn from_http(raw: Self, diagnostics_enabled: bool) -> (r: Self)
        ensures
            opt_outputs_view(r.evaluated_rows) == opt_all_gated(raw.evaluated_rows, diagnostics_enabled),
            r.hits == raw.hits,
            r.next_cursor == raw.next_cursor,
            r.done == raw.done,
            r.returned_hits == raw.returned_hits,
            r.effective_hits_limit == raw.effective_hits_limit,
            r.truncated == raw.truncated,
            r.predicate_pairs == raw.predicate_pairs,
            r.predicate_normalized == raw.predicate_normalized,
    {
        let evaluated_rows = match raw.evaluated_rows {
            Some(rows) => Some(gate_outputs(rows, diagnostics_enabled)),
            None => None,
        };
        SearchOutputsResponse {
            hits: raw.hits,
            evaluated_rows,
            next_cursor: raw.next_cursor,
            done: raw.done,
            returned_hits: raw.returned_hits,
            effective_hits_limit: raw.effective_hits_limit,
            truncated: raw.truncated,
            predicate_pairs: raw.predicate_pairs,
            predicate_normalized: raw.predicate_normalized,
        }
    }

    /// The page a protobuf message stands for. Evaluated rows are read only
    /// when the request named an evaluated pair; rows sent without one are
    /// contract drift.
    pub fn from_proto(
        response: OutputsSearchResponseWire,
        mode: PrimitiveOutputMode,
        diagnostics_enabled: bool,
        evaluated_rows_enabled: bool,
    ) -> (r: Result<Self, SdkError>)
        ensures
            mode_is_projected(mode) ==> r matches Err(SdkError::UnsupportedOrUnprovedUsage { .. }),
            !mode_is_projected(mode) ==> ((if evaluated_rows_enabled {
                all_outputs_read(response.evaluated_rows@, mode, diagnostics_enabled)
            } else {
                response.evaluated_rows@.len() == 0
            }) <==> r is Ok),
            r matches Ok(p) ==> (if evaluated_rows_enabled {
                opt_outputs_view(p.evaluated_rows) == Some(
                    outputs_from_wire(response.evaluated_rows@, mode, diagnostics_enabled),
                )
            } else {
                p.evaluated_rows is None
            }) && p.hits == response.hits && p.next_cursor == response.next_cursor && p.done
                == response.done && p.returned_hits == response.returned_hits
                && p.effective_hits_limit == response.effective_hits_limit && p.truncated
                == response.truncated && p.predicate_pairs == response.predicate_pairs
                && p.predicate_normalized == response.predicate_normalized,
            !mode_is_projected(mode) && r is Err ==> r matches Err(SdkError::ContractDrift { .. }),
    {
        ensure_proto_output_mode_supported(mode, "search outputs protobuf/gRPC")?;
        let evaluated_rows = if evaluated_rows_enabled {
            Some(outputs_from_proto(response.evaluated_rows, mode, diagnostics_enabled)?)
        } else if response.evaluated_rows.len() == 0 {
            None
        } else {
            return Err(
                SdkError::contract_drift(
                    String::from_str(
                        "search outputs protobuf response returned `evaluated_rows` without `evaluate_pair` in the request",
                    ),
                ),
            );
        };
        Ok(SearchOutputsResponse {
            hits: response.hits,
            evaluated_rows,
            next_cursor: response.next_cursor,
            done: response.done,
            returned_hits: response.returned_hits,
            effective_hits_limit: response.effective_hits_limit,
            truncated: response.truncated,
            predicate_pairs: response.predicate_pairs,
            predicate_normalized: response.predicate_normalized,
        })
    }
}

/// An output around a hit of a primitives `time_machine` read.
#[derive(Debug, Clone, PartialEq)]
pub struct TimeMachineOutputsRow {
    pub hit_close_ms: i64,
    pub offset: i64,
    pub output: PrimitiveOutput,
}

/// A `time_machine` row as the protobuf message carries it.
#[derive(Debug, Clone, PartialEq)]
pub struct OutputsTimeMachineRowWire {
    pub hit_close_ms: i64,
    pub offset: i64,
    pub output: Option<OutputRowWire>,
}

/// The row a protobuf `time_machine` row stands for.
pub open spec fn tm_output_row_from_wire(w: OutputsTimeMachineRowWire, mode: PrimitiveOutputMode, d: bool) -> Option<
    TimeMachineOutputsRow,
> {
    match w.output {
        Some(o) => match output_from_wire(o, mode, d) {
            Some(output) => Some(TimeMachineOutputsRow { hit_close_ms: w.hit_close_ms, offset: w.offset, output }),
            None => None,
        },
        None => None,
    }
}

impl TimeMachineOutputsRow {
    /// The row of a protobuf `time_machine` row.
    pub(crate) fn from_proto(value: OutputsTimeMachineRowWire, mode: PrimitiveOutputMode, diagnostics_enabled: bool) -> (r:
        Result<Self, SdkError>)
        requires
            !mode_is_projected(mode),
        ensures
            tm_output_row_from_wire(value, mode, diagnostics_enabled) matches Some(t) ==> r == Ok::<
                Self,
                SdkError,
            >(t),
            tm_output_row_from_wire(value, mode, diagnostics_enabled) is None ==> r matches Err(
                SdkError::ContractDrift { .. },
            ),
            r matches Ok(t) ==> t.hit_close_ms == value.hit_close_ms && t.offset == value.offset,
    {
        let wire = match value.output {
            Some(o) => o,
            None => {
                return Err(
                    SdkError::contract_drift(
                        String::from_str("time machine outputs protobuf row missing `output`"),
                    ),
                );
            },
        };
        let output = PrimitiveOutput::from_proto_row(wire, mode, diagnostics_enabled)?;
        Ok(TimeMachineOutputsRow { hit_close_ms: value.hit_close_ms, offset: value.offset, output })
    }
}

/// Whether every protobuf `time_machine` row reads.
pub open spec fn all_tm_output_rows_read(rows: Seq<OutputsTimeMachineRowWire>, mode: PrimitiveOutputMode, d: bool) -> bool {
    forall|i: int| 0 <= i < rows.len() ==> (#[trigger] tm_output_row_from_wire(rows[i], mode, d)) is Some
}

/// The rows the protobuf `time_machine` rows stand for, in order.
pub open spec fn tm_output_rows_from_wire(rows: Seq<OutputsTimeMachineRowWire>, mode: PrimitiveOutputMode, d: bool) -> Seq<
    TimeMachineOutputsRow,
> {
    Seq::new(rows.len(), |i: int| tm_output_row_from_wire(rows[i], mode, d).unwrap())
}

/// The rows of protobuf `time_machine` rows, in order.
pub(crate) fn tm_output_rows_from_proto(
    rows: Vec<OutputsTimeMachineRowWire>,
    mode: PrimitiveOutputMode,
    diagnostics_enabled: bool,
) -> (r: Result<Vec<TimeMachineOutputsRow>, SdkError>)
    requires
        !mode_is_projected(mode),
    ensures
        all_tm_output_rows_read(rows@, mode, diagnostics_enabled) ==> (r matches Ok(v) && v@
            == tm_output_rows_from_wire(rows@, mode, diagnostics_enabled)),
        !all_tm_output_rows_read(rows@, mode, diagnostics_enabled) ==> r matches Err(
            SdkError::ContractDrift { .. },
        ),
{
    let ghost orig = rows@;
    let mut rest = rows;
    let mut out: Vec<TimeMachineOutputsRow> = Vec::new();
    let n = rest.len();
    let mut k: usize = 0;
    while k < n
        invariant
            !mode_is_projected(mode),
            orig == rows@,
            n == orig.len(),
            k <= n,
            rest@ == orig.subrange(k as int, n as int),
            out@.len() == k,
            forall|i: int|
                0 <= i < k ==> (#[trigger] tm_output_row_from_wire(orig[i], mode, diagnostics_enabled)) is Some,
            forall|i: int|
                0 <= i < k ==> out@[i] == tm_output_row_from_wire(orig[i], mode, diagnostics_enabled).unwrap(),
        decreases n - k,
    {
        let row = rest.remove(0);
        assert(row == orig[k as int]);
        let item = match TimeMachineOutputsRow::from_proto(row, mode, diagnostics_enabled) {
            Ok(o) => o,
            Err(e) => {
                assert(tm_output_row_from_wire(orig[k as int], mode, diagnostics_enabled) is None);
                assert(!all_tm_output_rows_read(orig, mode, diagnostics_enabled));
                return Err(e);
            },
        };
        out.push(item);
        k = k + 1;
        assert(rest@ =~= orig.subrange(k as int, n as int));
    }
    assert(out@ =~= tm_output_rows_from_wire(orig, mode, diagnostics_enabled));
    Ok(out)
}

/// One page of a primitives `time_machine` read.
#[derive(Debug, Clone, PartialEq)]
pub struct TimeMachineOutputsResponse {
    pub rows: Vec<TimeMachineOutputsRow>,
    pub next_cursor: Option<String>,
    pub done: bool,
    pub returned_hits: i64,
    pub effective_hits_limit: i64,
    pub truncated: bool,
    pub predicate_pairs: Vec<String>,
    pub predicate_normalized: Option<String>,
}

/// A `time_machine` page as the protobuf message carries it.
#[derive(Debug, Clone, PartialEq)]
pub struct OutputsTimeMachineResponseWire {
    pub rows: Vec<OutputsTimeMachineRowWire>,
    pub next_cursor: Option<String>,
    pub done: bool,
    pub returned_hits: i64,
    pub effective_hits_limit: i64,
    pub truncated: bool,
    pub predicate_pairs: Vec<String>,
    pub predicate_normalized: Option<String>,
}

/// Every page a primitives `time_machine` traversal fetched.
#[derive(Debug, Clone, PartialEq)]
pub struct TimeMachineOutputsTraverseResult {
    pub pages: Vec<TimeMachineOutputsResponse>,
    pub pages_fetched: usize,
}

/// Every `time_machine` row with its diagnostics dropped unless asked for.
pub open spec fn tm_rows_gated(rows: Seq<TimeMachineOutputsRow>, d: bool) -> Seq<TimeMachineOutputsRow> {
    Seq::new(rows.len(), |i: int| TimeMachineOutputsRow { output: gated(rows[i].output, d), ..rows[i] })
}

impl TimeMachineOutputsResponse {
    /// The cursor of the next page, if any.
    pub fn next_cursor(&self) -> (r: Option<&str>)
        ensures
            match r {
                Some(c) => self.next_cursor matches Some(s) && c@ == s@,
                None => self.next_cursor is None,
            },
    {
        match &self.next_cursor {
            Some(s) => Some(s.as_str()),
            None => None,
        }
    }

    /// Whether the read is finished.
    pub fn done(&self) -> (r: bool)
        ensures
            r == self.done,
    {
        self.done
    }

    /// A page decoded from JSON, with diagnostics dropped unless asked for.
    pub fn from_http(raw: Self, diagnostics_enabled: bool) -> (r: Self)
        ensures
            r.rows@ == tm_rows_gated(raw.rows@, diagnostics_enabled),
            r.next_cursor == raw.next_cursor,
            r.done == raw.done,
            r.returned_hits == raw.returned_hits,
            r.effective_hits_limit == raw.effective_hits_limit,
            r.truncated == raw.truncated,
            r.predicate_pairs == raw.predicate_pairs,
            r.predicate_normalized == raw.predicate_normalized,
    {
        let ghost orig = raw.rows@;
        let mut rest = raw.rows;
        let mut rows: Vec<TimeMachineOutputsRow> = Vec::new();
        let n = rest.len();
        let mut k: usize = 0;
        while k < n
            invariant
                orig == raw.rows@,
                n == orig.len(),
                k <= n,
                rest@ == orig.subrange(k as int, n as int),
                rows@.len() == k,
                forall|i: int| 0 <= i < k ==> rows@[i] == (TimeMachineOutputsRow { output: gated(orig[i].output, diagnostics_enabled), ..orig[i] }),
            decreases n - k,
        {
            let row = rest.remove(0);
            assert(row == orig[k as int]);
            rows.push(
                TimeMachineOutputsRow {
                    hit_close_ms: row.hit_close_ms,
                    offset: row.offset,
                    output: row.output.apply_diagnostics_gate(diagnostics_enabled),
                },
            );
            k = k + 1;
            assert(rest@ =~= orig.subrange(k as int, n as int));
        }
        assert(rows@ =~= tm_rows_gated(orig, diagnostics_enabled));
        TimeMachineOutputsResponse {
            rows,
            next_cursor: raw.next_cursor,
            done: raw.done,
            returned_hits: raw.returned_hits,
            effective_hits_limit: raw.effective_hits_limit,
            truncated: raw.truncated,
            predicate_pairs: raw.predicate_pairs,
            predicate_normalized: raw.predicate_normalized,
        }
    }

    /// The page a protobuf message stands for.
    pub fn from_proto(
        response: OutputsTimeMachineResponseWire,
        mode: PrimitiveOutputMode,
        diagnostics_enabled: bool,
    ) -> (r: Result<Self, SdkError>)
        ensures
            mode_is_projected(mode) ==> r matches Err(SdkError::UnsupportedOrUnprovedUsage { .. }),
            !mode_is_projected(mode) ==> (all_tm_output_rows_read(response.rows@, mode, diagnostics_enabled)
                <==> r is Ok),
            r matches Ok(p) ==> p.rows@ == tm_output_rows_from_wire(response.rows@, mode, diagnostics_enabled)
                && p.next_cursor == response.next_cursor && p.done == response.done && p.returned_hits
                == response.returned_hits && p.effective_hits_limit == response.effective_hits_limit
                && p.truncated == response.truncated && p.predicate_pairs == response.predicate_pairs
                && p.predicate_normalized == response.predicate_normalized,
            !mode_is_projected(mode) && r is Err ==> r matches Err(SdkError::ContractDrift { .. }),
    {
        ensure_proto_output_mode_supported(mode, "time-machine outputs protobuf/gRPC")?;
        let rows = tm_output_rows_from_proto(response.rows, mode, diagnostics_enabled)?;
        Ok(TimeMachineOutputsResponse {
            rows,
            next_cursor: response.next_cursor,
            done: response.done,
            returned_hits: response.returned_hits,
            effective_hits_limit: response.effective_hits_limit,
            truncated: response.truncated,
            predicate_pairs: response.predicate_pairs,
            predicate_normalized: response.predicate_normalized,
        })
    }
}


/// Which registry entries to list.
#[derive(Debug, Clone, PartialEq, Eq, Default)]
pub struct DocsRegistryRequest {
    pub family: Option<Vec<ProcessorFamily>>,
    pub group: Option<Vec<ProcessorGroup>>,
}

/// Paging and filters of the pair status listing.
#[derive(Debug, Clone, PartialEq, Default)]
pub struct PairsStatusRequest {
    pub after_pair: Option<String>,
    pub limit: Option<i64>,
    pub pairs: Option<Vec<String>>,
    pub filters: Option<Vec<String>>,
}

/// Paging of the pair catalogue.
#[derive(Debug, Clone, PartialEq, Eq, Default)]
pub struct PairsListRequest {
    pub after_pair: Option<String>,
    pub limit: Option<i64>,
    pub enabled_only: Option<bool>,
}

/// Bootstrap progress of a pair.
#[derive(Debug, Clone, PartialEq, Eq)]
pub struct PairStatusBootstrap {
    pub done: bool,
}

/// Run state of a pair.
#[derive(Debug, Clone, PartialEq, Eq)]
pub struct PairStatusStatusBlock {
    pub enabled: bool,
    pub run_state: String,
    pub last_error: Option<String>,
    pub initial_date_utc: String,
    pub bootstrap: PairStatusBootstrap,
}

/// History seeding state of a pair.
#[derive(Debug, Clone, PartialEq, Eq)]
pub struct PairStatusHistoryBlock {
    pub seed_enabled: Option<bool>,
    pub seed_done: Option<bool>,
    pub seed_state: Option<String>,
    pub seed_last_error: Option<String>,
}

/// Readiness of one timeframe.
#[derive(Debug, Clone, PartialEq, Eq)]
pub struct PairStatusReadinessCell {
    pub ready: bool,
    pub ready_at_utc: Option<String>,
}

/// Readiness of a pair, one cell per timeframe.
#[derive(Debug, Clone, PartialEq, Eq)]
pub struct PairStatusReadinessBlock {
    pub m1: PairStatusReadinessCell,
    pub m5: PairStatusReadinessCell,
    pub m15: PairStatusReadinessCell,
    pub m30: PairStatusReadinessCell,
    pub h1: PairStatusReadinessCell,
    pub h4: PairStatusReadinessCell,
    pub h6: PairStatusReadinessCell,
    pub h12: PairStatusReadinessCell,
    pub d1: PairStatusReadinessCell,
}

/// The status of one pair; the blocks the listing was filtered to, and the
/// coverage document as the service sent it.
#[derive(Debug, Clone, PartialEq, Eq)]
pub struct PairStatusRow {
    pub pair: String,
    pub status: Option<PairStatusStatusBlock>,
    pub history: Option<PairStatusHistoryBlock>,
    pub readiness: Option<PairStatusReadinessBlock>,
    pub coverage: Option<String>,
}

/// One page of the pair status listing.
#[derive(Debug, Clone, PartialEq, Eq)]
pub struct PairsStatusResponse {
    pub pairs: Vec<PairStatusRow>,
}

/// One page of the pair catalogue.
#[derive(Debug, Clone, PartialEq, Eq)]
pub struct PairsListResponse {
    pub pairs: Vec<String>,
    pub next_after_pair: Option<String>,
}

/// Which export files to list.
#[derive(Debug, Clone, PartialEq, Eq)]
pub struct FilesDownloadsRequest {
    pub period: Option<String>,
    pub pairs: Vec<String>,
    pub tfs: Vec<String>,
    pub start_label_utc: Option<String>,
    pub end_label_utc: Option<String>,
    pub order: Option<String>,
}

/// One downloadable export file.
#[derive(Debug, Clone, PartialEq, Eq)]
pub struct FilesDownloadsRow {
    pub period: String,
    pub pair: String,
    pub tf: String,
    pub label_utc: String,
    pub url: String,
    pub expires_at_utc: String,
}

/// The export files that matched.
#[derive(Debug, Clone, PartialEq, Eq)]
pub struct FilesDownloadsResponse {
    pub rows: Vec<FilesDownloadsRow>,
}

/// An export file written to local storage.
#[derive(Debug, Clone, PartialEq, Eq)]
pub struct DownloadedFile {
    pub row: FilesDownloadsRow,
    pub destination_path: String,
    pub bytes_written: u64,
}


/// The mode a request implies carries metadata exactly when metadata was
/// asked for, and is projected exactly when a selector is given; selecting
/// the metadata family without metadata implies no mode.
pub proof fn law_output_mode_agrees(
    family: Option<Seq<Seq<char>>>,
    group: Option<Seq<Seq<char>>>,
    metadata: Option<bool>,
)
    ensures
        output_mode_spec(family, group, metadata) matches Some(m) ==> (mode_has_metadata(m) == (metadata
            == Some(true)) && mode_is_projected(m) == (selectors_present(family) || selectors_present(group))),
        selects_metadata(family) && metadata != Some(true) ==> output_mode_spec(family, group, metadata) is None,
        !(selects_metadata(family) && metadata != Some(true)) ==> output_mode_spec(family, group, metadata) is Some,
{
}

/// A response declares the full view exactly when its rows carry metadata.
pub proof fn law_view_follows_metadata(m: PrimitiveOutputMode)
    ensures
        (expected_view(m) == OutputView::Full) == mode_has_metadata(m),
{
}

/// The diagnostics gate keeps a row's mode and metadata; it drops the
/// diagnostics unless they were asked for, and applying it twice is
/// applying it once.
pub proof fn law_gate(o: PrimitiveOutput, enabled: bool)
    ensures
        output_mode_of(gated(o, enabled)) == output_mode_of(o),
        enabled ==> gated(o, enabled) == o,
        !enabled ==> output_diagnostics(gated(o, enabled)) is None,
        gated(gated(o, enabled), enabled) == gated(o, enabled),
{
}


/// The mode a primitives request implies: refused exactly when the
/// metadata family is selected without metadata; otherwise rows are
/// projected exactly when a family or group selector is given, and carry
/// metadata exactly when it is asked for.
pub proof fn law_output_mode(family: Option<Seq<Seq<char>>>, group: Option<Seq<Seq<char>>>, metadata: Option<bool>)
    ensures
        output_mode_spec(family, group, metadata) is None <==> ((family matches Some(f) && f.contains("metadata"@))
            && metadata != Some(true)),
        output_mode_spec(family, group, metadata) matches Some(m) ==> {
            &&& ((m == PrimitiveOutputMode::ProjectedMin || m == PrimitiveOutputMode::ProjectedWithMeta) <==> (
            (family matches Some(f) && f.len() > 0) || (group matches Some(g) && g.len() > 0)))
            &&& ((m == PrimitiveOutputMode::WithMeta || m == PrimitiveOutputMode::ProjectedWithMeta) <==> metadata
                == Some(true))
        },
{
}

/// The row inside an output.
pub open spec fn output_row(o: PrimitiveOutput) -> OutputRow {
    match o {
        PrimitiveOutput::Min(x) => x.row,
        PrimitiveOutput::WithMeta(x) => x.row,
        PrimitiveOutput::ProjectedMin(x) => x.row,
        PrimitiveOutput::ProjectedWithMeta(x) => x.row,
    }
}

/// An output read from a protobuf row keeps the row's pair, UTC stamps and
/// computed fields, is of the request's mode, and carries the row's
/// metadata when the mode has it; diagnostics are kept exactly when asked
/// for. It reads exactly when both stamps are present, the mode is not
/// projected, and a mode with metadata finds it.
pub proof fn law_output_keeps_wire_fields(w: OutputRowWire, mode: PrimitiveOutputMode, d: bool)
    ensures
        output_from_wire(w, mode, d) is Some <==> (w.open_utc is Some && w.close_utc is Some && (mode
            == PrimitiveOutputMode::Min || (mode == PrimitiveOutputMode::WithMeta && w.metadata is Some))),
        output_from_wire(w, mode, d) matches Some(o) ==> {
            &&& output_row(o).pair == w.pair
            &&& w.open_utc == Some(output_row(o).open_utc)
            &&& w.close_utc == Some(output_row(o).close_utc)
            &&& output_row(o).computed == w.computed
            &&& (mode == PrimitiveOutputMode::Min ==> o is Min)
            &&& (mode == PrimitiveOutputMode::WithMeta ==> (o matches PrimitiveOutput::WithMeta(x) && w.metadata
                == Some(x.metadata)))
            &&& (d ==> output_diagnostics(o) == w.diagnostics)
            &&& (!d ==> output_diagnostics(o) is None)
        },
{
}

/// A `time_machine` row read from protobuf keeps the wire row's hit time
/// and offset, and its output is the one the wire row's output reads as.
pub proof fn law_time_machine_output_row_keeps_hit_and_offset(
    w: OutputsTimeMachineRowWire,
    mode: PrimitiveOutputMode,
    d: bool,
)
    ensures
        tm_output_row_from_wire(w, mode, d) is Some <==> (w.output matches Some(o) && output_from_wire(o, mode, d) is Some),
        tm_output_row_from_wire(w, mode, d) matches Some(t) ==> (w.output matches Some(o) && t.hit_close_ms
            == w.hit_close_ms && t.offset == w.offset && output_from_wire(o, mode, d) == Some(t.output)),
{
}


/// The wire body built from a `LatestOutputsRequest` keeps each of its values under the
/// same name, normalized as the wire wants it.
pub proof fn law_latest_outputs_request_wire_body_keeps_fields(req: LatestOutputsRequest, n: NormalizedLatestOutputsRequest)
    requires
        req.http_body_spec(n),
    ensures
        n.pairs.deep_view() == trimmed_nonblank(req.pairs.deep_view()),
        n.tf == req.tf,
        n.latest_mode == req.latest_mode,
        opt_family_names(n.family) == normalized_selectors(opt_family_names(req.family)),
        opt_group_names(n.group) == normalized_selectors(opt_group_names(req.group)),
        n.metadata == req.metadata,
        n.diagnostics == req.diagnostics,
        n.format == req.format,
{
}

/// The gRPC body built from a `LatestOutputsGrpcRequest` keeps each of its values under the
/// same name, normalized as the wire wants it.
pub proof fn law_latest_outputs_grpc_request_grpc_body_keeps_fields(req: LatestOutputsGrpcRequest, n: NormalizedLatestOutputsGrpcRequest)
    requires
        req.proto_body_spec(n),
    ensures
        n.pairs.deep_view() == trimmed_nonblank(req.pairs.deep_view()),
        n.tf@ == timeframe_name(req.tf),
        n.latest_mode@ == latest_mode_name(match req.latest_mode { Some(m) => m, None => LatestMode::ExactWatermark }),
        n.metadata == (req.metadata == Some(true)),
        n.family.deep_view() == opt_names_or_empty(opt_family_names(req.family)),
        n.group.deep_view() == opt_names_or_empty(opt_group_names(req.group)),
        n.diagnostics == req.diagnostics,
{
}

/// The wire body built from a `RangeOutputsRequest` keeps each of its values under the
/// same name, normalized as the wire wants it.
pub proof fn law_range_outputs_request_wire_body_keeps_fields(req: RangeOutputsRequest, n: NormalizedRangeOutputsRequest)
    requires
        req.http_body_spec(n),
    ensures
        n.pairs.deep_view() == trimmed_nonblank(req.pairs.deep_view()),
        n.tf == req.tf,
        n.align_mode == req.align_mode,
        n.close_start_ms == opt_time_input_ms(req.close_start).unwrap(),
        opt_string_view(n.cursor) == trimmed_nonblank_opt(opt_string_view(req.cursor)),
        n.close_end_ms == opt_time_input_ms(req.close_end).unwrap(),
        n.limit == req.limit,
        opt_family_names(n.family) == normalized_selectors(opt_family_names(req.family)),
        opt_group_names(n.group) == normalized_selectors(opt_group_names(req.group)),
        n.metadata == req.metadata,
        n.diagnostics == req.diagnostics,
        n.format == req.format,
{
}

/// The gRPC body built from a `RangeOutputsGrpcRequest` keeps each of its values under the
/// same name, normalized as the wire wants it.
pub proof fn law_range_outputs_grpc_request_grpc_body_keeps_fields(req: RangeOutputsGrpcRequest, n: NormalizedRangeOutputsGrpcRequest)
    requires
        req.proto_body_spec(n),
    ensures
        n.pairs.deep_view() == trimmed_nonblank(req.pairs.deep_view()),
        n.tf@ == timeframe_name(req.tf),
        n.close_end_ms == or_zero(opt_time_input_ms(req.close_end).unwrap()),
        opt_string_view(n.cursor) == trimmed_nonblank_opt(opt_string_view(req.cursor)),
        n.limit == req.limit,
        n.metadata == (req.metadata == Some(true)),
        n.close_start_ms == or_zero(opt_time_input_ms(req.close_start).unwrap()),
        opt_string_view(n.align_mode) == opt_align_name(req.align_mode),
        n.family.deep_view() == opt_names_or_empty(opt_family_names(req.family)),
        n.group.deep_view() == opt_names_or_empty(opt_group_names(req.group)),
        n.diagnostics == req.diagnostics,
{
}

/// The wire body built from a `SearchOutputsRequest` keeps each of its values under the
/// same name, normalized as the wire wants it.
pub proof fn law_search_outputs_request_wire_body_keeps_fields(req: SearchOutputsRequest, n: NormalizedSearchOutputsRequest)
    requires
        req.http_body_spec(n),
    ensures
        n.tf == req.tf,
        n.close_start_ms == time_input_ms(req.close_start).unwrap(),
        n.close_end_ms == opt_time_input_ms(req.close_end).unwrap(),
        opt_string_view(n.cursor) == trimmed_nonblank_opt(opt_string_view(req.cursor)),
        n.predicate@ == trim(req.predicate@),
        opt_string_view(n.evaluate_pair) == trimmed_nonblank_opt(opt_string_view(req.evaluate_pair)),
        opt_family_names(n.family) == normalized_selectors(opt_family_names(req.family)),
        opt_group_names(n.group) == normalized_selectors(opt_group_names(req.group)),
        n.metadata == req.metadata,
        n.diagnostics == req.diagnostics,
        n.max_hits == req.max_hits,
        n.format == req.format,
{
}

/// The gRPC body built from a `SearchOutputsGrpcRequest` keeps each of its values under the
/// same name, normalized as the wire wants it.
pub proof fn law_search_outputs_grpc_request_grpc_body_keeps_fields(req: SearchOutputsGrpcRequest, n: NormalizedSearchOutputsGrpcRequest)
    requires
        req.proto_body_spec(n),
    ensures
        n.tf@ == timeframe_name(req.tf),
        n.close_start_ms == time_input_ms(req.close_start).unwrap(),
        n.close_end_ms == or_zero(opt_time_input_ms(req.close_end).unwrap()),
        opt_string_view(n.cursor) == trimmed_nonblank_opt(opt_string_view(req.cursor)),
        n.predicate@ == trim(req.predicate@),
        opt_string_view(n.evaluate_pair) == trimmed_nonblank_opt(opt_string_view(req.evaluate_pair)),
        n.metadata == (req.metadata == Some(true)),
        n.max_hits == req.max_hits,
        n.family.deep_view() == opt_names_or_empty(opt_family_names(req.family)),
        n.group.deep_view() == opt_names_or_empty(opt_group_names(req.group)),
        n.diagnostics == req.diagnostics,
{
}

/// The wire body built from a `TimeMachineOutputsRequest` keeps each of its values under the
/// same name, normalized as the wire wants it.
pub proof fn law_time_machine_outputs_request_wire_body_keeps_fields(req: TimeMachineOutputsRequest, n: NormalizedTimeMachineOutputsRequest)
    requires
        req.http_body_spec(n),
    ensures
        n.tf == req.tf,
        n.close_start_ms == time_input_ms(req.close_start).unwrap(),
        n.close_end_ms == opt_time_input_ms(req.close_end).unwrap(),
        opt_string_view(n.cursor) == trimmed_nonblank_opt(opt_string_view(req.cursor)),
        opt_string_view(n.predicate) == trimmed_opt(opt_string_view(req.predicate)),
        same_opt_seq(n.hits, req.hits),
        opt_deep(n.output_pairs) == normalized_opt_pairs(req.output_pairs),
        opt_family_names(n.family) == normalized_selectors(opt_family_names(req.family)),
        opt_group_names(n.group) == normalized_selectors(opt_group_names(req.group)),
        n.metadata == req.metadata,
        n.diagnostics == req.diagnostics,
        n.before_bars == req.before_bars,
        n.after_bars == req.after_bars,
        n.max_hits == req.max_hits,
        opt_string_view(n.overlap_mode) == trimmed_nonblank_opt(opt_string_view(req.overlap_mode)),
        n.format == req.format,
{
}

/// The gRPC body built from a `TimeMachineOutputsGrpcRequest` keeps each of its values under the
/// same name, normalized as the wire wants it.
pub proof fn law_time_machine_outputs_grpc_request_grpc_body_keeps_fields(req: TimeMachineOutputsGrpcRequest, n: NormalizedTimeMachineOutputsGrpcRequest)
    requires
        req.proto_body_spec(n),
    ensures
        n.tf@ == timeframe_name(req.tf),
        n.close_start_ms == time_input_ms(req.close_start).unwrap(),
        n.close_end_ms == or_zero(opt_time_input_ms(req.close_end).unwrap()),
        opt_string_view(n.cursor) == trimmed_nonblank_opt(opt_string_view(req.cursor)),
        opt_string_view(n.predicate) == trimmed_opt(opt_string_view(req.predicate)),
        n.hits@ == opt_i64s_or_empty(req.hits),
        n.output_pairs.deep_view() == opt_names_or_empty(normalized_opt_pairs(req.output_pairs)),
        n.metadata == (req.metadata == Some(true)),
        n.before_bars == req.before_bars,
        n.after_bars == req.after_bars,
        n.max_hits == req.max_hits,
        opt_string_view(n.overlap_mode) == trimmed_nonblank_opt(opt_string_view(req.overlap_mode)),
        n.family.deep_view() == opt_names_or_empty(opt_family_names(req.family)),
        n.group.deep_view() == opt_names_or_empty(opt_group_names(req.group)),
        n.diagnostics == req.diagnostics,
{
}


/// A reply must declare the full view exactly when the mode carries
/// metadata, and the minimal view otherwise.
pub proof fn law_expected_view(m: PrimitiveOutputMode)
    ensures
        expected_view(m) == OutputView::Full <==> (m == PrimitiveOutputMode::WithMeta || m
            == PrimitiveOutputMode::ProjectedWithMeta),
        expected_view(m) == OutputView::Min <==> (m == PrimitiveOutputMode::Min || m
            == PrimitiveOutputMode::ProjectedMin),
{
}


/// A `latest` present row read from protobuf keeps the wire row's age, and
/// its output is the one the wire row's output reads as.
pub proof fn law_present_row_keeps_age(w: OutputsPresentRowWire, mode: PrimitiveOutputMode, d: bool)
    ensures
        present_row_from_wire(w, mode, d) is Some <==> (w.output matches Some(o) && output_from_wire(o, mode, d) is Some
            && w.age_ms is Some),
        present_row_from_wire(w, mode, d) matches Some(p) ==> (w.output matches Some(o) && w.age_ms == Some(p.age_ms)
            && output_from_wire(o, mode, d) == Some(p.output)),
{
}

} // verus!
