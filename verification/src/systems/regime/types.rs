//! Regime outputs: the same request and row shapes as primitives, with a
//! `secondary` switch, and `tf=1h` the only timeframe served.
use vstd::prelude::*;
use crate::sdk_core::error::SdkError;
use crate::sdk_core::text::{
    trimmed_nonblank, trim, clone_opt_string, clone_opt_strings, clone_strings,
    normalize_optional_string, trimmed_nonblank_opt, opt_string_view,
};
use crate::sdk_core::time::{TimeInput, opt_time_input_ms, time_input_ms, opt_to_utc_ms};
use crate::systems::types::{
    AlignMode, HttpFormat, LatestMode, Timeframe, timeframe_name, latest_mode_name,
};
use crate::systems::aggregator::types::{
    clone_time_input, clone_opt_time_input, clone_opt_i64s, normalize_required_pair_values,
    has_pairs, same_opt_seq, or_zero, window_inputs_ok, window_time_message, range_time_message,
};
pub use crate::systems::primitives::types::{
    OutputView, ProcessorFamily, ProcessorGroup, PrimitiveOutputMode, OutputMetadata,
    OutputProcessDiagnostic,
};
use crate::systems::aggregator::bars::latest_mode_from_name;
use crate::systems::regime::computed::{ComputedFields, values_allowed};
use crate::systems::primitives::types::{
    ProtoOutputView, expected_view, output_view_from_proto, mode_is_projected, mode_has_metadata,
    ensure_latest_view_matches_mode, ensure_proto_output_mode_supported, diagnostics_enabled,
    family_names, group_names, opt_family_names, opt_group_names, selectors_present,
    selects_metadata, mode_of, normalized_selectors, selects_metadata_family, clone_opt_families,
    clone_opt_groups, normalize_family_selectors, selector_family_names, selector_group_names,
    opt_names_or_empty, opt_deep, opt_align_name, align_mode_text, normalize_required_string,
    optional_text_ok, trimmed_opt, normalize_optional_required_string, normalized_opt_pairs,
    normalize_optional_pair_values, opt_i64s_or_empty, hits_or_empty, pairs_or_empty,
};

verus! {

/// The shape of the regime rows a request asks for.
pub type RegimeOutputMode = PrimitiveOutputMode;

/// The mode a regime request implies, or `None` when it selects the
/// metadata family without asking for metadata. Rows are projected unless
/// no selector is given and `secondary` is asked for.
pub open spec fn regime_mode_spec(
    family: Option<Seq<Seq<char>>>,
    group: Option<Seq<Seq<char>>>,
    secondary: Option<bool>,
    metadata: Option<bool>,
) -> Option<RegimeOutputMode> {
    if selects_metadata(family) && metadata != Some(true) {
        None
    } else {
        Some(
            mode_of(
                selectors_present(family) || selectors_present(group) || secondary != Some(true),
                metadata == Some(true),
            ),
        )
    }
}

/// What `infer_output_mode` gives for these selectors.
pub open spec fn regime_mode_matches(
    r: Result<RegimeOutputMode, SdkError>,
    family: Option<Seq<Seq<char>>>,
    group: Option<Seq<Seq<char>>>,
    secondary: Option<bool>,
    metadata: Option<bool>,
) -> bool {
    match regime_mode_spec(family, group, secondary, metadata) {
        Some(m) => r == Ok::<RegimeOutputMode, SdkError>(m),
        None => r matches Err(SdkError::RequestBuild { message }) && message@
            == "family=metadata requires metadata=true"@,
    }
}

/// The output mode a regime request implies.
pub fn infer_output_mode(
    family: Option<&Vec<ProcessorFamily>>,
    group: Option<&Vec<ProcessorGroup>>,
    secondary: Option<bool>,
    metadata: Option<bool>,
) -> (r: Result<RegimeOutputMode, SdkError>)
    ensures
        regime_mode_matches(
            r,
            match family {
                Some(v) => Some(family_names(v@)),
                None => None,
            },
            match group {
                Some(v) => Some(group_names(v@)),
                None => None,
            },
            secondary,
            metadata,
        ),
        r matches Ok(m) ==> ((m == PrimitiveOutputMode::ProjectedMin || m == PrimitiveOutputMode::ProjectedWithMeta)
            <==> ((family matches Some(f) && f@.len() > 0) || (group matches Some(g) && g@.len() > 0) || secondary
            != Some(true))),
        r matches Ok(m) ==> ((m == PrimitiveOutputMode::WithMeta || m == PrimitiveOutputMode::ProjectedWithMeta)
            <==> metadata == Some(true)),
{
    if selects_metadata_family(family) && !metadata.unwrap_or(false) {
        return Err(SdkError::request_build(String::from_str("family=metadata requires metadata=true")));
    }
    let projected = match family {
        Some(v) => v.len() > 0,
        None => false,
    } || match group {
        Some(v) => v.len() > 0,
        None => false,
    } || !secondary.unwrap_or(false);
    let with_meta = metadata.unwrap_or(false);
    if projected {
        if with_meta {
            Ok(PrimitiveOutputMode::ProjectedWithMeta)
        } else {
            Ok(PrimitiveOutputMode::ProjectedMin)
        }
    } else {
        if with_meta {
            Ok(PrimitiveOutputMode::WithMeta)
        } else {
            Ok(PrimitiveOutputMode::Min)
        }
    }
}

/// Ok only for `tf=1h`, the one timeframe regime serves.
pub fn ensure_supported_regime_tf(tf: Timeframe, context: &str) -> (r: Result<(), SdkError>)
    ensures
        r is Ok <==> tf == Timeframe::H1,
        tf != Timeframe::H1 ==> (r matches Err(SdkError::UnsupportedOrUnprovedUsage { message })
            && message@ == context@ + " supports tf=1h only in regime v1"@),
{
    if tf != Timeframe::H1 {
        return Err(
            SdkError::unsupported_or_unproved_usage(
                String::from_str(context).concat(" supports tf=1h only in regime v1"),
            ),
        );
    }
    Ok(())
}

/// The group selectors as sent, by name: an empty list is left out.
pub fn normalize_group_selector_names(values: &Option<Vec<ProcessorGroup>>) -> (r: Option<Vec<String>>)
    ensures
        opt_deep(r) == normalized_selectors(opt_group_names(*values)),
{
    match values {
        Some(v) => if v.len() == 0 {
            None
        } else {
            Some(selector_group_names(values))
        },
        None => None,
    }
}

/// `latest` for regime outputs.
#[derive(Debug, Clone, PartialEq)]
pub struct LatestRequest {
    pub pairs: Vec<String>,
    pub tf: Timeframe,
    pub latest_mode: Option<LatestMode>,
    pub family: Option<Vec<ProcessorFamily>>,
    pub group: Option<Vec<ProcessorGroup>>,
    pub secondary: Option<bool>,
    pub metadata: Option<bool>,
    pub diagnostics: Option<bool>,
    pub format: Option<HttpFormat>,
}
/// `latest` for regime outputs over gRPC.
#[derive(Debug, Clone, PartialEq)]
pub struct LatestGrpcRequest {
    pub pairs: Vec<String>,
    pub tf: Timeframe,
    pub latest_mode: Option<LatestMode>,
    pub family: Option<Vec<ProcessorFamily>>,
    pub group: Option<Vec<ProcessorGroup>>,
    pub secondary: Option<bool>,
    pub metadata: Option<bool>,
    pub diagnostics: Option<bool>,
}

impl LatestRequest {
    /// Ok when the request can be sent as it is.
    pub fn validate(&self) -> (r: Result<(), SdkError>)
        ensures
            self.tf != Timeframe::H1 ==> (r matches Err(SdkError::UnsupportedOrUnprovedUsage { message }) && message@ == "latest outputs"@ + " supports tf=1h only in regime v1"@),
            self.tf == Timeframe::H1 && regime_mode_spec(opt_family_names(self.family), opt_group_names(self.group), self.secondary, self.metadata) is Some ==> r is Ok,
            self.tf == Timeframe::H1 && regime_mode_spec(opt_family_names(self.family), opt_group_names(self.group), self.secondary, self.metadata) is None ==> (r matches Err(SdkError::RequestBuild { message }) && message@ == "family=metadata requires metadata=true"@),
    {
        ensure_supported_regime_tf(self.tf, "latest outputs")?;
        let _ = self.output_mode()?;
        Ok(())
    }

    /// The shape of the rows this request asks for.
    pub fn output_mode(&self) -> (r: Result<RegimeOutputMode, SdkError>)
        ensures
            regime_mode_matches(r, opt_family_names(self.family), opt_group_names(self.group), self.secondary, self.metadata),
    {
        infer_output_mode(self.family.as_ref(), self.group.as_ref(), self.secondary, self.metadata)
    }
}

impl LatestGrpcRequest {
    /// Ok when the request can be sent as it is.
    pub fn validate(&self) -> (r: Result<(), SdkError>)
        ensures
            self.tf != Timeframe::H1 ==> (r matches Err(SdkError::UnsupportedOrUnprovedUsage { message }) && message@ == "latest outputs"@ + " supports tf=1h only in regime v1"@),
            self.tf == Timeframe::H1 && regime_mode_spec(opt_family_names(self.family), opt_group_names(self.group), self.secondary, self.metadata) is Some ==> r is Ok,
            self.tf == Timeframe::H1 && regime_mode_spec(opt_family_names(self.family), opt_group_names(self.group), self.secondary, self.metadata) is None ==> (r matches Err(SdkError::RequestBuild { message }) && message@ == "family=metadata requires metadata=true"@),
    {
        ensure_supported_regime_tf(self.tf, "latest outputs")?;
        let _ = self.output_mode()?;
        Ok(())
    }

    /// The shape of the rows this request asks for.
    pub fn output_mode(&self) -> (r: Result<RegimeOutputMode, SdkError>)
        ensures
            regime_mode_matches(r, opt_family_names(self.family), opt_group_names(self.group), self.secondary, self.metadata),
    {
        infer_output_mode(self.family.as_ref(), self.group.as_ref(), self.secondary, self.metadata)
    }
}

impl LatestGrpcRequest {
    /// The gRPC form of a `latest` request.
    pub fn from_latest(value: &LatestRequest) -> (r: Self)
        ensures
            r.pairs@ == value.pairs@,
            r.tf == value.tf,
            r.latest_mode == value.latest_mode,
            opt_family_names(r.family) == opt_family_names(value.family),
            opt_group_names(r.group) == opt_group_names(value.group),
            r.secondary == value.secondary,
            r.metadata == value.metadata,
            r.diagnostics == value.diagnostics,
    {
        LatestGrpcRequest {
            pairs: clone_strings(&value.pairs),
            tf: value.tf,
            latest_mode: value.latest_mode,
            family: clone_opt_families(&value.family),
            group: clone_opt_groups(&value.group),
            secondary: value.secondary,
            metadata: value.metadata,
            diagnostics: value.diagnostics,
        }
    }
}
/// `range` for regime outputs.
#[derive(Debug, Clone, PartialEq)]
pub struct RangeRequest {
    pub pairs: Vec<String>,
    pub tf: Timeframe,
    pub align_mode: Option<AlignMode>,
    pub close_start: Option<TimeInput>,
    pub cursor: Option<String>,
    pub close_end: Option<TimeInput>,
    pub limit: Option<i64>,
    pub family: Option<Vec<ProcessorFamily>>,
    pub group: Option<Vec<ProcessorGroup>>,
    pub secondary: Option<bool>,
    pub metadata: Option<bool>,
    pub diagnostics: Option<bool>,
    pub format: Option<HttpFormat>,
}
/// `range` for regime outputs over gRPC.
#[derive(Debug, Clone, PartialEq)]
pub struct RangeGrpcRequest {
    pub pairs: Vec<String>,
    pub tf: Timeframe,
    pub align_mode: Option<AlignMode>,
    pub close_start: Option<TimeInput>,
    pub cursor: Option<String>,
    pub close_end: Option<TimeInput>,
    pub limit: Option<i64>,
    pub family: Option<Vec<ProcessorFamily>>,
    pub group: Option<Vec<ProcessorGroup>>,
    pub secondary: Option<bool>,
    pub metadata: Option<bool>,
    pub diagnostics: Option<bool>,
}

impl RangeRequest {
    /// Ok when the request can be sent as it is.
    pub fn validate(&self) -> (r: Result<(), SdkError>)
        ensures
            self.tf != Timeframe::H1 ==> (r matches Err(SdkError::UnsupportedOrUnprovedUsage { message }) && message@ == "range outputs"@ + " supports tf=1h only in regime v1"@),
            self.tf == Timeframe::H1 && regime_mode_spec(opt_family_names(self.family), opt_group_names(self.group), self.secondary, self.metadata) is Some ==> r is Ok,
            self.tf == Timeframe::H1 && regime_mode_spec(opt_family_names(self.family), opt_group_names(self.group), self.secondary, self.metadata) is None ==> (r matches Err(SdkError::RequestBuild { message }) && message@ == "family=metadata requires metadata=true"@),
    {
        ensure_supported_regime_tf(self.tf, "range outputs")?;
        let _ = self.output_mode()?;
        Ok(())
    }

    /// The shape of the rows this request asks for.
    pub fn output_mode(&self) -> (r: Result<RegimeOutputMode, SdkError>)
        ensures
            regime_mode_matches(r, opt_family_names(self.family), opt_group_names(self.group), self.secondary, self.metadata),
    {
        infer_output_mode(self.family.as_ref(), self.group.as_ref(), self.secondary, self.metadata)
    }
}

impl RangeGrpcRequest {
    /// Ok when the request can be sent as it is.
    pub fn validate(&self) -> (r: Result<(), SdkError>)
        ensures
            self.tf != Timeframe::H1 ==> (r matches Err(SdkError::UnsupportedOrUnprovedUsage { message }) && message@ == "range outputs"@ + " supports tf=1h only in regime v1"@),
            self.tf == Timeframe::H1 && regime_mode_spec(opt_family_names(self.family), opt_group_names(self.group), self.secondary, self.metadata) is Some ==> r is Ok,
            self.tf == Timeframe::H1 && regime_mode_spec(opt_family_names(self.family), opt_group_names(self.group), self.secondary, self.metadata) is None ==> (r matches Err(SdkError::RequestBuild { message }) && message@ == "family=metadata requires metadata=true"@),
    {
        ensure_supported_regime_tf(self.tf, "range outputs")?;
        let _ = self.output_mode()?;
        Ok(())
    }

    /// The shape of the rows this request asks for.
    pub fn output_mode(&self) -> (r: Result<RegimeOutputMode, SdkError>)
        ensures
            regime_mode_matches(r, opt_family_names(self.family), opt_group_names(self.group), self.secondary, self.metadata),
    {
        infer_output_mode(self.family.as_ref(), self.group.as_ref(), self.secondary, self.metadata)
    }
}

impl RangeGrpcRequest {
    /// The gRPC form of a `range` request.
    pub fn from_range(value: &RangeRequest) -> (r: Self)
        ensures
            r.pairs@ == value.pairs@,
            r.tf == value.tf,
            r.align_mode == value.align_mode,
            r.close_start == value.close_start,
            r.cursor == value.cursor,
            r.close_end == value.close_end,
            r.limit == value.limit,
            opt_family_names(r.family) == opt_family_names(value.family),
            opt_group_names(r.group) == opt_group_names(value.group),
            r.secondary == value.secondary,
            r.metadata == value.metadata,
            r.diagnostics == value.diagnostics,
    {
        RangeGrpcRequest {
            pairs: clone_strings(&value.pairs),
            tf: value.tf,
            align_mode: value.align_mode,
            close_start: clone_opt_time_input(&value.close_start),
            cursor: clone_opt_string(&value.cursor),
            close_end: clone_opt_time_input(&value.close_end),
            limit: value.limit,
            family: clone_opt_families(&value.family),
            group: clone_opt_groups(&value.group),
            secondary: value.secondary,
            metadata: value.metadata,
            diagnostics: value.diagnostics,
        }
    }
}
/// `search` for regime outputs.
#[derive(Debug, Clone, PartialEq)]
pub struct SearchRequest {
    pub tf: Timeframe,
    pub close_start: TimeInput,
    pub close_end: Option<TimeInput>,
    pub cursor: Option<String>,
    pub predicate: String,
    pub evaluate_pair: Option<String>,
    pub family: Option<Vec<ProcessorFamily>>,
    pub group: Option<Vec<ProcessorGroup>>,
    pub secondary: Option<bool>,
    pub metadata: Option<bool>,
    pub diagnostics: Option<bool>,
    pub max_hits: Option<i64>,
    pub format: Option<HttpFormat>,
}
/// `search` for regime outputs over gRPC.
#[derive(Debug, Clone, PartialEq)]
pub struct SearchGrpcRequest {
    pub tf: Timeframe,
    pub close_start: TimeInput,
    pub close_end: Option<TimeInput>,
    pub cursor: Option<String>,
    pub predicate: String,
    pub evaluate_pair: Option<String>,
    pub family: Option<Vec<ProcessorFamily>>,
    pub group: Option<Vec<ProcessorGroup>>,
    pub secondary: Option<bool>,
    pub metadata: Option<bool>,
    pub diagnostics: Option<bool>,
    pub max_hits: Option<i64>,
}

impl SearchRequest {
    /// Ok when the request can be sent as it is.
    pub fn validate(&self) -> (r: Result<(), SdkError>)
        ensures
            self.tf != Timeframe::H1 ==> (r matches Err(SdkError::UnsupportedOrUnprovedUsage { message }) && message@ == "search outputs"@ + " supports tf=1h only in regime v1"@),
            self.tf == Timeframe::H1 && regime_mode_spec(opt_family_names(self.family), opt_group_names(self.group), self.secondary, self.metadata) is Some ==> r is Ok,
            self.tf == Timeframe::H1 && regime_mode_spec(opt_family_names(self.family), opt_group_names(self.group), self.secondary, self.metadata) is None ==> (r matches Err(SdkError::RequestBuild { message }) && message@ == "family=metadata requires metadata=true"@),
    {
        ensure_supported_regime_tf(self.tf, "search outputs")?;
        let _ = self.output_mode()?;
        Ok(())
    }

    /// The shape of the rows this request asks for.
    pub fn output_mode(&self) -> (r: Result<RegimeOutputMode, SdkError>)
        ensures
            regime_mode_matches(r, opt_family_names(self.family), opt_group_names(self.group), self.secondary, self.metadata),
    {
        infer_output_mode(self.family.as_ref(), self.group.as_ref(), self.secondary, self.metadata)
    }
}

impl SearchGrpcRequest {
    /// Ok when the request can be sent as it is.
    pub fn validate(&self) -> (r: Result<(), SdkError>)
        ensures
            self.tf != Timeframe::H1 ==> (r matches Err(SdkError::UnsupportedOrUnprovedUsage { message }) && message@ == "search outputs"@ + " supports tf=1h only in regime v1"@),
            self.tf == Timeframe::H1 && regime_mode_spec(opt_family_names(self.family), opt_group_names(self.group), self.secondary, self.metadata) is Some ==> r is Ok,
            self.tf == Timeframe::H1 && regime_mode_spec(opt_family_names(self.family), opt_group_names(self.group), self.secondary, self.metadata) is None ==> (r matches Err(SdkError::RequestBuild { message }) && message@ == "family=metadata requires metadata=true"@),
    {
        ensure_supported_regime_tf(self.tf, "search outputs")?;
        let _ = self.output_mode()?;
        Ok(())
    }

    /// The shape of the rows this request asks for.
    pub fn output_mode(&self) -> (r: Result<RegimeOutputMode, SdkError>)
        ensures
            regime_mode_matches(r, opt_family_names(self.family), opt_group_names(self.group), self.secondary, self.metadata),
    {
        infer_output_mode(self.family.as_ref(), self.group.as_ref(), self.secondary, self.metadata)
    }
}

impl SearchGrpcRequest {
    /// The gRPC form of a `search` request.
    pub fn from_search(value: &SearchRequest) -> (r: Self)
        ensures
            r.tf == value.tf,
            r.close_start == value.close_start,
            r.close_end == value.close_end,
            r.cursor == value.cursor,
            r.predicate == value.predicate,
            r.evaluate_pair == value.evaluate_pair,
            opt_family_names(r.family) == opt_family_names(value.family),
            opt_group_names(r.group) == opt_group_names(value.group),
            r.secondary == value.secondary,
            r.metadata == value.metadata,
            r.diagnostics == value.diagnostics,
            r.max_hits == value.max_hits,
    {
        SearchGrpcRequest {
            tf: value.tf,
            close_start: clone_time_input(&value.close_start),
            close_end: clone_opt_time_input(&value.close_end),
            cursor: clone_opt_string(&value.cursor),
            predicate: value.predicate.clone(),
            evaluate_pair: clone_opt_string(&value.evaluate_pair),
            family: clone_opt_families(&value.family),
            group: clone_opt_groups(&value.group),
            secondary: value.secondary,
            metadata: value.metadata,
            diagnostics: value.diagnostics,
            max_hits: value.max_hits,
        }
    }
}
/// `time_machine` for regime outputs.
#[derive(Debug, Clone, PartialEq)]
pub struct TimeMachineRequest {
    pub tf: Timeframe,
    pub close_start: TimeInput,
    pub close_end: Option<TimeInput>,
    pub cursor: Option<String>,
    pub predicate: Option<String>,
    pub hits: Option<Vec<i64>>,
    pub output_pairs: Option<Vec<String>>,
    pub family: Option<Vec<ProcessorFamily>>,
    pub group: Option<Vec<ProcessorGroup>>,
    pub secondary: Option<bool>,
    pub metadata: Option<bool>,
    pub diagnostics: Option<bool>,
    pub before_bars: Option<i64>,
    pub after_bars: Option<i64>,
    pub max_hits: Option<i64>,
    pub overlap_mode: Option<String>,
    pub format: Option<HttpFormat>,
}
/// `time_machine` for regime outputs over gRPC.
#[derive(Debug, Clone, PartialEq)]
pub struct TimeMachineGrpcRequest {
    pub tf: Timeframe,
    pub close_start: TimeInput,
    pub close_end: Option<TimeInput>,
    pub cursor: Option<String>,
    pub predicate: Option<String>,
    pub hits: Option<Vec<i64>>,
    pub output_pairs: Option<Vec<String>>,
    pub family: Option<Vec<ProcessorFamily>>,
    pub group: Option<Vec<ProcessorGroup>>,
    pub secondary: Option<bool>,
    pub metadata: Option<bool>,
    pub diagnostics: Option<bool>,
    pub before_bars: Option<i64>,
    pub after_bars: Option<i64>,
    pub max_hits: Option<i64>,
    pub overlap_mode: Option<String>,
}

impl TimeMachineRequest {
    /// Ok when the request can be sent as it is.
    pub fn validate(&self) -> (r: Result<(), SdkError>)
        ensures
            self.tf != Timeframe::H1 ==> (r matches Err(SdkError::UnsupportedOrUnprovedUsage { message }) && message@ == "time machine outputs"@ + " supports tf=1h only in regime v1"@),
            self.tf == Timeframe::H1 && regime_mode_spec(opt_family_names(self.family), opt_group_names(self.group), self.secondary, self.metadata) is Some ==> r is Ok,
            self.tf == Timeframe::H1 && regime_mode_spec(opt_family_names(self.family), opt_group_names(self.group), self.secondary, self.metadata) is None ==> (r matches Err(SdkError::RequestBuild { message }) && message@ == "family=metadata requires metadata=true"@),
    {
        ensure_supported_regime_tf(self.tf, "time machine outputs")?;
        let _ = self.output_mode()?;
        Ok(())
    }

    /// The shape of the rows this request asks for.
    pub fn output_mode(&self) -> (r: Result<RegimeOutputMode, SdkError>)
        ensures
            regime_mode_matches(r, opt_family_names(self.family), opt_group_names(self.group), self.secondary, self.metadata),
    {
        infer_output_mode(self.family.as_ref(), self.group.as_ref(), self.secondary, self.metadata)
    }
}

impl TimeMachineGrpcRequest {
    /// Ok when the request can be sent as it is.
    pub fn validate(&self) -> (r: Result<(), SdkError>)
        ensures
            self.tf != Timeframe::H1 ==> (r matches Err(SdkError::UnsupportedOrUnprovedUsage { message }) && message@ == "time machine outputs"@ + " supports tf=1h only in regime v1"@),
            self.tf == Timeframe::H1 && regime_mode_spec(opt_family_names(self.family), opt_group_names(self.group), self.secondary, self.metadata) is Some ==> r is Ok,
            self.tf == Timeframe::H1 && regime_mode_spec(opt_family_names(self.family), opt_group_names(self.group), self.secondary, self.metadata) is None ==> (r matches Err(SdkError::RequestBuild { message }) && message@ == "family=metadata requires metadata=true"@),
    {
        ensure_supported_regime_tf(self.tf, "time machine outputs")?;
        let _ = self.output_mode()?;
        Ok(())
    }

    /// The shape of the rows this request asks for.
    pub fn output_mode(&self) -> (r: Result<RegimeOutputMode, SdkError>)
        ensures
            regime_mode_matches(r, opt_family_names(self.family), opt_group_names(self.group), self.secondary, self.metadata),
    {
        infer_output_mode(self.family.as_ref(), self.group.as_ref(), self.secondary, self.metadata)
    }
}

impl TimeMachineGrpcRequest {
    /// The gRPC form of a `time_machine` request.
    pub fn from_time_machine(value: &TimeMachineRequest) -> (r: Self)
        ensures
            r.tf == value.tf,
            r.close_start == value.close_start,
            r.close_end == value.close_end,
            r.cursor == value.cursor,
            r.predicate == value.predicate,
            same_opt_seq(r.hits, value.hits),
            same_opt_seq(r.output_pairs, value.output_pairs),
            opt_family_names(r.family) == opt_family_names(value.family),
            opt_group_names(r.group) == opt_group_names(value.group),
            r.secondary == value.secondary,
            r.metadata == value.metadata,
            r.diagnostics == value.diagnostics,
            r.before_bars == value.before_bars,
            r.after_bars == value.after_bars,
            r.max_hits == value.max_hits,
            r.overlap_mode == value.overlap_mode,
    {
        TimeMachineGrpcRequest {
            tf: value.tf,
            close_start: clone_time_input(&value.close_start),
            close_end: clone_opt_time_input(&value.close_end),
            cursor: clone_opt_string(&value.cursor),
            predicate: clone_opt_string(&value.predicate),
            hits: clone_opt_i64s(&value.hits),
            output_pairs: clone_opt_strings(&value.output_pairs),
            family: clone_opt_families(&value.family),
            group: clone_opt_groups(&value.group),
            secondary: value.secondary,
            metadata: value.metadata,
            diagnostics: value.diagnostics,
            before_bars: value.before_bars,
            after_bars: value.after_bars,
            max_hits: value.max_hits,
            overlap_mode: clone_opt_string(&value.overlap_mode),
        }
    }
}

/// The wire body of an outputs `latest` request.
#[derive(Debug, Clone, PartialEq)]
pub struct NormalizedLatestOutputsRequest {
    pub pairs: Vec<String>,
    pub tf: Timeframe,
    pub latest_mode: Option<LatestMode>,
    pub family: Option<Vec<ProcessorFamily>>,
    pub group: Option<Vec<String>>,
    pub secondary: Option<bool>,
    pub metadata: Option<bool>,
    pub diagnostics: Option<bool>,
    pub format: Option<HttpFormat>,
}

impl LatestRequest {
    /// The fields of the wire body built from this request.
    pub open spec fn http_body_spec(&self, n: NormalizedLatestOutputsRequest) -> bool {
        n.pairs.deep_view() == trimmed_nonblank(self.pairs.deep_view()) && n.tf == self.tf && n.latest_mode == self.latest_mode && opt_family_names(n.family) == normalized_selectors(opt_family_names(self.family)) && opt_deep(n.group) == normalized_selectors(opt_group_names(self.group)) && n.secondary == self.secondary && n.metadata == self.metadata && n.diagnostics == self.diagnostics && n.format == self.format
    }

    /// The wire body of this request.
    pub fn normalize_http(&self) -> (r: Result<NormalizedLatestOutputsRequest, SdkError>)
        ensures
            ((self.tf == Timeframe::H1 && regime_mode_spec(opt_family_names(self.family), opt_group_names(self.group), self.secondary, self.metadata) is Some) && has_pairs(self.pairs.deep_view())) ==> (r matches Ok(n) && self.http_body_spec(n)),
            !((self.tf == Timeframe::H1 && regime_mode_spec(opt_family_names(self.family), opt_group_names(self.group), self.secondary, self.metadata) is Some) && has_pairs(self.pairs.deep_view())) ==> r is Err,
            self.tf != Timeframe::H1 ==> (r matches Err(SdkError::UnsupportedOrUnprovedUsage { message }) && message@ == "latest outputs"@ + " supports tf=1h only in regime v1"@),
            self.tf == Timeframe::H1 && regime_mode_spec(opt_family_names(self.family), opt_group_names(self.group), self.secondary, self.metadata) is None ==> (r matches Err(SdkError::RequestBuild { message }) && message@ == "family=metadata requires metadata=true"@),
            (self.tf == Timeframe::H1 && regime_mode_spec(opt_family_names(self.family), opt_group_names(self.group), self.secondary, self.metadata) is Some) && !has_pairs(self.pairs.deep_view()) ==> (r matches Err(SdkError::RequestBuild { message }) && message@ == "latest outputs"@ + " requires at least one pair"@),
    {
        self.validate()?;
        let pairs = normalize_required_pair_values(&self.pairs, "latest outputs")?;
        Ok(NormalizedLatestOutputsRequest {
            pairs: pairs,
            tf: self.tf,
            latest_mode: self.latest_mode,
            family: normalize_family_selectors(&self.family),
            group: normalize_group_selector_names(&self.group),
            secondary: self.secondary,
            metadata: self.metadata,
            diagnostics: self.diagnostics,
            format: self.format,
        })
    }
}
/// The gRPC body of an outputs `latest` request.
#[derive(Debug, Clone, PartialEq)]
pub struct NormalizedLatestOutputsGrpcRequest {
    pub pairs: Vec<String>,
    pub tf: String,
    pub latest_mode: String,
    pub metadata: bool,
    pub family: Vec<String>,
    pub group: Vec<String>,
    pub diagnostics: Option<bool>,
    pub secondary: bool,
}

impl LatestGrpcRequest {
    /// The fields of the gRPC body built from this request.
    pub open spec fn proto_body_spec(&self, n: NormalizedLatestOutputsGrpcRequest) -> bool {
        n.pairs.deep_view() == trimmed_nonblank(self.pairs.deep_view()) && n.tf@ == timeframe_name(self.tf) && n.latest_mode@ == latest_mode_name(match self.latest_mode { Some(m) => m, None => LatestMode::ExactWatermark }) && n.metadata == (self.metadata == Some(true)) && n.family.deep_view() == opt_names_or_empty(opt_family_names(self.family)) && n.group.deep_view() == opt_names_or_empty(opt_group_names(self.group)) && n.diagnostics == self.diagnostics && n.secondary == (self.secondary == Some(true))
    }

    /// The wire body of this request.
    pub fn to_proto(&self) -> (r: Result<NormalizedLatestOutputsGrpcRequest, SdkError>)
        ensures
            ((self.tf == Timeframe::H1 && regime_mode_spec(opt_family_names(self.family), opt_group_names(self.group), self.secondary, self.metadata) is Some) && has_pairs(self.pairs.deep_view())) ==> (r matches Ok(n) && self.proto_body_spec(n)),
            !((self.tf == Timeframe::H1 && regime_mode_spec(opt_family_names(self.family), opt_group_names(self.group), self.secondary, self.metadata) is Some) && has_pairs(self.pairs.deep_view())) ==> r is Err,
            self.tf != Timeframe::H1 ==> (r matches Err(SdkError::UnsupportedOrUnprovedUsage { message }) && message@ == "latest outputs"@ + " supports tf=1h only in regime v1"@),
            self.tf == Timeframe::H1 && regime_mode_spec(opt_family_names(self.family), opt_group_names(self.group), self.secondary, self.metadata) is None ==> (r matches Err(SdkError::RequestBuild { message }) && message@ == "family=metadata requires metadata=true"@),
            (self.tf == Timeframe::H1 && regime_mode_spec(opt_family_names(self.family), opt_group_names(self.group), self.secondary, self.metadata) is Some) && !has_pairs(self.pairs.deep_view()) ==> (r matches Err(SdkError::RequestBuild { message }) && message@ == "latest outputs"@ + " requires at least one pair"@),
    {
        self.validate()?;
        let pairs = normalize_required_pair_values(&self.pairs, "latest outputs")?;
        Ok(NormalizedLatestOutputsGrpcRequest {
            pairs: pairs,
            tf: String::from_str(self.tf.as_str()),
            latest_mode: String::from_str(self.latest_mode.unwrap_or(LatestMode::ExactWatermark).as_str()),
            metadata: self.metadata.unwrap_or(false),
            family: selector_family_names(&self.family),
            group: selector_group_names(&self.group),
            diagnostics: self.diagnostics,
            secondary: self.secondary.unwrap_or(false),
        })
    }
}
/// The wire body of an outputs `range` request.
#[derive(Debug, Clone, PartialEq)]
pub struct NormalizedRangeOutputsRequest {
    pub pairs: Vec<String>,
    pub tf: Timeframe,
    pub align_mode: Option<AlignMode>,
    pub close_start_ms: Option<i64>,
    pub cursor: Option<String>,
    pub close_end_ms: Option<i64>,
    pub limit: Option<i64>,
    pub family: Option<Vec<ProcessorFamily>>,
    pub group: Option<Vec<String>>,
    pub secondary: Option<bool>,
    pub metadata: Option<bool>,
    pub diagnostics: Option<bool>,
    pub format: Option<HttpFormat>,
}

impl RangeRequest {
    /// The fields of the wire body built from this request.
    pub open spec fn http_body_spec(&self, n: NormalizedRangeOutputsRequest) -> bool {
        n.pairs.deep_view() == trimmed_nonblank(self.pairs.deep_view()) && n.tf == self.tf && n.align_mode == self.align_mode && n.close_start_ms == opt_time_input_ms(self.close_start).unwrap() && opt_string_view(n.cursor) == trimmed_nonblank_opt(opt_string_view(self.cursor)) && n.close_end_ms == opt_time_input_ms(self.close_end).unwrap() && n.limit == self.limit && opt_family_names(n.family) == normalized_selectors(opt_family_names(self.family)) && opt_deep(n.group) == normalized_selectors(opt_group_names(self.group)) && n.secondary == self.secondary && n.metadata == self.metadata && n.diagnostics == self.diagnostics && n.format == self.format
    }

    /// The wire body of this request.
    pub fn normalize_http(&self) -> (r: Result<NormalizedRangeOutputsRequest, SdkError>)
        ensures
            ((self.tf == Timeframe::H1 && regime_mode_spec(opt_family_names(self.family), opt_group_names(self.group), self.secondary, self.metadata) is Some) && has_pairs(self.pairs.deep_view()) && opt_time_input_ms(self.close_start) is Some && opt_time_input_ms(self.close_end) is Some) ==> (r matches Ok(n) && self.http_body_spec(n)),
            !((self.tf == Timeframe::H1 && regime_mode_spec(opt_family_names(self.family), opt_group_names(self.group), self.secondary, self.metadata) is Some) && has_pairs(self.pairs.deep_view()) && opt_time_input_ms(self.close_start) is Some && opt_time_input_ms(self.close_end) is Some) ==> r is Err,
            self.tf != Timeframe::H1 ==> (r matches Err(SdkError::UnsupportedOrUnprovedUsage { message }) && message@ == "range outputs"@ + " supports tf=1h only in regime v1"@),
            self.tf == Timeframe::H1 && regime_mode_spec(opt_family_names(self.family), opt_group_names(self.group), self.secondary, self.metadata) is None ==> (r matches Err(SdkError::RequestBuild { message }) && message@ == "family=metadata requires metadata=true"@),
            (self.tf == Timeframe::H1 && regime_mode_spec(opt_family_names(self.family), opt_group_names(self.group), self.secondary, self.metadata) is Some) && !has_pairs(self.pairs.deep_view()) ==> (r matches Err(SdkError::RequestBuild { message }) && message@ == "range outputs"@ + " requires at least one pair"@),
            (self.tf == Timeframe::H1 && regime_mode_spec(opt_family_names(self.family), opt_group_names(self.group), self.secondary, self.metadata) is Some) && has_pairs(self.pairs.deep_view()) && !(opt_time_input_ms(self.close_start) is Some && opt_time_input_ms(self.close_end) is Some) ==> (r matches Err(SdkError::InvalidTimeInput { message }) && message@ == range_time_message(self.close_start, self.close_end)),
    {
        self.validate()?;
        let pairs = normalize_required_pair_values(&self.pairs, "range outputs")?;
        let close_start_ms = opt_to_utc_ms(&self.close_start)?;
        let close_end_ms = opt_to_utc_ms(&self.close_end)?;
        Ok(NormalizedRangeOutputsRequest {
            pairs: pairs,
            tf: self.tf,
            align_mode: self.align_mode,
            close_start_ms: close_start_ms,
            cursor: normalize_optional_string(&self.cursor),
            close_end_ms: close_end_ms,
            limit: self.limit,
            family: normalize_family_selectors(&self.family),
            group: normalize_group_selector_names(&self.group),
            secondary: self.secondary,
            metadata: self.metadata,
            diagnostics: self.diagnostics,
            format: self.format,
        })
    }
}
/// The gRPC body of an outputs `range` request: absent bounds are 0.
#[derive(Debug, Clone, PartialEq)]
pub struct NormalizedRangeOutputsGrpcRequest {
    pub pairs: Vec<String>,
    pub tf: String,
    pub close_end_ms: i64,
    pub cursor: Option<String>,
    pub limit: Option<i64>,
    pub metadata: bool,
    pub close_start_ms: i64,
    pub align_mode: Option<String>,
    pub family: Vec<String>,
    pub group: Vec<String>,
    pub diagnostics: Option<bool>,
    pub secondary: bool,
}

impl RangeGrpcRequest {
    /// The fields of the gRPC body built from this request.
    pub open spec fn proto_body_spec(&self, n: NormalizedRangeOutputsGrpcRequest) -> bool {
        n.pairs.deep_view() == trimmed_nonblank(self.pairs.deep_view()) && n.tf@ == timeframe_name(self.tf) && n.close_end_ms == or_zero(opt_time_input_ms(self.close_end).unwrap()) && opt_string_view(n.cursor) == trimmed_nonblank_opt(opt_string_view(self.cursor)) && n.limit == self.limit && n.metadata == (self.metadata == Some(true)) && n.close_start_ms == or_zero(opt_time_input_ms(self.close_start).unwrap()) && opt_string_view(n.align_mode) == opt_align_name(self.align_mode) && n.family.deep_view() == opt_names_or_empty(opt_family_names(self.family)) && n.group.deep_view() == opt_names_or_empty(opt_group_names(self.group)) && n.diagnostics == self.diagnostics && n.secondary == (self.secondary == Some(true))
    }

    /// The wire body of this request.
    pub fn to_proto(&self) -> (r: Result<NormalizedRangeOutputsGrpcRequest, SdkError>)
        ensures
            ((self.tf == Timeframe::H1 && regime_mode_spec(opt_family_names(self.family), opt_group_names(self.group), self.secondary, self.metadata) is Some) && has_pairs(self.pairs.deep_view()) && opt_time_input_ms(self.close_start) is Some && opt_time_input_ms(self.close_end) is Some) ==> (r matches Ok(n) && self.proto_body_spec(n)),
            !((self.tf == Timeframe::H1 && regime_mode_spec(opt_family_names(self.family), opt_group_names(self.group), self.secondary, self.metadata) is Some) && has_pairs(self.pairs.deep_view()) && opt_time_input_ms(self.close_start) is Some && opt_time_input_ms(self.close_end) is Some) ==> r is Err,
            self.tf != Timeframe::H1 ==> (r matches Err(SdkError::UnsupportedOrUnprovedUsage { message }) && message@ == "range outputs"@ + " supports tf=1h only in regime v1"@),
            self.tf == Timeframe::H1 && regime_mode_spec(opt_family_names(self.family), opt_group_names(self.group), self.secondary, self.metadata) is None ==> (r matches Err(SdkError::RequestBuild { message }) && message@ == "family=metadata requires metadata=true"@),
            (self.tf == Timeframe::H1 && regime_mode_spec(opt_family_names(self.family), opt_group_names(self.group), self.secondary, self.metadata) is Some) && !has_pairs(self.pairs.deep_view()) ==> (r matches Err(SdkError::RequestBuild { message }) && message@ == "range outputs"@ + " requires at least one pair"@),
            (self.tf == Timeframe::H1 && regime_mode_spec(opt_family_names(self.family), opt_group_names(self.group), self.secondary, self.metadata) is Some) && has_pairs(self.pairs.deep_view()) && !(opt_time_input_ms(self.close_start) is Some && opt_time_input_ms(self.close_end) is Some) ==> (r matches Err(SdkError::InvalidTimeInput { message }) && message@ == range_time_message(self.close_start, self.close_end)),
    {
        self.validate()?;
        let pairs = normalize_required_pair_values(&self.pairs, "range outputs")?;
        let close_start_ms = opt_to_utc_ms(&self.close_start)?;
        let close_end_ms = opt_to_utc_ms(&self.close_end)?;
        Ok(NormalizedRangeOutputsGrpcRequest {
            pairs: pairs,
            tf: String::from_str(self.tf.as_str()),
            close_end_ms: close_end_ms.unwrap_or(0),
            cursor: normalize_optional_string(&self.cursor),
            limit: self.limit,
            metadata: self.metadata.unwrap_or(false),
            close_start_ms: close_start_ms.unwrap_or(0),
            align_mode: align_mode_text(self.align_mode),
            family: selector_family_names(&self.family),
            group: selector_group_names(&self.group),
            diagnostics: self.diagnostics,
            secondary: self.secondary.unwrap_or(false),
        })
    }
}
/// The wire body of an outputs `search` request.
#[derive(Debug, Clone, PartialEq)]
pub struct NormalizedSearchOutputsRequest {
    pub tf: Timeframe,
    pub close_start_ms: i64,
    pub close_end_ms: Option<i64>,
    pub cursor: Option<String>,
    pub predicate: String,
    pub evaluate_pair: Option<String>,
    pub family: Option<Vec<ProcessorFamily>>,
    pub group: Option<Vec<String>>,
    pub secondary: Option<bool>,
    pub metadata: Option<bool>,
    pub diagnostics: Option<bool>,
    pub max_hits: Option<i64>,
    pub format: Option<HttpFormat>,
}

impl SearchRequest {
    /// The fields of the wire body built from this request.
    pub open spec fn http_body_spec(&self, n: NormalizedSearchOutputsRequest) -> bool {
        n.tf == self.tf && n.close_start_ms == time_input_ms(self.close_start).unwrap() && n.close_end_ms == opt_time_input_ms(self.close_end).unwrap() && opt_string_view(n.cursor) == trimmed_nonblank_opt(opt_string_view(self.cursor)) && n.predicate@ == trim(self.predicate@) && opt_string_view(n.evaluate_pair) == trimmed_nonblank_opt(opt_string_view(self.evaluate_pair)) && opt_family_names(n.family) == normalized_selectors(opt_family_names(self.family)) && opt_deep(n.group) == normalized_selectors(opt_group_names(self.group)) && n.secondary == self.secondary && n.metadata == self.metadata && n.diagnostics == self.diagnostics && n.max_hits == self.max_hits && n.format == self.format
    }

    /// The wire body of this request.
    pub fn normalize_http(&self) -> (r: Result<NormalizedSearchOutputsRequest, SdkError>)
        ensures
            ((self.tf == Timeframe::H1 && regime_mode_spec(opt_family_names(self.family), opt_group_names(self.group), self.secondary, self.metadata) is Some) && window_inputs_ok(self.close_start, self.close_end) && trim(self.predicate@).len() > 0) ==> (r matches Ok(n) && self.http_body_spec(n)),
            !((self.tf == Timeframe::H1 && regime_mode_spec(opt_family_names(self.family), opt_group_names(self.group), self.secondary, self.metadata) is Some) && window_inputs_ok(self.close_start, self.close_end) && trim(self.predicate@).len() > 0) ==> r is Err,
            self.tf != Timeframe::H1 ==> (r matches Err(SdkError::UnsupportedOrUnprovedUsage { message }) && message@ == "search outputs"@ + " supports tf=1h only in regime v1"@),
            self.tf == Timeframe::H1 && regime_mode_spec(opt_family_names(self.family), opt_group_names(self.group), self.secondary, self.metadata) is None ==> (r matches Err(SdkError::RequestBuild { message }) && message@ == "family=metadata requires metadata=true"@),
            (self.tf == Timeframe::H1 && regime_mode_spec(opt_family_names(self.family), opt_group_names(self.group), self.secondary, self.metadata) is Some) && !window_inputs_ok(self.close_start, self.close_end) ==> (r matches Err(SdkError::InvalidTimeInput { message }) && message@ == window_time_message(self.close_start, self.close_end)),
            (self.tf == Timeframe::H1 && regime_mode_spec(opt_family_names(self.family), opt_group_names(self.group), self.secondary, self.metadata) is Some) && window_inputs_ok(self.close_start, self.close_end) && trim(self.predicate@).len() == 0 ==> (r matches Err(SdkError::RequestBuild { message }) && message@ == "search outputs predicate"@ + " must not be blank"@),
    {
        self.validate()?;
        let close_start_ms = self.close_start.to_utc_ms()?;
        let close_end_ms = opt_to_utc_ms(&self.close_end)?;
        let predicate = normalize_required_string(&self.predicate, "search outputs predicate")?;
        Ok(NormalizedSearchOutputsRequest {
            tf: self.tf,
            close_start_ms: close_start_ms,
            close_end_ms: close_end_ms,
            cursor: normalize_optional_string(&self.cursor),
            predicate: predicate,
            evaluate_pair: normalize_optional_string(&self.evaluate_pair),
            family: normalize_family_selectors(&self.family),
            group: normalize_group_selector_names(&self.group),
            secondary: self.secondary,
            metadata: self.metadata,
            diagnostics: self.diagnostics,
            max_hits: self.max_hits,
            format: self.format,
        })
    }
}
/// The gRPC body of an outputs `search` request: an absent end is 0.
#[derive(Debug, Clone, PartialEq)]
pub struct NormalizedSearchOutputsGrpcRequest {
    pub tf: String,
    pub close_start_ms: i64,
    pub close_end_ms: i64,
    pub cursor: Option<String>,
    pub predicate: String,
    pub evaluate_pair: Option<String>,
    pub metadata: bool,
    pub max_hits: Option<i64>,
    pub family: Vec<String>,
    pub group: Vec<String>,
    pub diagnostics: Option<bool>,
    pub secondary: bool,
}

impl SearchGrpcRequest {
    /// The fields of the gRPC body built from this request.
    pub open spec fn proto_body_spec(&self, n: NormalizedSearchOutputsGrpcRequest) -> bool {
        n.tf@ == timeframe_name(self.tf) && n.close_start_ms == time_input_ms(self.close_start).unwrap() && n.close_end_ms == or_zero(opt_time_input_ms(self.close_end).unwrap()) && opt_string_view(n.cursor) == trimmed_nonblank_opt(opt_string_view(self.cursor)) && n.predicate@ == trim(self.predicate@) && opt_string_view(n.evaluate_pair) == trimmed_nonblank_opt(opt_string_view(self.evaluate_pair)) && n.metadata == (self.metadata == Some(true)) && n.max_hits == self.max_hits && n.family.deep_view() == opt_names_or_empty(opt_family_names(self.family)) && n.group.deep_view() == opt_names_or_empty(opt_group_names(self.group)) && n.diagnostics == self.diagnostics && n.secondary == (self.secondary == Some(true))
    }

    /// The wire body of this request.
    pub fn to_proto(&self) -> (r: Result<NormalizedSearchOutputsGrpcRequest, SdkError>)
        ensures
            ((self.tf == Timeframe::H1 && regime_mode_spec(opt_family_names(self.family), opt_group_names(self.group), self.secondary, self.metadata) is Some) && window_inputs_ok(self.close_start, self.close_end) && trim(self.predicate@).len() > 0) ==> (r matches Ok(n) && self.proto_body_spec(n)),
            !((self.tf == Timeframe::H1 && regime_mode_spec(opt_family_names(self.family), opt_group_names(self.group), self.secondary, self.metadata) is Some) && window_inputs_ok(self.close_start, self.close_end) && trim(self.predicate@).len() > 0) ==> r is Err,
            self.tf != Timeframe::H1 ==> (r matches Err(SdkError::UnsupportedOrUnprovedUsage { message }) && message@ == "search outputs"@ + " supports tf=1h only in regime v1"@),
            self.tf == Timeframe::H1 && regime_mode_spec(opt_family_names(self.family), opt_group_names(self.group), self.secondary, self.metadata) is None ==> (r matches Err(SdkError::RequestBuild { message }) && message@ == "family=metadata requires metadata=true"@),
            (self.tf == Timeframe::H1 && regime_mode_spec(opt_family_names(self.family), opt_group_names(self.group), self.secondary, self.metadata) is Some) && !window_inputs_ok(self.close_start, self.close_end) ==> (r matches Err(SdkError::InvalidTimeInput { message }) && message@ == window_time_message(self.close_start, self.close_end)),
            (self.tf == Timeframe::H1 && regime_mode_spec(opt_family_names(self.family), opt_group_names(self.group), self.secondary, self.metadata) is Some) && window_inputs_ok(self.close_start, self.close_end) && trim(self.predicate@).len() == 0 ==> (r matches Err(SdkError::RequestBuild { message }) && message@ == "search outputs predicate"@ + " must not be blank"@),
    {
        self.validate()?;
        let close_start_ms = self.close_start.to_utc_ms()?;
        let close_end_ms = opt_to_utc_ms(&self.close_end)?;
        let predicate = normalize_required_string(&self.predicate, "search outputs predicate")?;
        Ok(NormalizedSearchOutputsGrpcRequest {
            tf: String::from_str(self.tf.as_str()),
            close_start_ms: close_start_ms,
            close_end_ms: close_end_ms.unwrap_or(0),
            cursor: normalize_optional_string(&self.cursor),
            predicate: predicate,
            evaluate_pair: normalize_optional_string(&self.evaluate_pair),
            metadata: self.metadata.unwrap_or(false),
            max_hits: self.max_hits,
            family: selector_family_names(&self.family),
            group: selector_group_names(&self.group),
            diagnostics: self.diagnostics,
            secondary: self.secondary.unwrap_or(false),
        })
    }
}
/// The wire body of an outputs `time_machine` request.
#[derive(Debug, Clone, PartialEq)]
pub struct NormalizedTimeMachineOutputsRequest {
    pub tf: Timeframe,
    pub close_start_ms: i64,
    pub close_end_ms: Option<i64>,
    pub cursor: Option<String>,
    pub predicate: Option<String>,
    pub hits: Option<Vec<i64>>,
    pub output_pairs: Option<Vec<String>>,
    pub family: Option<Vec<ProcessorFamily>>,
    pub group: Option<Vec<String>>,
    pub secondary: Option<bool>,
    pub metadata: Option<bool>,
    pub diagnostics: Option<bool>,
    pub before_bars: Option<i64>,
    pub after_bars: Option<i64>,
    pub max_hits: Option<i64>,
    pub overlap_mode: Option<String>,
    pub format: Option<HttpFormat>,
}

impl TimeMachineRequest {
    /// The fields of the wire body built from this request.
    pub open spec fn http_body_spec(&self, n: NormalizedTimeMachineOutputsRequest) -> bool {
        n.tf == self.tf && n.close_start_ms == time_input_ms(self.close_start).unwrap() && n.close_end_ms == opt_time_input_ms(self.close_end).unwrap() && opt_string_view(n.cursor) == trimmed_nonblank_opt(opt_string_view(self.cursor)) && opt_string_view(n.predicate) == trimmed_opt(opt_string_view(self.predicate)) && same_opt_seq(n.hits, self.hits) && opt_deep(n.output_pairs) == normalized_opt_pairs(self.output_pairs) && opt_family_names(n.family) == normalized_selectors(opt_family_names(self.family)) && opt_deep(n.group) == normalized_selectors(opt_group_names(self.group)) && n.secondary == self.secondary && n.metadata == self.metadata && n.diagnostics == self.diagnostics && n.before_bars == self.before_bars && n.after_bars == self.after_bars && n.max_hits == self.max_hits && opt_string_view(n.overlap_mode) == trimmed_nonblank_opt(opt_string_view(self.overlap_mode)) && n.format == self.format
    }

    /// The wire body of this request.
    pub fn normalize_http(&self) -> (r: Result<NormalizedTimeMachineOutputsRequest, SdkError>)
        ensures
            ((self.tf == Timeframe::H1 && regime_mode_spec(opt_family_names(self.family), opt_group_names(self.group), self.secondary, self.metadata) is Some) && window_inputs_ok(self.close_start, self.close_end) && optional_text_ok(self.predicate)) ==> (r matches Ok(n) && self.http_body_spec(n)),
            !((self.tf == Timeframe::H1 && regime_mode_spec(opt_family_names(self.family), opt_group_names(self.group), self.secondary, self.metadata) is Some) && window_inputs_ok(self.close_start, self.close_end) && optional_text_ok(self.predicate)) ==> r is Err,
            self.tf != Timeframe::H1 ==> (r matches Err(SdkError::UnsupportedOrUnprovedUsage { message }) && message@ == "time machine outputs"@ + " supports tf=1h only in regime v1"@),
            self.tf == Timeframe::H1 && regime_mode_spec(opt_family_names(self.family), opt_group_names(self.group), self.secondary, self.metadata) is None ==> (r matches Err(SdkError::RequestBuild { message }) && message@ == "family=metadata requires metadata=true"@),
            (self.tf == Timeframe::H1 && regime_mode_spec(opt_family_names(self.family), opt_group_names(self.group), self.secondary, self.metadata) is Some) && !window_inputs_ok(self.close_start, self.close_end) ==> (r matches Err(SdkError::InvalidTimeInput { message }) && message@ == window_time_message(self.close_start, self.close_end)),
            (self.tf == Timeframe::H1 && regime_mode_spec(opt_family_names(self.family), opt_group_names(self.group), self.secondary, self.metadata) is Some) && window_inputs_ok(self.close_start, self.close_end) && !optional_text_ok(self.predicate) ==> (r matches Err(SdkError::RequestBuild { message }) && message@ == "time machine predicate"@ + " must not be blank"@),
    {
        self.validate()?;
        let close_start_ms = self.close_start.to_utc_ms()?;
        let close_end_ms = opt_to_utc_ms(&self.close_end)?;
        let predicate = normalize_optional_required_string(&self.predicate, "time machine predicate")?;
        Ok(NormalizedTimeMachineOutputsRequest {
            tf: self.tf,
            close_start_ms: close_start_ms,
            close_end_ms: close_end_ms,
            cursor: normalize_optional_string(&self.cursor),
            predicate: predicate,
            hits: clone_opt_i64s(&self.hits),
            output_pairs: normalize_optional_pair_values(&self.output_pairs),
            family: normalize_family_selectors(&self.family),
            group: normalize_group_selector_names(&self.group),
            secondary: self.secondary,
            metadata: self.metadata,
            diagnostics: self.diagnostics,
            before_bars: self.before_bars,
            after_bars: self.after_bars,
            max_hits: self.max_hits,
            overlap_mode: normalize_optional_string(&self.overlap_mode),
            format: self.format,
        })
    }
}
/// The gRPC body of an outputs `time_machine` request: an absent end is 0, absent lists are empty.
#[derive(Debug, Clone, PartialEq)]
pub struct NormalizedTimeMachineOutputsGrpcRequest {
    pub tf: String,
    pub close_start_ms: i64,
    pub close_end_ms: i64,
    pub cursor: Option<String>,
    pub predicate: Option<String>,
    pub hits: Vec<i64>,
    pub output_pairs: Vec<String>,
    pub metadata: bool,
    pub before_bars: Option<i64>,
    pub after_bars: Option<i64>,
    pub max_hits: Option<i64>,
    pub overlap_mode: Option<String>,
    pub family: Vec<String>,
    pub group: Vec<String>,
    pub diagnostics: Option<bool>,
    pub secondary: bool,
}

impl TimeMachineGrpcRequest {
    /// The fields of the gRPC body built from this request.
    pub open spec fn proto_body_spec(&self, n: NormalizedTimeMachineOutputsGrpcRequest) -> bool {
        n.tf@ == timeframe_name(self.tf) && n.close_start_ms == time_input_ms(self.close_start).unwrap() && n.close_end_ms == or_zero(opt_time_input_ms(self.close_end).unwrap()) && opt_string_view(n.cursor) == trimmed_nonblank_opt(opt_string_view(self.cursor)) && opt_string_view(n.predicate) == trimmed_opt(opt_string_view(self.predicate)) && n.hits@ == opt_i64s_or_empty(self.hits) && n.output_pairs.deep_view() == opt_names_or_empty(normalized_opt_pairs(self.output_pairs)) && n.metadata == (self.metadata == Some(true)) && n.before_bars == self.before_bars && n.after_bars == self.after_bars && n.max_hits == self.max_hits && opt_string_view(n.overlap_mode) == trimmed_nonblank_opt(opt_string_view(self.overlap_mode)) && n.family.deep_view() == opt_names_or_empty(opt_family_names(self.family)) && n.group.deep_view() == opt_names_or_empty(opt_group_names(self.group)) && n.diagnostics == self.diagnostics && n.secondary == (self.secondary == Some(true))
    }

    /// The wire body of this request.
    pub fn to_proto(&self) -> (r: Result<NormalizedTimeMachineOutputsGrpcRequest, SdkError>)
        ensures
            ((self.tf == Timeframe::H1 && regime_mode_spec(opt_family_names(self.family), opt_group_names(self.group), self.secondary, self.metadata) is Some) && window_inputs_ok(self.close_start, self.close_end) && optional_text_ok(self.predicate)) ==> (r matches Ok(n) && self.proto_body_spec(n)),
            !((self.tf == Timeframe::H1 && regime_mode_spec(opt_family_names(self.family), opt_group_names(self.group), self.secondary, self.metadata) is Some) && window_inputs_ok(self.close_start, self.close_end) && optional_text_ok(self.predicate)) ==> r is Err,
            self.tf != Timeframe::H1 ==> (r matches Err(SdkError::UnsupportedOrUnprovedUsage { message }) && message@ == "time machine outputs"@ + " supports tf=1h only in regime v1"@),
            self.tf == Timeframe::H1 && regime_mode_spec(opt_family_names(self.family), opt_group_names(self.group), self.secondary, self.metadata) is None ==> (r matches Err(SdkError::RequestBuild { message }) && message@ == "family=metadata requires metadata=true"@),
            (self.tf == Timeframe::H1 && regime_mode_spec(opt_family_names(self.family), opt_group_names(self.group), self.secondary, self.metadata) is Some) && !window_inputs_ok(self.close_start, self.close_end) ==> (r matches Err(SdkError::InvalidTimeInput { message }) && message@ == window_time_message(self.close_start, self.close_end)),
            (self.tf == Timeframe::H1 && regime_mode_spec(opt_family_names(self.family), opt_group_names(self.group), self.secondary, self.metadata) is Some) && window_inputs_ok(self.close_start, self.close_end) && !optional_text_ok(self.predicate) ==> (r matches Err(SdkError::RequestBuild { message }) && message@ == "time machine predicate"@ + " must not be blank"@),
    {
        self.validate()?;
        let close_start_ms = self.close_start.to_utc_ms()?;
        let close_end_ms = opt_to_utc_ms(&self.close_end)?;
        let predicate = normalize_optional_required_string(&self.predicate, "time machine predicate")?;
        Ok(NormalizedTimeMachineOutputsGrpcRequest {
            tf: String::from_str(self.tf.as_str()),
            close_start_ms: close_start_ms,
            close_end_ms: close_end_ms.unwrap_or(0),
            cursor: normalize_optional_string(&self.cursor),
            predicate: predicate,
            hits: hits_or_empty(&self.hits),
            output_pairs: pairs_or_empty(normalize_optional_pair_values(&self.output_pairs)),
            metadata: self.metadata.unwrap_or(false),
            before_bars: self.before_bars,
            after_bars: self.after_bars,
            max_hits: self.max_hits,
            overlap_mode: normalize_optional_string(&self.overlap_mode),
            family: selector_family_names(&self.family),
            group: selector_group_names(&self.group),
            diagnostics: self.diagnostics,
            secondary: self.secondary.unwrap_or(false),
        })
    }
}



/// A regime output row: the bar it was computed on, its computed fields
/// and, when asked for, metadata and diagnostics. Prices and volumes are
/// IEEE-754 bit patterns.
#[derive(Debug, Clone, PartialEq)]
pub struct OutputRow {
    pub pair: String,
    pub tf: String,
    pub open_ms: i64,
    pub close_ms: i64,
    pub open_utc: String,
    pub close_utc: String,
    pub o: u64,
    pub h: u64,
    pub l: u64,
    pub c: u64,
    pub v: u64,
    pub quote_v: Option<u64>,
    pub taker_known_v: Option<u64>,
    pub taker_signed_v: Option<u64>,
    pub taker_known_quote_v: Option<u64>,
    pub taker_signed_quote_v: Option<u64>,
    pub taker_known_n: Option<i64>,
    pub taker_signed_n: Option<i64>,
    pub vw: Option<u64>,
    pub n: Option<i64>,
    pub metadata: Option<OutputMetadata>,
    pub diagnostics: Option<Vec<OutputProcessDiagnostic>>,
    pub computed: ComputedFields,
}

/// The row with its diagnostics dropped unless they were asked for.
pub open spec fn row_gated(row: OutputRow, enabled: bool) -> OutputRow {
    if enabled {
        row
    } else {
        OutputRow { diagnostics: None, ..row }
    }
}

/// The row as handed out, when its computed values are null or numbers
/// and it carries metadata exactly as required.
pub open spec fn row_public(row: OutputRow, metadata_required: bool, d: bool) -> Option<OutputRow> {
    if values_allowed(row.computed.0@) && row.metadata is Some == metadata_required {
        Some(row_gated(row, d))
    } else {
        None
    }
}

impl OutputRow {
    /// The computed fields.
    pub fn computed(&self) -> (r: &ComputedFields)
        ensures
            r == &self.computed,
    {
        &self.computed
    }

    /// Ok when metadata is present exactly when it is required.
    pub fn ensure_metadata_shape(&self, metadata_required: bool, context: &str) -> (r: Result<
        (),
        SdkError,
    >)
        ensures
            r is Ok <==> (self.metadata is Some == metadata_required),
            metadata_required && self.metadata is None ==> (r matches Err(
                SdkError::ContractDrift { message },
            ) && message@ == context@ + " missing `metadata`"@),
            !metadata_required && self.metadata is Some ==> (r matches Err(
                SdkError::ContractDrift { message },
            ) && message@ == context@ + " unexpectedly included `metadata`"@),
    {
        match (metadata_required, self.metadata.is_some()) {
            (true, false) => Err(
                SdkError::contract_drift(String::from_str(context).concat(" missing `metadata`")),
            ),
            (false, true) => Err(
                SdkError::contract_drift(
                    String::from_str(context).concat(" unexpectedly included `metadata`"),
                ),
            ),
            _ => Ok(()),
        }
    }

    /// The row with its diagnostics dropped unless they were asked for.
    pub fn apply_diagnostics_gate(self, enabled: bool) -> (r: Self)
        ensures
            r == row_gated(self, enabled),
    {
        let mut row = self;
        if !enabled {
            row.diagnostics = None;
        }
        row
    }

    /// A row decoded from JSON, as handed out: diagnostics dropped unless
    /// asked for, metadata present exactly when required.
    pub fn into_public(self, metadata_required: bool, diagnostics_enabled: bool, context: &str) -> (r:
        Result<Self, SdkError>)
        ensures
            row_public(self, metadata_required, diagnostics_enabled) matches Some(o) ==> r == Ok::<
                Self,
                SdkError,
            >(o),
            row_public(self, metadata_required, diagnostics_enabled) is None ==> r matches Err(
                SdkError::ContractDrift { .. },
            ),
    {
        self.computed.validate(context)?;
        let row = self.apply_diagnostics_gate(diagnostics_enabled);
        row.ensure_metadata_shape(metadata_required, context)?;
        Ok(row)
    }
}

/// A regime output row as the protobuf message carries it.
#[derive(Debug, Clone, PartialEq)]
pub struct OutputRowProtoWire {
    pub pair: String,
    pub tf: String,
    pub open_ms: i64,
    pub close_ms: i64,
    pub open_utc: Option<String>,
    pub close_utc: Option<String>,
    pub o: u64,
    pub h: u64,
    pub l: u64,
    pub c: u64,
    pub v: u64,
    pub quote_v: Option<u64>,
    pub taker_known_v: Option<u64>,
    pub taker_signed_v: Option<u64>,
    pub taker_known_quote_v: Option<u64>,
    pub taker_signed_quote_v: Option<u64>,
    pub taker_known_n: Option<i64>,
    pub taker_signed_n: Option<i64>,
    pub vw: Option<u64>,
    pub n: Option<i64>,
    pub metadata: Option<OutputMetadata>,
    pub diagnostics: Vec<OutputProcessDiagnostic>,
    pub computed: ComputedFields,
}

/// The row a protobuf row stands for in a request of mode `mode`.
pub open spec fn row_from_proto(w: OutputRowProtoWire, mode: RegimeOutputMode, d: bool) -> Option<OutputRow> {
    match (w.open_utc, w.close_utc) {
        (Some(open_utc), Some(close_utc)) => row_public(
            OutputRow {
                pair: w.pair,
                tf: w.tf,
                open_ms: w.open_ms,
                close_ms: w.close_ms,
                open_utc,
                close_utc,
                o: w.o,
                h: w.h,
                l: w.l,
                c: w.c,
                v: w.v,
                quote_v: w.quote_v,
                taker_known_v: w.taker_known_v,
                taker_signed_v: w.taker_signed_v,
                taker_known_quote_v: w.taker_known_quote_v,
                taker_signed_quote_v: w.taker_signed_quote_v,
                taker_known_n: w.taker_known_n,
                taker_signed_n: w.taker_signed_n,
                vw: w.vw,
                n: w.n,
                metadata: w.metadata,
                diagnostics: Some(w.diagnostics),
                computed: w.computed,
            },
            crate::systems::primitives::types::mode_has_metadata(mode),
            d,
        ),
        _ => None,
    }
}

impl OutputRow {
    /// The row of a protobuf row: both timestamps must be present, and
    /// metadata present exactly when the mode carries it.
    pub fn from_proto(value: OutputRowProtoWire, mode: RegimeOutputMode, diagnostics_enabled: bool, context: &str) -> (r:
        Result<Self, SdkError>)
        ensures
            row_from_proto(value, mode, diagnostics_enabled) matches Some(o) ==> r == Ok::<Self, SdkError>(o),
            row_from_proto(value, mode, diagnostics_enabled) is None ==> r matches Err(
                SdkError::ContractDrift { .. },
            ),
    {
        let open_utc = match value.open_utc {
            Some(v) => v,
            None => {
                return Err(SdkError::contract_drift(String::from_str(context).concat(" missing `open_utc`")));
            },
        };
        let close_utc = match value.close_utc {
            Some(v) => v,
            None => {
                return Err(SdkError::contract_drift(String::from_str(context).concat(" missing `close_utc`")));
            },
        };
        let row = OutputRow {
            pair: value.pair,
            tf: value.tf,
            open_ms: value.open_ms,
            close_ms: value.close_ms,
            open_utc,
            close_utc,
            o: value.o,
            h: value.h,
            l: value.l,
            c: value.c,
            v: value.v,
            quote_v: value.quote_v,
            taker_known_v: value.taker_known_v,
            taker_signed_v: value.taker_signed_v,
            taker_known_quote_v: value.taker_known_quote_v,
            taker_signed_quote_v: value.taker_signed_quote_v,
            taker_known_n: value.taker_known_n,
            taker_signed_n: value.taker_signed_n,
            vw: value.vw,
            n: value.n,
            metadata: value.metadata,
            diagnostics: Some(value.diagnostics),
            computed: value.computed,
        };
        row.into_public(mode.has_metadata(), diagnostics_enabled, context)
    }
}

/// A row present in a regime `latest` snapshot, with its age.
#[derive(Debug, Clone, PartialEq)]
pub struct LatestPresentRow {
    pub row: OutputRow,
    pub age_ms: i64,
}

/// A `latest` protobuf row.
#[derive(Debug, Clone, PartialEq)]
pub struct OutputsPresentRowProtoWire {
    pub output: Option<OutputRowProtoWire>,
    pub age_ms: Option<i64>,
}

/// The present row a JSON `latest` row stands for.
pub open spec fn present_public(w: LatestPresentRow, req: bool, d: bool) -> Option<LatestPresentRow> {
    match row_public(w.row, req, d) {
        Some(row) => Some(LatestPresentRow { row, age_ms: w.age_ms }),
        None => None,
    }
}

/// The present row a protobuf `latest` row stands for.
pub open spec fn present_from_proto(w: OutputsPresentRowProtoWire, mode: RegimeOutputMode, d: bool) -> Option<LatestPresentRow> {
    match (w.output, w.age_ms) {
        (Some(o), Some(age_ms)) => match row_from_proto(o, mode, d) {
            Some(row) => Some(LatestPresentRow { row, age_ms }),
            None => None,
        },
        _ => None,
    }
}

fn present_public_exec(w: LatestPresentRow, req: bool, d: bool) -> (r: Result<LatestPresentRow, SdkError>)
    ensures
        present_public(w, req, d) matches Some(o) ==> r == Ok::<LatestPresentRow, SdkError>(o),
        present_public(w, req, d) is None ==> r matches Err(SdkError::ContractDrift { .. }),
{
    let row = w.row.into_public(req, d, "latest outputs response row")?;
    Ok(LatestPresentRow { row, age_ms: w.age_ms })
}

fn present_from_proto_exec(w: OutputsPresentRowProtoWire, mode: RegimeOutputMode, d: bool) -> (r: Result<
    LatestPresentRow,
    SdkError,
>)
    ensures
        present_from_proto(w, mode, d) matches Some(o) ==> r == Ok::<LatestPresentRow, SdkError>(o),
        present_from_proto(w, mode, d) is None ==> r matches Err(SdkError::ContractDrift { .. }),
{
    let output = match w.output {
        Some(o) => o,
        None => {
            return Err(SdkError::contract_drift(String::from_str("latest outputs protobuf row missing `output`")));
        },
    };
    let row = OutputRow::from_proto(output, mode, d, "latest outputs protobuf row")?;
    match w.age_ms {
        Some(age_ms) => Ok(LatestPresentRow { row, age_ms }),
        None => Err(SdkError::contract_drift(String::from_str("latest outputs protobuf row missing `age_ms`"))),
    }
}

/// A row around a hit of a regime `time_machine` read.
#[derive(Debug, Clone, PartialEq)]
pub struct TimeMachineRow {
    pub hit_close_ms: i64,
    pub offset: i64,
    pub row: OutputRow,
}

/// A `time_machine` protobuf row.
#[derive(Debug, Clone, PartialEq)]
pub struct OutputsTimeMachineRowProtoWire {
    pub hit_close_ms: i64,
    pub offset: i64,
    pub output: Option<OutputRowProtoWire>,
}

/// The row a JSON `time_machine` row stands for.
pub open spec fn tm_public(w: TimeMachineRow, req: bool, d: bool) -> Option<TimeMachineRow> {
    match row_public(w.row, req, d) {
        Some(row) => Some(TimeMachineRow { row, ..w }),
        None => None,
    }
}

/// The row a protobuf `time_machine` row stands for.
pub open spec fn tm_from_proto(w: OutputsTimeMachineRowProtoWire, mode: RegimeOutputMode, d: bool) -> Option<TimeMachineRow> {
    match w.output {
        Some(o) => match row_from_proto(o, mode, d) {
            Some(row) => Some(TimeMachineRow { hit_close_ms: w.hit_close_ms, offset: w.offset, row }),
            None => None,
        },
        None => None,
    }
}

fn tm_public_exec(w: TimeMachineRow, req: bool, d: bool) -> (r: Result<TimeMachineRow, SdkError>)
    ensures
        tm_public(w, req, d) matches Some(o) ==> r == Ok::<TimeMachineRow, SdkError>(o),
        tm_public(w, req, d) is None ==> r matches Err(SdkError::ContractDrift { .. }),
{
    let row = w.row.into_public(req, d, "time machine outputs row")?;
    Ok(TimeMachineRow { hit_close_ms: w.hit_close_ms, offset: w.offset, row })
}

fn tm_from_proto_exec(w: OutputsTimeMachineRowProtoWire, mode: RegimeOutputMode, d: bool) -> (r: Result<
    TimeMachineRow,
    SdkError,
>)
    ensures
        tm_from_proto(w, mode, d) matches Some(o) ==> r == Ok::<TimeMachineRow, SdkError>(o),
        tm_from_proto(w, mode, d) is None ==> r matches Err(SdkError::ContractDrift { .. }),
{
    let output = match w.output {
        Some(o) => o,
        None => {
            return Err(SdkError::contract_drift(String::from_str("time machine outputs protobuf row missing `output`")));
        },
    };
    let row = OutputRow::from_proto(output, mode, d, "time machine outputs row")?;
    Ok(TimeMachineRow { hit_close_ms: w.hit_close_ms, offset: w.offset, row })
}

/// Whether every item reads.
pub open spec fn all_rows_public(rows: Seq<OutputRow>, req: bool, d: bool) -> bool {
    forall|i: int| 0 <= i < rows.len() ==> (#[trigger] row_public(rows[i], req, d)) is Some
}

/// The items the rows stand for, in order.
pub open spec fn rows_public(rows: Seq<OutputRow>, req: bool, d: bool) -> Seq<OutputRow> {
    Seq::new(rows.len(), |i: int| row_public(rows[i], req, d).unwrap())
}

/// JSON rows as handed out; the first of the wrong shape refuses the lot.
pub fn rows_into_public(rows: Vec<OutputRow>, req: bool, d: bool) -> (r: Result<Vec<OutputRow>, SdkError>)
    ensures
        all_rows_public(rows@, req, d) ==> (r matches Ok(v) && v@ == rows_public(rows@, req, d)),
        !all_rows_public(rows@, req, d) ==> r matches Err(SdkError::ContractDrift { .. }),
{
    let ghost orig = rows@;
    let mut rest = rows;
    let mut out: Vec<OutputRow> = Vec::new();
    let n = rest.len();
    let mut k: usize = 0;
    while k < n
        invariant
            orig == rows@,
            n == orig.len(),
            k <= n,
            rest@ == orig.subrange(k as int, n as int),
            out@.len() == k,
            forall|i: int| 0 <= i < k ==> (#[trigger] row_public(orig[i], req, d)) is Some,
            forall|i: int| 0 <= i < k ==> out@[i] == row_public(orig[i], req, d).unwrap(),
        decreases n - k,
    {
        let row = rest.remove(0);
        assert(row == orig[k as int]);
        let item = match row.into_public(req, d, "outputs row") {
            Ok(o) => o,
            Err(e) => {
                assert(row_public(orig[k as int], req, d) is None);
                assert(!all_rows_public(orig, req, d));
                return Err(e);
            },
        };
        out.push(item);
        k = k + 1;
        assert(rest@ =~= orig.subrange(k as int, n as int));
    }
    assert(out@ =~= rows_public(orig, req, d));
    Ok(out)
}

/// Whether every item reads.
pub open spec fn all_present_public(rows: Seq<LatestPresentRow>, req: bool, d: bool) -> bool {
    forall|i: int| 0 <= i < rows.len() ==> (#[trigger] present_public(rows[i], req, d)) is Some
}

/// The items the rows stand for, in order.
pub open spec fn presents_public(rows: Seq<LatestPresentRow>, req: bool, d: bool) -> Seq<LatestPresentRow> {
    Seq::new(rows.len(), |i: int| present_public(rows[i], req, d).unwrap())
}

/// JSON `latest` rows as handed out.
pub fn present_rows_into_public(rows: Vec<LatestPresentRow>, req: bool, d: bool) -> (r: Result<Vec<LatestPresentRow>, SdkError>)
    ensures
        all_present_public(rows@, req, d) ==> (r matches Ok(v) && v@ == presents_public(rows@, req, d)),
        !all_present_public(rows@, req, d) ==> r matches Err(SdkError::ContractDrift { .. }),
{
    let ghost orig = rows@;
    let mut rest = rows;
    let mut out: Vec<LatestPresentRow> = Vec::new();
    let n = rest.len();
    let mut k: usize = 0;
    while k < n
        invariant
            orig == rows@,
            n == orig.len(),
            k <= n,
            rest@ == orig.subrange(k as int, n as int),
            out@.len() == k,
            forall|i: int| 0 <= i < k ==> (#[trigger] present_public(orig[i], req, d)) is Some,
            forall|i: int| 0 <= i < k ==> out@[i] == present_public(orig[i], req, d).unwrap(),
        decreases n - k,
    {
        let row = rest.remove(0);
        assert(row == orig[k as int]);
        let item = match present_public_exec(row, req, d) {
            Ok(o) => o,
            Err(e) => {
                assert(present_public(orig[k as int], req, d) is None);
                assert(!all_present_public(orig, req, d));
                return Err(e);
            },
        };
        out.push(item);
        k = k + 1;
        assert(rest@ =~= orig.subrange(k as int, n as int));
    }
    assert(out@ =~= presents_public(orig, req, d));
    Ok(out)
}

/// Whether every item reads.
pub open spec fn all_tm_public(rows: Seq<TimeMachineRow>, req: bool, d: bool) -> bool {
    forall|i: int| 0 <= i < rows.len() ==> (#[trigger] tm_public(rows[i], req, d)) is Some
}

/// The items the rows stand for, in order.
pub open spec fn tms_public(rows: Seq<TimeMachineRow>, req: bool, d: bool) -> Seq<TimeMachineRow> {
    Seq::new(rows.len(), |i: int| tm_public(rows[i], req, d).unwrap())
}

/// JSON `time_machine` rows as handed out.
pub fn tm_rows_into_public(rows: Vec<TimeMachineRow>, req: bool, d: bool) -> (r: Result<Vec<TimeMachineRow>, SdkError>)
    ensures
        all_tm_public(rows@, req, d) ==> (r matches Ok(v) && v@ == tms_public(rows@, req, d)),
        !all_tm_public(rows@, req, d) ==> r matches Err(SdkError::ContractDrift { .. }),
{
    let ghost orig = rows@;
    let mut rest = rows;
    let mut out: Vec<TimeMachineRow> = Vec::new();
    let n = rest.len();
    let mut k: usize = 0;
    while k < n
        invariant
            orig == rows@,
            n == orig.len(),
            k <= n,
            rest@ == orig.subrange(k as int, n as int),
            out@.len() == k,
            forall|i: int| 0 <= i < k ==> (#[trigger] tm_public(orig[i], req, d)) is Some,
            forall|i: int| 0 <= i < k ==> out@[i] == tm_public(orig[i], req, d).unwrap(),
        decreases n - k,
    {
        let row = rest.remove(0);
        assert(row == orig[k as int]);
        let item = match tm_public_exec(row, req, d) {
            Ok(o) => o,
            Err(e) => {
                assert(tm_public(orig[k as int], req, d) is None);
                assert(!all_tm_public(orig, req, d));
                return Err(e);
            },
        };
        out.push(item);
        k = k + 1;
        assert(rest@ =~= orig.subrange(k as int, n as int));
    }
    assert(out@ =~= tms_public(orig, req, d));
    Ok(out)
}

/// Whether every item reads.
pub open spec fn all_rows_from_proto(rows: Seq<OutputRowProtoWire>, mode: RegimeOutputMode, d: bool) -> bool {
    forall|i: int| 0 <= i < rows.len() ==> (#[trigger] row_from_proto(rows[i], mode, d)) is Some
}

/// The items the rows stand for, in order.
pub open spec fn rows_of_proto(rows: Seq<OutputRowProtoWire>, mode: RegimeOutputMode, d: bool) -> Seq<OutputRow> {
    Seq::new(rows.len(), |i: int| row_from_proto(rows[i], mode, d).unwrap())
}

/// Protobuf rows as handed out.
pub fn rows_from_proto(rows: Vec<OutputRowProtoWire>, mode: RegimeOutputMode, d: bool) -> (r: Result<Vec<OutputRow>, SdkError>)
    ensures
        all_rows_from_proto(rows@, mode, d) ==> (r matches Ok(v) && v@ == rows_of_proto(rows@, mode, d)),
        !all_rows_from_proto(rows@, mode, d) ==> r matches Err(SdkError::ContractDrift { .. }),
{
    let ghost orig = rows@;
    let mut rest = rows;
    let mut out: Vec<OutputRow> = Vec::new();
    let n = rest.len();
    let mut k: usize = 0;
    while k < n
        invariant
            orig == rows@,
            n == orig.len(),
            k <= n,
            rest@ == orig.subrange(k as int, n as int),
            out@.len() == k,
            forall|i: int| 0 <= i < k ==> (#[trigger] row_from_proto(orig[i], mode, d)) is Some,
            forall|i: int| 0 <= i < k ==> out@[i] == row_from_proto(orig[i], mode, d).unwrap(),
        decreases n - k,
    {
        let row = rest.remove(0);
        assert(row == orig[k as int]);
        let item = match OutputRow::from_proto(row, mode, d, "outputs row") {
            Ok(o) => o,
            Err(e) => {
                assert(row_from_proto(orig[k as int], mode, d) is None);
                assert(!all_rows_from_proto(orig, mode, d));
                return Err(e);
            },
        };
        out.push(item);
        k = k + 1;
        assert(rest@ =~= orig.subrange(k as int, n as int));
    }
    assert(out@ =~= rows_of_proto(orig, mode, d));
    Ok(out)
}

/// Whether every item reads.
pub open spec fn all_presents_from_proto(rows: Seq<OutputsPresentRowProtoWire>, mode: RegimeOutputMode, d: bool) -> bool {
    forall|i: int| 0 <= i < rows.len() ==> (#[trigger] present_from_proto(rows[i], mode, d)) is Some
}

/// The items the rows stand for, in order.
pub open spec fn presents_of_proto(rows: Seq<OutputsPresentRowProtoWire>, mode: RegimeOutputMode, d: bool) -> Seq<LatestPresentRow> {
    Seq::new(rows.len(), |i: int| present_from_proto(rows[i], mode, d).unwrap())
}

/// Protobuf `latest` rows as handed out.
pub fn present_rows_from_proto(rows: Vec<OutputsPresentRowProtoWire>, mode: RegimeOutputMode, d: bool) -> (r: Result<Vec<LatestPresentRow>, SdkError>)
    ensures
        all_presents_from_proto(rows@, mode, d) ==> (r matches Ok(v) && v@ == presents_of_proto(rows@, mode, d)),
        !all_presents_from_proto(rows@, mode, d) ==> r matches Err(SdkError::ContractDrift { .. }),
{
    let ghost orig = rows@;
    let mut rest = rows;
    let mut out: Vec<LatestPresentRow> = Vec::new();
    let n = rest.len();
    let mut k: usize = 0;
    while k < n
        invariant
            orig == rows@,
            n == orig.len(),
            k <= n,
            rest@ == orig.subrange(k as int, n as int),
            out@.len() == k,
            forall|i: int| 0 <= i < k ==> (#[trigger] present_from_proto(orig[i], mode, d)) is Some,
            forall|i: int| 0 <= i < k ==> out@[i] == present_from_proto(orig[i], mode, d).unwrap(),
        decreases n - k,
    {
        let row = rest.remove(0);
        assert(row == orig[k as int]);
        let item = match present_from_proto_exec(row, mode, d) {
            Ok(o) => o,
            Err(e) => {
                assert(present_from_proto(orig[k as int], mode, d) is None);
                assert(!all_presents_from_proto(orig, mode, d));
                return Err(e);
            },
        };
        out.push(item);
        k = k + 1;
        assert(rest@ =~= orig.subrange(k as int, n as int));
    }
    assert(out@ =~= presents_of_proto(orig, mode, d));
    Ok(out)
}

/// Whether every item reads.
pub open spec fn all_tms_from_proto(rows: Seq<OutputsTimeMachineRowProtoWire>, mode: RegimeOutputMode, d: bool) -> bool {
    forall|i: int| 0 <= i < rows.len() ==> (#[trigger] tm_from_proto(rows[i], mode, d)) is Some
}

/// The items the rows stand for, in order.
pub open spec fn tms_of_proto(rows: Seq<OutputsTimeMachineRowProtoWire>, mode: RegimeOutputMode, d: bool) -> Seq<TimeMachineRow> {
    Seq::new(rows.len(), |i: int| tm_from_proto(rows[i], mode, d).unwrap())
}

/// Protobuf `time_machine` rows as handed out.
pub fn tm_rows_from_proto(rows: Vec<OutputsTimeMachineRowProtoWire>, mode: RegimeOutputMode, d: bool) -> (r: Result<Vec<TimeMachineRow>, SdkError>)
    ensures
        all_tms_from_proto(rows@, mode, d) ==> (r matches Ok(v) && v@ == tms_of_proto(rows@, mode, d)),
        !all_tms_from_proto(rows@, mode, d) ==> r matches Err(SdkError::ContractDrift { .. }),
{
    let ghost orig = rows@;
    let mut rest = rows;
    let mut out: Vec<TimeMachineRow> = Vec::new();
    let n = rest.len();
    let mut k: usize = 0;
    while k < n
        invariant
            orig == rows@,
            n == orig.len(),
            k <= n,
            rest@ == orig.subrange(k as int, n as int),
            out@.len() == k,
            forall|i: int| 0 <= i < k ==> (#[trigger] tm_from_proto(orig[i], mode, d)) is Some,
            forall|i: int| 0 <= i < k ==> out@[i] == tm_from_proto(orig[i], mode, d).unwrap(),
        decreases n - k,
    {
        let row = rest.remove(0);
        assert(row == orig[k as int]);
        let item = match tm_from_proto_exec(row, mode, d) {
            Ok(o) => o,
            Err(e) => {
                assert(tm_from_proto(orig[k as int], mode, d) is None);
                assert(!all_tms_from_proto(orig, mode, d));
                return Err(e);
            },
        };
        out.push(item);
        k = k + 1;
        assert(rest@ =~= orig.subrange(k as int, n as int));
    }
    assert(out@ =~= tms_of_proto(orig, mode, d));
    Ok(out)
}

/// Which registry entries to list.
#[derive(Debug, Clone, PartialEq, Eq, Default)]
pub struct DocsRegistryRequest {
    pub family: Option<Vec<ProcessorFamily>>,
    pub group: Option<Vec<ProcessorGroup>>,
}

/// Paging and filters of the pair status listing.
#[derive(Debug, Clone, PartialEq, Default)]
pub struct PairsStatusRequest {
    pub after_pair: Option<String>,
    pub limit: Option<i64>,
    pub pairs: Option<Vec<String>>,
    pub filters: Option<Vec<String>>,
}

/// Paging of the pair catalogue.
#[derive(Debug, Clone, PartialEq, Eq, Default)]
pub struct PairsListRequest {
    pub after_pair: Option<String>,
    pub limit: Option<i64>,
    pub enabled_only: Option<bool>,
}

/// Bootstrap progress of a pair.
#[derive(Debug, Clone, PartialEq, Eq)]
pub struct PairStatusBootstrap {
    pub done: bool,
}

/// Run state of a pair.
#[derive(Debug, Clone, PartialEq, Eq)]
pub struct PairStatusStatusBlock {
    pub enabled: bool,
    pub run_state: String,
    pub last_error: Option<String>,
    pub initial_date_utc: String,
    pub bootstrap: PairStatusBootstrap,
}

/// History seeding state of a pair.
#[derive(Debug, Clone, PartialEq, Eq)]
pub struct PairStatusHistoryBlock {
    pub seed_enabled: Option<bool>,
    pub seed_done: Option<bool>,
    pub seed_state: Option<String>,
    pub seed_last_error: Option<String>,
}

/// Readiness of one timeframe.
#[derive(Debug, Clone, PartialEq, Eq)]
pub struct PairStatusReadinessCell {
    pub ready: bool,
    pub ready_at_utc: Option<String>,
}

/// Readiness of a pair on the one timeframe regime serves.
#[derive(Debug, Clone, PartialEq, Eq)]
pub struct PairStatusReadinessBlock {
    pub h1: PairStatusReadinessCell,
}

/// The status of one pair; the blocks the listing was filtered to, and the
/// coverage document as the service sent it.
#[derive(Debug, Clone, PartialEq, Eq)]
pub struct PairStatusRow {
    pub pair: String,
    pub status: Option<PairStatusStatusBlock>,
    pub history: Option<PairStatusHistoryBlock>,
    pub readiness: Option<PairStatusReadinessBlock>,
    pub coverage: Option<String>,
}

/// One page of the pair status listing.
#[derive(Debug, Clone, PartialEq, Eq)]
pub struct PairsStatusResponse {
    pub pairs: Vec<PairStatusRow>,
}

/// One page of the pair catalogue.
#[derive(Debug, Clone, PartialEq, Eq)]
pub struct PairsListResponse {
    pub pairs: Vec<String>,
    pub next_after_pair: Option<String>,
}

/// Which export files to list.
#[derive(Debug, Clone, PartialEq, Eq)]
pub struct FilesDownloadsRequest {
    pub period: Option<String>,
    pub pairs: Vec<String>,
    pub tfs: Vec<String>,
    pub start_label_utc: Option<String>,
    pub end_label_utc: Option<String>,
    pub order: Option<String>,
}

/// One downloadable export file.
#[derive(Debug, Clone, PartialEq, Eq)]
pub struct FilesDownloadsRow {
    pub period: String,
    pub pair: String,
    pub tf: String,
    pub label_utc: String,
    pub url: String,
    pub expires_at_utc: String,
}

/// The export files that matched.
#[derive(Debug, Clone, PartialEq, Eq)]
pub struct FilesDownloadsResponse {
    pub rows: Vec<FilesDownloadsRow>,
}

/// An export file written to local storage.
#[derive(Debug, Clone, PartialEq, Eq)]
pub struct DownloadedFile {
    pub row: FilesDownloadsRow,
    pub destination_path: String,
    pub bytes_written: u64,
}


/// A regime `latest` snapshot.
#[derive(Debug, Clone, PartialEq)]
pub struct LatestResponse {
    pub watermark_end_ms: i64,
    pub close_end_ms: i64,
    pub latest_mode: LatestMode,
    pub view: OutputView,
    pub rows: Vec<LatestPresentRow>,
    pub missing_pairs: Vec<String>,
}

/// A `latest` snapshot as the protobuf message carries it.
#[derive(Debug, Clone, PartialEq)]
pub struct OutputsLatestResponseProtoWire {
    pub watermark_end_ms: i64,
    pub close_end_ms: i64,
    pub latest_mode: String,
    pub view: ProtoOutputView,
    pub rows: Vec<OutputsPresentRowProtoWire>,
    pub missing_pairs: Vec<String>,
}

impl LatestResponse {
    /// A snapshot decoded from JSON: the declared view must be the one the
    /// mode implies, and every row carry metadata exactly as required.
    pub fn from_http(raw: Self, mode: RegimeOutputMode, diagnostics_enabled: bool) -> (r: Result<
        Self,
        SdkError,
    >)
        ensures
            (raw.view == expected_view(mode) && all_present_public(raw.rows@, mode_has_metadata(mode), diagnostics_enabled))
                <==> r is Ok,
            r matches Ok(p) ==> p.rows@ == presents_public(raw.rows@, mode_has_metadata(mode), diagnostics_enabled)
                && p.watermark_end_ms == raw.watermark_end_ms && p.close_end_ms == raw.close_end_ms
                && p.latest_mode == raw.latest_mode && p.view == raw.view && p.missing_pairs == raw.missing_pairs,
            r is Err ==> r matches Err(SdkError::ContractDrift { .. }),
    {
        ensure_latest_view_matches_mode(raw.view, mode, "latest outputs")?;
        let rows = present_rows_into_public(raw.rows, mode.has_metadata(), diagnostics_enabled)?;
        Ok(LatestResponse {
            watermark_end_ms: raw.watermark_end_ms,
            close_end_ms: raw.close_end_ms,
            latest_mode: raw.latest_mode,
            view: raw.view,
            rows,
            missing_pairs: raw.missing_pairs,
        })
    }

    /// The snapshot a protobuf message stands for.
    pub fn from_proto(response: OutputsLatestResponseProtoWire, mode: RegimeOutputMode, diagnostics_enabled: bool) -> (r:
        Result<Self, SdkError>)
        ensures
            mode_is_projected(mode) ==> r matches Err(SdkError::UnsupportedOrUnprovedUsage { .. }),
            !mode_is_projected(mode) ==> ((output_view_from_proto(response.view) == Some(expected_view(mode))
                && latest_mode_from_name(response.latest_mode@) is Some && all_presents_from_proto(
                response.rows@,
                mode,
                diagnostics_enabled,
            )) <==> r is Ok),
            r matches Ok(p) ==> p.rows@ == presents_of_proto(response.rows@, mode, diagnostics_enabled)
                && p.view == expected_view(mode) && p.close_end_ms == response.close_end_ms
                && p.watermark_end_ms == response.watermark_end_ms
                && Some(p.latest_mode) == latest_mode_from_name(response.latest_mode@)
                && p.missing_pairs == response.missing_pairs,
            !mode_is_projected(mode) && r is Err ==> r matches Err(SdkError::ContractDrift { .. }),
    {
        ensure_proto_output_mode_supported(mode, "latest outputs protobuf/gRPC")?;
        let view = OutputView::from_proto(response.view)?;
        ensure_latest_view_matches_mode(view, mode, "latest outputs")?;
        let latest_mode = LatestMode::from_proto(response.latest_mode.as_str())?;
        let rows = present_rows_from_proto(response.rows, mode, diagnostics_enabled)?;
        Ok(LatestResponse {
            watermark_end_ms: response.watermark_end_ms,
            close_end_ms: response.close_end_ms,
            latest_mode,
            view,
            rows,
            missing_pairs: response.missing_pairs,
        })
    }
}

/// One page of a regime `range` read.
#[derive(Debug, Clone, PartialEq)]
pub struct RangeResponse {
    pub rows: Vec<OutputRow>,
    pub close_end_ms: i64,
    pub next_cursor: Option<String>,
}

/// A `range` page as the protobuf message carries it.
#[derive(Debug, Clone, PartialEq)]
pub struct OutputsRangeResponseProtoWire {
    pub rows: Vec<OutputRowProtoWire>,
    pub close_end_ms: i64,
    pub next_cursor: Option<String>,
}

/// Every page a regime `range` traversal fetched.
#[derive(Debug, Clone, PartialEq)]
pub struct RangeTraverseResult {
    pub pages: Vec<RangeResponse>,
    pub pages_fetched: usize,
}

impl RangeResponse {
    /// The cursor of the next page, if any.
    pub fn next_cursor(&self) -> (r: Option<&str>)
        ensures
            match r {
                Some(c) => self.next_cursor matches Some(s) && c@ == s@,
                None => self.next_cursor is None,
            },
    {
        match &self.next_cursor {
            Some(s) => Some(s.as_str()),
            None => None,
        }
    }

    /// The end of the window this page belongs to.
    pub fn close_end_ms(&self) -> (r: i64)
        ensures
            r == self.close_end_ms,
    {
        self.close_end_ms
    }

    /// Whether this is the last page.
    pub fn done(&self) -> (r: bool)
        ensures
            r == self.next_cursor is None,
    {
        self.next_cursor.is_none()
    }

    /// A page decoded from JSON, every row carrying metadata exactly as
    /// required.
    pub fn from_http(raw: Self, mode: RegimeOutputMode, diagnostics_enabled: bool) -> (r: Result<Self, SdkError>)
        ensures
            all_rows_public(raw.rows@, mode_has_metadata(mode), diagnostics_enabled) <==> r is Ok,
            r matches Ok(p) ==> p.rows@ == rows_public(raw.rows@, mode_has_metadata(mode), diagnostics_enabled)
                && p.close_end_ms == raw.close_end_ms && p.next_cursor == raw.next_cursor,
            r is Err ==> r matches Err(SdkError::ContractDrift { .. }),
    {
        let rows = rows_into_public(raw.rows, mode.has_metadata(), diagnostics_enabled)?;
        Ok(RangeResponse { rows, close_end_ms: raw.close_end_ms, next_cursor: raw.next_cursor })
    }

    /// The page a protobuf message stands for.
    pub fn from_proto(response: OutputsRangeResponseProtoWire, mode: RegimeOutputMode, diagnostics_enabled: bool) -> (r:
        Result<Self, SdkError>)
        ensures
            mode_is_projected(mode) ==> r matches Err(SdkError::UnsupportedOrUnprovedUsage { .. }),
            !mode_is_projected(mode) ==> (all_rows_from_proto(response.rows@, mode, diagnostics_enabled) <==> r is Ok),
            r matches Ok(p) ==> p.rows@ == rows_of_proto(response.rows@, mode, diagnostics_enabled)
                && p.close_end_ms == response.close_end_ms && p.next_cursor == response.next_cursor,
            !mode_is_projected(mode) && r is Err ==> r matches Err(SdkError::ContractDrift { .. }),
    {
        ensure_proto_output_mode_supported(mode, "range outputs protobuf/gRPC")?;
        let rows = rows_from_proto(response.rows, mode, diagnostics_enabled)?;
        Ok(RangeResponse { rows, close_end_ms: response.close_end_ms, next_cursor: response.next_cursor })
    }
}

/// One page of a regime `search`.
#[derive(Debug, Clone, PartialEq)]
pub struct SearchResponse {
    pub hits: Vec<i64>,
    pub evaluated_rows: Option<Vec<OutputRow>>,
    pub next_cursor: Option<String>,
    pub done: bool,
    pub returned_hits: i64,
    pub effective_hits_limit: i64,
    pub truncated: bool,
    pub predicate_pairs: Vec<String>,
    pub predicate_normalized: String,
}

/// A `search` page as the protobuf message carries it.
#[derive(Debug, Clone, PartialEq)]
pub struct OutputsSearchResponseProtoWire {
    pub hits: Vec<i64>,
    pub evaluated_rows: Vec<OutputRowProtoWire>,
    pub next_cursor: Option<String>,
    pub done: bool,
    pub returned_hits: i64,
    pub effective_hits_limit: i64,
    pub truncated: bool,
    pub predicate_pairs: Vec<String>,
    pub predicate_normalized: String,
}

/// Every page a regime `search` traversal fetched.
#[derive(Debug, Clone, PartialEq)]
pub struct SearchTraverseResult {
    pub pages: Vec<SearchResponse>,
    pub pages_fetched: usize,
}

impl SearchResponse {
    /// The cursor of the next page, if any.
    pub fn next_cursor(&self) -> (r: Option<&str>)
        ensures
            match r {
                Some(c) => self.next_cursor matches Some(s) && c@ == s@,
                None => self.next_cursor is None,
            },
    {
        match &self.next_cursor {
            Some(s) => Some(s.as_str()),
            None => None,
        }
    }

    /// Whether the search is finished.
    pub fn done(&self) -> (r: bool)
        ensures
            r == self.done,
    {
        self.done
    }

    /// A page decoded from JSON, every evaluated row carrying metadata
    /// exactly as required.
    pub fn from_http(raw: Self, mode: RegimeOutputMode, diagnostics_enabled: bool) -> (r: Result<Self, SdkError>)
        ensures
            (match raw.evaluated_rows {
                Some(v) => all_rows_public(v@, mode_has_metadata(mode), diagnostics_enabled),
                None => true,
            }) <==> r is Ok,
            r matches Ok(p) ==> (match raw.evaluated_rows {
                Some(v) => p.evaluated_rows matches Some(w) && w@ == rows_public(v@, mode_has_metadata(mode), diagnostics_enabled),
                None => p.evaluated_rows is None,
            }) && p.hits == raw.hits && p.next_cursor == raw.next_cursor && p.done == raw.done
                && p.returned_hits == raw.returned_hits && p.effective_hits_limit == raw.effective_hits_limit
                && p.truncated == raw.truncated && p.predicate_pairs == raw.predicate_pairs
                && p.predicate_normalized == raw.predicate_normalized,
            r is Err ==> r matches Err(SdkError::ContractDrift { .. }),
    {
        let evaluated_rows = match raw.evaluated_rows {
            Some(rows) => Some(rows_into_public(rows, mode.has_metadata(), diagnostics_enabled)?),
            None => None,
        };
        Ok(SearchResponse {
            hits: raw.hits,
            evaluated_rows,
            next_cursor: raw.next_cursor,
            done: raw.done,
            returned_hits: raw.returned_hits,
            effective_hits_limit: raw.effective_hits_limit,
            truncated: raw.truncated,
            predicate_pairs: raw.predicate_pairs,
            predicate_normalized: raw.predicate_normalized,
        })
    }

    /// The page a protobuf message stands for. Evaluated rows are read only
    /// when the request named an evaluated pair.
    pub fn from_proto(
        response: OutputsSearchResponseProtoWire,
        mode: RegimeOutputMode,
        diagnostics_enabled: bool,
        evaluated_rows_enabled: bool,
    ) -> (r: Result<Self, SdkError>)
        ensures
            mode_is_projected(mode) ==> r matches Err(SdkError::UnsupportedOrUnprovedUsage { .. }),
            !mode_is_projected(mode) ==> ((if evaluated_rows_enabled {
                all_rows_from_proto(response.evaluated_rows@, mode, diagnostics_enabled)
            } else {
                response.evaluated_rows@.len() == 0
            }) <==> r is Ok),
            r matches Ok(p) ==> (if evaluated_rows_enabled {
                p.evaluated_rows matches Some(w) && w@ == rows_of_proto(response.evaluated_rows@, mode, diagnostics_enabled)
            } else {
                p.evaluated_rows is None
            }) && p.hits == response.hits && p.next_cursor == response.next_cursor && p.done == response.done
                && p.returned_hits == response.returned_hits && p.effective_hits_limit == response.effective_hits_limit
                && p.truncated == response.truncated && p.predicate_pairs == response.predicate_pairs
                && p.predicate_normalized == response.predicate_normalized,
            !mode_is_projected(mode) && r is Err ==> r matches Err(SdkError::ContractDrift { .. }),
    {
        ensure_proto_output_mode_supported(mode, "search outputs protobuf/gRPC")?;
        let evaluated_rows = if evaluated_rows_enabled {
            Some(rows_from_proto(response.evaluated_rows, mode, diagnostics_enabled)?)
        } else if response.evaluated_rows.len() == 0 {
            None
        } else {
            return Err(
                SdkError::contract_drift(
                    String::from_str(
                        "search outputs protobuf response returned `evaluated_rows` without `evaluate_pair` in the request",
                    ),
                ),
            );
        };
        Ok(SearchResponse {
            hits: response.hits,
            evaluated_rows,
            next_cursor: response.next_cursor,
            done: response.done,
            returned_hits: response.returned_hits,
            effective_hits_limit: response.effective_hits_limit,
            truncated: response.truncated,
            predicate_pairs: response.predicate_pairs,
            predicate_normalized: response.predicate_normalized,
        })
    }
}

/// One page of a regime `time_machine` read.
#[derive(Debug, Clone, PartialEq)]
pub struct TimeMachineResponse {
    pub rows: Vec<TimeMachineRow>,
    pub next_cursor: Option<String>,
    pub done: bool,
    pub returned_hits: i64,
    pub effective_hits_limit: i64,
    pub truncated: bool,
    pub predicate_pairs: Vec<String>,
    pub predicate_normalized: Option<String>,
}

/// A `time_machine` page as the protobuf message carries it.
#[derive(Debug, Clone, PartialEq)]
pub struct OutputsTimeMachineResponseProtoWire {
    pub rows: Vec<OutputsTimeMachineRowProtoWire>,
    pub next_cursor: Option<String>,
    pub done: bool,
    pub returned_hits: i64,
    pub effective_hits_limit: i64,
    pub truncated: bool,
    pub predicate_pairs: Vec<String>,
    pub predicate_normalized: Option<String>,
}

/// Every page a regime `time_machine` traversal fetched.
#[derive(Debug, Clone, PartialEq)]
pub struct TimeMachineTraverseResult {
    pub pages: Vec<TimeMachineResponse>,
    pub pages_fetched: usize,
}

impl TimeMachineResponse {
    /// The cursor of the next page, if any.
    pub fn next_cursor(&self) -> (r: Option<&str>)
        ensures
            match r {
                Some(c) => self.next_cursor matches Some(s) && c@ == s@,
                None => self.next_cursor is None,
            },
    {
        match &self.next_cursor {
            Some(s) => Some(s.as_str()),
            None => None,
        }
    }

    /// Whether the read is finished.
    pub fn done(&self) -> (r: bool)
        ensures
            r == self.done,
    {
        self.done
    }

    /// A page decoded from JSON, every row carrying metadata exactly as
    /// required.
    pub fn from_http(raw: Self, mode: RegimeOutputMode, diagnostics_enabled: bool) -> (r: Result<Self, SdkError>)
        ensures
            all_tm_public(raw.rows@, mode_has_metadata(mode), diagnostics_enabled) <==> r is Ok,
            r matches Ok(p) ==> p.rows@ == tms_public(raw.rows@, mode_has_metadata(mode), diagnostics_enabled)
                && p.next_cursor == raw.next_cursor && p.done == raw.done && p.returned_hits == raw.returned_hits
                && p.effective_hits_limit == raw.effective_hits_limit && p.truncated == raw.truncated
                && p.predicate_pairs == raw.predicate_pairs && p.predicate_normalized == raw.predicate_normalized,
            r is Err ==> r matches Err(SdkError::ContractDrift { .. }),
    {
        let rows = tm_rows_into_public(raw.rows, mode.has_metadata(), diagnostics_enabled)?;
        Ok(TimeMachineResponse {
            rows,
            next_cursor: raw.next_cursor,
            done: raw.done,
            returned_hits: raw.returned_hits,
            effective_hits_limit: raw.effective_hits_limit,
            truncated: raw.truncated,
            predicate_pairs: raw.predicate_pairs,
            predicate_normalized: raw.predicate_normalized,
        })
    }

    /// The page a protobuf message stands for.
    pub fn from_proto(response: OutputsTimeMachineResponseProtoWire, mode: RegimeOutputMode, diagnostics_enabled: bool) -> (r:
        Result<Self, SdkError>)
        ensures
            mode_is_projected(mode) ==> r matches Err(SdkError::UnsupportedOrUnprovedUsage { .. }),
            !mode_is_projected(mode) ==> (all_tms_from_proto(response.rows@, mode, diagnostics_enabled) <==> r is Ok),
            r matches Ok(p) ==> p.rows@ == tms_of_proto(response.rows@, mode, diagnostics_enabled)
                && p.next_cursor == response.next_cursor && p.done == response.done
                && p.returned_hits == response.returned_hits && p.effective_hits_limit == response.effective_hits_limit
                && p.truncated == response.truncated && p.predicate_pairs == response.predicate_pairs
                && p.predicate_normalized == response.predicate_normalized,
            !mode_is_projected(mode) && r is Err ==> r matches Err(SdkError::ContractDrift { .. }),
    {
        ensure_proto_output_mode_supported(mode, "time-machine outputs protobuf/gRPC")?;
        let rows = tm_rows_from_proto(response.rows, mode, diagnostics_enabled)?;
        Ok(TimeMachineResponse {
            rows,
            next_cursor: response.next_cursor,
            done: response.done,
            returned_hits: response.returned_hits,
            effective_hits_limit: response.effective_hits_limit,
            truncated: response.truncated,
            predicate_pairs: response.predicate_pairs,
            predicate_normalized: response.predicate_normalized,
        })
    }
}


/// A row read from protobuf keeps the wire row's pair, timeframe, times,
/// every price, volume and count under its own name, its metadata and its
/// computed fields; it reads exactly when both UTC stamps are present,
/// metadata is there exactly when the mode has it, and the computed values
/// are null or numbers. Diagnostics are kept exactly when asked for.
pub proof fn law_row_from_proto_keeps_wire_fields(w: OutputRowProtoWire, mode: RegimeOutputMode, d: bool)
    ensures
        row_from_proto(w, mode, d) is Some <==> (w.open_utc is Some && w.close_utc is Some
            && (w.metadata is Some == (mode == PrimitiveOutputMode::WithMeta || mode == PrimitiveOutputMode::ProjectedWithMeta))
            && values_allowed(w.computed.0@)),
        row_from_proto(w, mode, d) matches Some(r) ==> {
            &&& r.pair == w.pair && r.tf == w.tf && r.open_ms == w.open_ms && r.close_ms == w.close_ms && r.o == w.o && r.h == w.h && r.l == w.l && r.c == w.c && r.v == w.v && r.quote_v == w.quote_v && r.taker_known_v == w.taker_known_v && r.taker_signed_v == w.taker_signed_v && r.taker_known_quote_v == w.taker_known_quote_v && r.taker_signed_quote_v == w.taker_signed_quote_v && r.taker_known_n == w.taker_known_n && r.taker_signed_n == w.taker_signed_n && r.vw == w.vw && r.n == w.n && r.metadata == w.metadata && r.computed == w.computed
            &&& w.open_utc == Some(r.open_utc)
            &&& w.close_utc == Some(r.close_utc)
            &&& (d ==> r.diagnostics == Some(w.diagnostics))
            &&& (!d ==> r.diagnostics is None)
        },
{
}

/// A JSON row is handed out unchanged but for its diagnostics, which are
/// dropped unless asked for; it is refused when its metadata does not match
/// the request or a computed value is neither null nor a number.
pub proof fn law_row_public_keeps_fields(w: OutputRow, metadata_required: bool, d: bool)
    ensures
        row_public(w, metadata_required, d) is Some <==> (values_allowed(w.computed.0@)
            && w.metadata is Some == metadata_required),
        row_public(w, metadata_required, d) matches Some(r) ==> {
            &&& r.pair == w.pair && r.tf == w.tf && r.open_ms == w.open_ms && r.close_ms == w.close_ms && r.open_utc == w.open_utc && r.close_utc == w.close_utc && r.o == w.o && r.h == w.h && r.l == w.l && r.c == w.c && r.v == w.v && r.quote_v == w.quote_v && r.taker_known_v == w.taker_known_v && r.taker_signed_v == w.taker_signed_v && r.taker_known_quote_v == w.taker_known_quote_v && r.taker_signed_quote_v == w.taker_signed_quote_v && r.taker_known_n == w.taker_known_n && r.taker_signed_n == w.taker_signed_n && r.vw == w.vw && r.n == w.n && r.metadata == w.metadata && r.computed == w.computed
            &&& (d ==> r.diagnostics == w.diagnostics)
            &&& (!d ==> r.diagnostics is None)
        },
{
}

/// A `time_machine` row, read from protobuf or JSON, keeps its hit time and
/// offset.
pub proof fn law_time_machine_row_keeps_hit_and_offset(
    w: OutputsTimeMachineRowProtoWire,
    j: TimeMachineRow,
    mode: RegimeOutputMode,
    metadata_required: bool,
    d: bool,
)
    ensures
        tm_from_proto(w, mode, d) is Some <==> (w.output matches Some(o) && row_from_proto(o, mode, d) is Some),
        tm_from_proto(w, mode, d) matches Some(t) ==> (w.output matches Some(o) && t.hit_close_ms == w.hit_close_ms
            && t.offset == w.offset && row_from_proto(o, mode, d) == Some(t.row)),
        tm_public(j, metadata_required, d) matches Some(t) ==> (t.hit_close_ms == j.hit_close_ms
            && t.offset == j.offset && row_public(j.row, metadata_required, d) == Some(t.row)),
{
}


/// The mode a regime request implies: refused exactly when the metadata
/// family is selected without metadata; otherwise rows are projected exactly
/// when a family or group selector is given or `secondary` is not asked for,
/// and carry metadata exactly when it is asked for.
pub proof fn law_regime_mode(
    family: Option<Seq<Seq<char>>>,
    group: Option<Seq<Seq<char>>>,
    secondary: Option<bool>,
    metadata: Option<bool>,
)
    ensures
        regime_mode_spec(family, group, secondary, metadata) is None <==> ((family matches Some(f) && f.contains(
            "metadata"@,
        )) && metadata != Some(true)),
        regime_mode_spec(family, group, secondary, metadata) matches Some(m) ==> {
            &&& ((m == PrimitiveOutputMode::ProjectedMin || m == PrimitiveOutputMode::ProjectedWithMeta) <==> (
            (family matches Some(f) && f.len() > 0) || (group matches Some(g) && g.len() > 0) || secondary != Some(
                true,
            )))
            &&& ((m == PrimitiveOutputMode::WithMeta || m == PrimitiveOutputMode::ProjectedWithMeta) <==> metadata
                == Some(true))
        },
{
}


/// The wire body built from a `LatestRequest` keeps each of its values under the
/// same name, normalized as the wire wants it.
pub proof fn law_latest_request_wire_body_keeps_fields(req: LatestRequest, n: NormalizedLatestOutputsRequest)
    requires
        req.http_body_spec(n),
    ensures
        n.pairs.deep_view() == trimmed_nonblank(req.pairs.deep_view()),
        n.tf == req.tf,
        n.latest_mode == req.latest_mode,
        opt_family_names(n.family) == normalized_selectors(opt_family_names(req.family)),
        opt_deep(n.group) == normalized_selectors(opt_group_names(req.group)),
        n.secondary == req.secondary,
        n.metadata == req.metadata,
        n.diagnostics == req.diagnostics,
        n.format == req.format,
{
}

/// The gRPC body built from a `LatestGrpcRequest` keeps each of its values under the
/// same name, normalized as the wire wants it.
pub proof fn law_latest_grpc_request_grpc_body_keeps_fields(req: LatestGrpcRequest, n: NormalizedLatestOutputsGrpcRequest)
    requires
        req.proto_body_spec(n),
    ensures
        n.pairs.deep_view() == trimmed_nonblank(req.pairs.deep_view()),
        n.tf@ == timeframe_name(req.tf),
        n.latest_mode@ == latest_mode_name(match req.latest_mode { Some(m) => m, None => LatestMode::ExactWatermark }),
        n.metadata == (req.metadata == Some(true)),
        n.family.deep_view() == opt_names_or_empty(opt_family_names(req.family)),
        n.group.deep_view() == opt_names_or_empty(opt_group_names(req.group)),
        n.diagnostics == req.diagnostics,
        n.secondary == (req.secondary == Some(true)),
{
}

/// The wire body built from a `RangeRequest` keeps each of its values under the
/// same name, normalized as the wire wants it.
pub proof fn law_range_request_wire_body_keeps_fields(req: RangeRequest, n: NormalizedRangeOutputsRequest)
    requires
        req.http_body_spec(n),
    ensures
        n.pairs.deep_view() == trimmed_nonblank(req.pairs.deep_view()),
        n.tf == req.tf,
        n.align_mode == req.align_mode,
        n.close_start_ms == opt_time_input_ms(req.close_start).unwrap(),
        opt_string_view(n.cursor) == trimmed_nonblank_opt(opt_string_view(req.cursor)),
        n.close_end_ms == opt_time_input_ms(req.close_end).unwrap(),
        n.limit == req.limit,
        opt_family_names(n.family) == normalized_selectors(opt_family_names(req.family)),
        opt_deep(n.group) == normalized_selectors(opt_group_names(req.group)),
        n.secondary == req.secondary,
        n.metadata == req.metadata,
        n.diagnostics == req.diagnostics,
        n.format == req.format,
{
}

/// The gRPC body built from a `RangeGrpcRequest` keeps each of its values under the
/// same name, normalized as the wire wants it.
pub proof fn law_range_grpc_request_grpc_body_keeps_fields(req: RangeGrpcRequest, n: NormalizedRangeOutputsGrpcRequest)
    requires
        req.proto_body_spec(n),
    ensures
        n.pairs.deep_view() == trimmed_nonblank(req.pairs.deep_view()),
        n.tf@ == timeframe_name(req.tf),
        n.close_end_ms == or_zero(opt_time_input_ms(req.close_end).unwrap()),
        opt_string_view(n.cursor) == trimmed_nonblank_opt(opt_string_view(req.cursor)),
        n.limit == req.limit,
        n.metadata == (req.metadata == Some(true)),
        n.close_start_ms == or_zero(opt_time_input_ms(req.close_start).unwrap()),
        opt_string_view(n.align_mode) == opt_align_name(req.align_mode),
        n.family.deep_view() == opt_names_or_empty(opt_family_names(req.family)),
        n.group.deep_view() == opt_names_or_empty(opt_group_names(req.group)),
        n.diagnostics == req.diagnostics,
        n.secondary == (req.secondary == Some(true)),
{
}

/// The wire body built from a `SearchRequest` keeps each of its values under the
/// same name, normalized as the wire wants it.
pub proof fn law_search_request_wire_body_keeps_fields(req: SearchRequest, n: NormalizedSearchOutputsRequest)
    requires
        req.http_body_spec(n),
    ensures
        n.tf == req.tf,
        n.close_start_ms == time_input_ms(req.close_start).unwrap(),
        n.close_end_ms == opt_time_input_ms(req.close_end).unwrap(),
        opt_string_view(n.cursor) == trimmed_nonblank_opt(opt_string_view(req.cursor)),
        n.predicate@ == trim(req.predicate@),
        opt_string_view(n.evaluate_pair) == trimmed_nonblank_opt(opt_string_view(req.evaluate_pair)),
        opt_family_names(n.family) == normalized_selectors(opt_family_names(req.family)),
        opt_deep(n.group) == normalized_selectors(opt_group_names(req.group)),
        n.secondary == req.secondary,
        n.metadata == req.metadata,
        n.diagnostics == req.diagnostics,
        n.max_hits == req.max_hits,
        n.format == req.format,
{
}

/// The gRPC body built from a `SearchGrpcRequest` keeps each of its values under the
/// same name, normalized as the wire wants it.
pub proof fn law_search_grpc_request_grpc_body_keeps_fields(req: SearchGrpcRequest, n: NormalizedSearchOutputsGrpcRequest)
    requires
        req.proto_body_spec(n),
    ensures
        n.tf@ == timeframe_name(req.tf),
        n.close_start_ms == time_input_ms(req.close_start).unwrap(),
        n.close_end_ms == or_zero(opt_time_input_ms(req.close_end).unwrap()),
        opt_string_view(n.cursor) == trimmed_nonblank_opt(opt_string_view(req.cursor)),
        n.predicate@ == trim(req.predicate@),
        opt_string_view(n.evaluate_pair) == trimmed_nonblank_opt(opt_string_view(req.evaluate_pair)),
        n.metadata == (req.metadata == Some(true)),
        n.max_hits == req.max_hits,
        n.family.deep_view() == opt_names_or_empty(opt_family_names(req.family)),
        n.group.deep_view() == opt_names_or_empty(opt_group_names(req.group)),
        n.diagnostics == req.diagnostics,
        n.secondary == (req.secondary == Some(true)),
{
}

/// The wire body built from a `TimeMachineRequest` keeps each of its values under the
/// same name, normalized as the wire wants it.
pub proof fn law_time_machine_request_wire_body_keeps_fields(req: TimeMachineRequest, n: NormalizedTimeMachineOutputsRequest)
    requires
        req.http_body_spec(n),
    ensures
        n.tf == req.tf,
        n.close_start_ms == time_input_ms(req.close_start).unwrap(),
        n.close_end_ms == opt_time_input_ms(req.close_end).unwrap(),
        opt_string_view(n.cursor) == trimmed_nonblank_opt(opt_string_view(req.cursor)),
        opt_string_view(n.predicate) == trimmed_opt(opt_string_view(req.predicate)),
        same_opt_seq(n.hits, req.hits),
        opt_deep(n.output_pairs) == normalized_opt_pairs(req.output_pairs),
        opt_family_names(n.family) == normalized_selectors(opt_family_names(req.family)),
        opt_deep(n.group) == normalized_selectors(opt_group_names(req.group)),
        n.secondary == req.secondary,
        n.metadata == req.metadata,
        n.diagnostics == req.diagnostics,
        n.before_bars == req.before_bars,
        n.after_bars == req.after_bars,
        n.max_hits == req.max_hits,
        opt_string_view(n.overlap_mode) == trimmed_nonblank_opt(opt_string_view(req.overlap_mode)),
        n.format == req.format,
{
}

/// The gRPC body built from a `TimeMachineGrpcRequest` keeps each of its values under the
/// same name, normalized as the wire wants it.
pub proof fn law_time_machine_grpc_request_grpc_body_keeps_fields(req: TimeMachineGrpcRequest, n: NormalizedTimeMachineOutputsGrpcRequest)
    requires
        req.proto_body_spec(n),
    ensures
        n.tf@ == timeframe_name(req.tf),
        n.close_start_ms == time_input_ms(req.close_start).unwrap(),
        n.close_end_ms == or_zero(opt_time_input_ms(req.close_end).unwrap()),
        opt_string_view(n.cursor) == trimmed_nonblank_opt(opt_string_view(req.cursor)),
        opt_string_view(n.predicate) == trimmed_opt(opt_string_view(req.predicate)),
        n.hits@ == opt_i64s_or_empty(req.hits),
        n.output_pairs.deep_view() == opt_names_or_empty(normalized_opt_pairs(req.output_pairs)),
        n.metadata == (req.metadata == Some(true)),
        n.before_bars == req.before_bars,
        n.after_bars == req.after_bars,
        n.max_hits == req.max_hits,
        opt_string_view(n.overlap_mode) == trimmed_nonblank_opt(opt_string_view(req.overlap_mode)),
        n.family.deep_view() == opt_names_or_empty(opt_family_names(req.family)),
        n.group.deep_view() == opt_names_or_empty(opt_group_names(req.group)),
        n.diagnostics == req.diagnostics,
        n.secondary == (req.secondary == Some(true)),
{
}


/// A `latest` present row keeps its age, from JSON or protobuf, and its
/// row reads as a row does.
pub proof fn law_present_row_keeps_age(
    j: LatestPresentRow,
    w: OutputsPresentRowProtoWire,
    mode: RegimeOutputMode,
    metadata_required: bool,
    d: bool,
)
    ensures
        present_public(j, metadata_required, d) matches Some(p) ==> (p.age_ms == j.age_ms && row_public(
            j.row,
            metadata_required,
            d,
        ) == Some(p.row)),
        present_from_proto(w, mode, d) is Some <==> (w.output matches Some(o) && row_from_proto(o, mode, d) is Some
            && w.age_ms is Some),
        present_from_proto(w, mode, d) matches Some(p) ==> (w.output matches Some(o) && w.age_ms == Some(p.age_ms)
            && row_from_proto(o, mode, d) == Some(p.row)),
{
}

} // verus!
