use mathilde_sdk_rs::sdk_core::error::SdkError;
use mathilde_sdk_rs::sdk_core::time::TimeInput;
use mathilde_sdk_rs::systems::primitives::messages_ws::{
    unexpected_binary_frame, MessagesRecovery, MessagesRecoveryAction, MessagesRecoveryEvent,
    MessagesRecoveryPhase, MessagesWsSubscribeFrame, SubscriptionRegistry,
};
use mathilde_sdk_rs::streaming::subscription::{ExponentialBackoffConfig, ReconnectBackoff};
use mathilde_sdk_rs::systems::primitives::outputs_http::latest_outputs_request;
use mathilde_sdk_rs::systems::primitives::outputs_grpc::latest_outputs_grpc_request;
use mathilde_sdk_rs::systems::primitives::types::{
    infer_output_mode, LatestOutputsGrpcRequest, LatestOutputsRequest, OutputRow, OutputRowWire,
    OutputView, PrimitiveOutput, PrimitiveOutputMode, ProcessorFamily, ProcessorGroup,
    ProcessorOutputMin, OutputProcessDiagnostic, SearchOutputsRequest, TimeMachineOutputsRequest,
};
use mathilde_sdk_rs::systems::regime::outputs_ws::OutputsWsSubscribeRequest;
use mathilde_sdk_rs::systems::regime::types::{
    infer_output_mode as regime_infer_output_mode, LatestRequest, RangeRequest,
};
use mathilde_sdk_rs::systems::regime::pairs::csv_string_param;
use mathilde_sdk_rs::systems::types::{HttpFormat, LatestMode, Timeframe};

fn fam(names: &[&str]) -> Vec<ProcessorFamily> {
    names.iter().map(|n| ProcessorFamily(n.to_string())).collect()
}

fn latest(family: Option<Vec<ProcessorFamily>>, metadata: Option<bool>, format: Option<HttpFormat>) -> LatestOutputsRequest {
    LatestOutputsRequest {
        pairs: vec!["BTCUSDT".to_string()],
        tf: Timeframe::M1,
        latest_mode: Some(LatestMode::ExactWatermark),
        family,
        group: None,
        metadata,
        diagnostics: Some(false),
        format,
    }
}

#[test]
fn output_mode_follows_selectors_and_metadata() {
    assert_eq!(infer_output_mode(None, None, None).unwrap(), PrimitiveOutputMode::Min);
    assert_eq!(infer_output_mode(None, None, Some(true)).unwrap(), PrimitiveOutputMode::WithMeta);
    let f = fam(&["moving_averages"]);
    assert_eq!(infer_output_mode(Some(&f), None, None).unwrap(), PrimitiveOutputMode::ProjectedMin);
    let empty: Vec<ProcessorGroup> = vec![];
    assert_eq!(infer_output_mode(None, Some(&empty), None).unwrap(), PrimitiveOutputMode::Min);
    let m = fam(&["metadata"]);
    match infer_output_mode(Some(&m), None, Some(false)) {
        Err(SdkError::RequestBuild { message }) => {
            assert_eq!(message, "family=metadata requires metadata=true")
        }
        other => panic!("unexpected {:?}", other),
    }
    assert_eq!(infer_output_mode(Some(&m), None, Some(true)).unwrap(), PrimitiveOutputMode::ProjectedWithMeta);
}

#[test]
fn projected_protobuf_is_refused_over_http_and_grpc() {
    let req = latest(Some(fam(&["moving_averages"])), None, Some(HttpFormat::Protobuf));
    assert!(matches!(latest_outputs_request(&req), Err(SdkError::UnsupportedOrUnprovedUsage { .. })));
    let ok = latest(None, None, Some(HttpFormat::Protobuf));
    let plan = latest_outputs_request(&ok).unwrap();
    assert!(plan.protobuf);
    assert_eq!(plan.mode, PrimitiveOutputMode::Min);
    let g = LatestOutputsGrpcRequest::from_latest(&latest(Some(fam(&["x"])), None, None));
    assert!(matches!(latest_outputs_grpc_request(&g), Err(SdkError::UnsupportedOrUnprovedUsage { .. })));
}

#[test]
fn latest_grpc_body_defaults() {
    let mut req = latest(None, None, None);
    req.latest_mode = None;
    let body = LatestOutputsGrpcRequest::from_latest(&req).to_proto().unwrap();
    assert_eq!(body.latest_mode, "exact_watermark");
    assert_eq!(body.tf, "1m");
    assert!(!body.metadata);
    assert!(body.family.is_empty());
}

#[test]
fn search_http_checks_predicate_before_times() {
    let req = SearchOutputsRequest {
        tf: Timeframe::M1,
        close_start: TimeInput::Utc("bad".to_string()),
        close_end: None,
        cursor: Some("  ".to_string()),
        predicate: "  ".to_string(),
        evaluate_pair: None,
        family: None,
        group: None,
        metadata: None,
        diagnostics: None,
        max_hits: None,
        format: None,
    };
    match req.normalize_http() {
        Err(SdkError::RequestBuild { message }) => {
            assert_eq!(message, "search outputs predicate must not be blank")
        }
        other => panic!("unexpected {:?}", other),
    }
    let mut ok = req.clone();
    ok.predicate = " c > o ".to_string();
    ok.close_start = TimeInput::Ms(0);
    let n = ok.normalize_http().unwrap();
    assert_eq!(n.predicate, "c > o");
    assert_eq!(n.cursor, None);
}

#[test]
fn time_machine_output_pairs_normalize() {
    let req = TimeMachineOutputsRequest {
        tf: Timeframe::M1,
        close_start: TimeInput::Ms(0),
        close_end: Some(TimeInput::Ms(60_000)),
        cursor: None,
        predicate: None,
        hits: Some(vec![1, 2]),
        output_pairs: Some(vec![" ".to_string()]),
        family: None,
        group: None,
        metadata: None,
        diagnostics: None,
        before_bars: Some(2),
        after_bars: None,
        max_hits: None,
        overlap_mode: Some(" merge ".to_string()),
        format: None,
    };
    let n = req.normalize_http().unwrap();
    assert_eq!(n.output_pairs, None);
    assert_eq!(n.overlap_mode.as_deref(), Some("merge"));
    assert_eq!(n.close_end_ms, Some(60_000));
}

fn min_output(diag: bool) -> PrimitiveOutput {
    PrimitiveOutput::Min(ProcessorOutputMin {
        row: OutputRow {
            pair: "BTCUSDT".to_string(),
            open_utc: "a".to_string(),
            close_utc: "b".to_string(),
            computed: vec![("x".to_string(), 1.0f64.to_bits())],
        },
        diagnostics: if diag { Some(vec![OutputProcessDiagnostic { json: "{}".to_string() }]) } else { None },
    })
}

#[test]
fn diagnostics_gate() {
    let o = min_output(true);
    assert!(o.diagnostics().is_some());
    assert!(o.metadata().is_none());
    assert!(!o.is_projected());
    let kept = o.clone().apply_diagnostics_gate(true);
    assert_eq!(kept, o);
    let dropped = o.apply_diagnostics_gate(false);
    assert!(dropped.diagnostics().is_none());
    assert_eq!(dropped, min_output(false));
}

#[test]
fn proto_rows_need_timestamps_and_refuse_projection() {
    let wire = OutputRowWire {
        pair: "BTCUSDT".to_string(),
        open_utc: Some("a".to_string()),
        close_utc: None,
        computed: vec![],
        metadata: None,
        diagnostics: None,
    };
    match PrimitiveOutput::from_proto_row(wire.clone(), PrimitiveOutputMode::Min, false) {
        Err(SdkError::ContractDrift { message }) => {
            assert_eq!(message, "primitives outputs protobuf row missing `close_utc`")
        }
        other => panic!("unexpected {:?}", other),
    }
    assert!(matches!(
        PrimitiveOutput::from_proto_row(wire.clone(), PrimitiveOutputMode::ProjectedMin, false),
        Err(SdkError::UnsupportedOrUnprovedUsage { .. })
    ));
    let mut full = wire;
    full.close_utc = Some("b".to_string());
    assert!(matches!(
        PrimitiveOutput::from_proto_row(full.clone(), PrimitiveOutputMode::WithMeta, false),
        Err(SdkError::ContractDrift { .. })
    ));
    let o = PrimitiveOutput::from_proto_row(full, PrimitiveOutputMode::Min, false).unwrap();
    assert_eq!(o.mode(), PrimitiveOutputMode::Min);
    assert_eq!(OutputView::Full.as_str(), "full");
}

fn regime_latest(tf: Timeframe, secondary: Option<bool>) -> LatestRequest {
    LatestRequest {
        pairs: vec!["BTCUSDT".to_string()],
        tf,
        latest_mode: None,
        family: None,
        group: None,
        secondary,
        metadata: None,
        diagnostics: None,
        format: None,
    }
}

#[test]
fn regime_serves_one_hour_only() {
    match regime_latest(Timeframe::M1, Some(true)).validate() {
        Err(SdkError::UnsupportedOrUnprovedUsage { message }) => {
            assert_eq!(message, "latest outputs supports tf=1h only in regime v1")
        }
        other => panic!("unexpected {:?}", other),
    }
    assert!(regime_latest(Timeframe::H1, Some(true)).validate().is_ok());
    let r = RangeRequest {
        pairs: vec!["BTCUSDT".to_string()],
        tf: Timeframe::D1,
        align_mode: None,
        close_start: None,
        cursor: None,
        close_end: None,
        limit: None,
        family: None,
        group: None,
        secondary: None,
        metadata: None,
        diagnostics: None,
        format: None,
    };
    assert!(matches!(r.normalize_http(), Err(SdkError::UnsupportedOrUnprovedUsage { .. })));
}

#[test]
fn regime_secondary_decides_projection() {
    assert_eq!(regime_infer_output_mode(None, None, Some(true), None).unwrap(), PrimitiveOutputMode::Min);
    assert_eq!(regime_infer_output_mode(None, None, None, None).unwrap(), PrimitiveOutputMode::ProjectedMin);
    assert_eq!(
        regime_latest(Timeframe::H1, Some(true)).output_mode().unwrap(),
        PrimitiveOutputMode::Min
    );
}

#[test]
fn regime_ws_subscribe_checks() {
    let req = OutputsWsSubscribeRequest {
        pairs: vec!["BTCUSDT".to_string()],
        tfs: vec![Timeframe::H1, Timeframe::M5],
        metadata: None,
        diagnostics: None,
        family: None,
        group: None,
        secondary: Some(true),
        from_close: None,
        last_n_bars: None,
        format: None,
    };
    match req.normalize() {
        Err(SdkError::UnsupportedOrUnprovedUsage { message }) => {
            assert_eq!(message, "outputs ws subscribe supports tf=1h only in regime v1")
        }
        other => panic!("unexpected {:?}", other),
    }
    let mut ok = req.clone();
    ok.tfs = vec![Timeframe::H1];
    let n = ok.normalize().unwrap();
    assert_eq!(n.tfs, vec!["1h".to_string()]);
    assert!(!n.metadata);
}

#[test]
fn regime_pairs_csv() {
    assert_eq!(csv_string_param(&Some(vec![" A ".to_string(), "".to_string(), "B".to_string()])), Some("A,B".to_string()));
    assert_eq!(csv_string_param(&Some(vec![" ".to_string()])), None);
    assert_eq!(csv_string_param(&None), None);
}

fn sub(id: &str) -> MessagesWsSubscribeFrame {
    MessagesWsSubscribeFrame {
        id: id.to_string(),
        tfs: None,
        predicate: "c > o".to_string(),
        message: format!("hit {id}"),
        payload: None,
    }
}

#[test]
fn subscription_registry_keeps_ids_sorted_and_unique() {
    let mut r = SubscriptionRegistry::new();
    r.insert(sub("b"));
    r.insert(sub("a"));
    r.insert(sub("c"));
    let mut replaced = sub("b");
    replaced.predicate = "v > 0".to_string();
    r.insert(replaced);
    assert_eq!(r.ids(), vec!["a".to_string(), "b".to_string(), "c".to_string()]);
    assert_eq!(r.len(), 3);
    assert_eq!(r.frames()[1].predicate, "v > 0");
    r.remove("b");
    assert_eq!(r.ids(), vec!["a".to_string(), "c".to_string()]);
    r.remove("zzz");
    assert_eq!(r.len(), 2);
}

#[test]
fn binary_messages_frame_is_drift() {
    match unexpected_binary_frame() {
        SdkError::ContractDrift { message } => {
            assert_eq!(message, "messages ws server sent unexpected binary frame")
        }
        other => panic!("unexpected {:?}", other),
    }
}

#[test]
fn time_machine_plan_sends_the_normalized_body() {
    let req = TimeMachineOutputsRequest {
        tf: Timeframe::M1,
        close_start: TimeInput::Ms(0),
        close_end: Some(TimeInput::Ms(60_000)),
        cursor: Some(" c1 ".to_string()),
        predicate: Some(" c > o ".to_string()),
        hits: Some(vec![5]),
        output_pairs: Some(vec![" ETHUSDT ".to_string()]),
        family: None,
        group: None,
        metadata: None,
        diagnostics: Some(true),
        before_bars: Some(2),
        after_bars: Some(7),
        max_hits: Some(9),
        overlap_mode: None,
        format: None,
    };
    let plan = mathilde_sdk_rs::systems::primitives::outputs_http::time_machine_outputs_request(&req).unwrap();
    assert_eq!(plan.body, req.normalize_http().unwrap());
    assert_eq!(plan.body.before_bars, Some(2));
    assert_eq!(plan.body.after_bars, Some(7));
    assert_eq!(plan.body.cursor.as_deref(), Some("c1"));
    assert_eq!(plan.body.predicate.as_deref(), Some("c > o"));
    assert_eq!(plan.body.output_pairs, Some(vec!["ETHUSDT".to_string()]));
    assert!(plan.diagnostics_enabled);
}

#[test]
fn grpc_latest_plan_sends_the_proto_body() {
    let g = LatestOutputsGrpcRequest::from_latest(&latest(None, Some(true), None));
    let plan = latest_outputs_grpc_request(&g).unwrap();
    assert_eq!(plan.body, g.to_proto().unwrap());
    assert!(plan.body.metadata);
    assert_eq!(plan.body.pairs, vec!["BTCUSDT".to_string()]);
    assert_eq!(plan.mode, PrimitiveOutputMode::WithMeta);
}

#[test]
fn reconnect_sends_every_subscription_before_reading() {
    let backoff = ReconnectBackoff::new(ExponentialBackoffConfig::default_config()).unwrap();
    let mut rec = MessagesRecovery::new(backoff);
    rec.subscribe(sub("b"));
    rec.subscribe(sub("a"));
    assert_eq!(rec.on_event(MessagesRecoveryEvent::Frame), MessagesRecoveryAction::Deliver);
    match rec.on_event(MessagesRecoveryEvent::StreamEnded) {
        MessagesRecoveryAction::Wait(step) => assert_eq!(step.attempt, 1),
        other => panic!("unexpected {:?}", other),
    }
    assert_eq!(rec.next_attempt(), 2);
    assert_eq!(rec.on_event(MessagesRecoveryEvent::Frame), MessagesRecoveryAction::Ignore);
    assert_eq!(rec.on_event(MessagesRecoveryEvent::WaitDone), MessagesRecoveryAction::Connect);
    assert_eq!(rec.on_event(MessagesRecoveryEvent::Connected), MessagesRecoveryAction::Send { index: 0 });
    assert_eq!(rec.frames()[0].id, "a");
    assert_eq!(rec.on_event(MessagesRecoveryEvent::FrameSent), MessagesRecoveryAction::Send { index: 1 });
    assert_eq!(rec.frames()[1].id, "b");
    assert_eq!(rec.on_event(MessagesRecoveryEvent::FrameSent), MessagesRecoveryAction::Resume);
    assert_eq!(rec.phase(), MessagesRecoveryPhase::Live);
    assert_eq!(rec.next_attempt(), 1);
    assert_eq!(rec.ids(), vec!["a".to_string(), "b".to_string()]);
}
