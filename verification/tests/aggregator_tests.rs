use mathilde_sdk_rs::sdk_core::error::SdkError;
use mathilde_sdk_rs::sdk_core::time::TimeInput;
use mathilde_sdk_rs::systems::aggregator::bars::{
    Bar, BarMetadata, BarMetadataWire, BarRowWire, BarsLatestResponseWire, BarsPresentRowWire,
    BarsRangeResponseWire, LatestResponse, ProtoBarsView, RangeResponse,
};
use mathilde_sdk_rs::systems::aggregator::bars_http::range_bars_response;
use mathilde_sdk_rs::systems::aggregator::bars_ws::{
    decode_binary_frame, decode_text_frame, BarsRowsPayloadWire, BarsTextFrameReadings, BarsWsErrorFrame, BarsWsFormat, BarsWsInboundFrame,
    BarsWsMetaFrame, BarsWsPhase, BarsWsSubscribeRequest,
};
use mathilde_sdk_rs::systems::aggregator::client::Aggregator;
use mathilde_sdk_rs::systems::aggregator::files::{
    destination_components, sanitize_path_component,
};
use mathilde_sdk_rs::systems::aggregator::types::{
    FilesDownloadsRequest, FilesDownloadsRow, LatestRequest, RangeGrpcRequest, RangeRequest,
    SearchRequest,
};
use mathilde_sdk_rs::sdk_core::config::AggregatorConfig;
use mathilde_sdk_rs::systems::types::{AlignMode, BarsView, HttpBody, HttpFormat, LatestMode, Timeframe};
use mathilde_sdk_rs::systems::compute_proto::extract_numeric_computed_fields_from_message;

fn pairs(v: &[&str]) -> Vec<String> {
    v.iter().map(|s| s.to_string()).collect()
}

fn range_request(close_end: Option<TimeInput>) -> RangeRequest {
    RangeRequest {
        pairs: pairs(&["BTCUSDT"]),
        tf: Timeframe::M1,
        align_mode: Some(AlignMode::Exact),
        close_start: Some(TimeInput::Utc("2026-02-02T00:00:00Z".to_string())),
        cursor: None,
        close_end,
        limit: Some(1000),
        metadata: Some(false),
        format: Some(HttpFormat::Json),
    }
}

fn wire_bar(pair: &str) -> BarRowWire {
    BarRowWire {
        pair: pair.to_string(),
        tf: "1m".to_string(),
        s_ms: 0,
        e_ms: 60_000,
        s_utc: Some("1970-01-01T00:00:00Z".to_string()),
        e_utc: Some("1970-01-01T00:01:00Z".to_string()),
        o: 1.0f64.to_bits(),
        h: 2.0f64.to_bits(),
        l: 0.5f64.to_bits(),
        c: 1.5f64.to_bits(),
        v: 10.0f64.to_bits(),
        quote_v: None,
        taker_known_v: None,
        taker_signed_v: None,
        taker_known_quote_v: None,
        taker_signed_quote_v: None,
        taker_known_n: None,
        taker_signed_n: None,
        vw: None,
        n: Some(3),
        metadata: None,
    }
}

fn wire_metadata() -> BarMetadataWire {
    BarMetadataWire {
        source: "frontier".to_string(),
        process: None,
        venues_expected: vec![],
        venues_with_trades: vec!["binance".to_string()],
        ingested_at_ms: None,
        ingested_at_utc: None,
        target_ingested_at_ms: None,
        target_ingested_at_utc: None,
        built_at_ms: None,
        built_at_utc: None,
        committed_at_ms: None,
        committed_at_utc: None,
        harmonized_at_ms: None,
        harmonized_at_utc: None,
        recomputed_at_ms: None,
        recomputed_at_utc: None,
        recomputed_reason: None,
        covered_1m_count: None,
        expected_1m_count: None,
        coverage_ratio_bits: None,
        inputs_source_counts_frontier: None,
        inputs_source_counts_api: None,
        inputs_source_counts_synthetic: None,
        inputs_source_counts_fix_data: None,
        frontier_5s_inputs_coverage_ratio_bits: None,
        frontier_5s_expected: None,
        frontier_5s_synth_n: None,
        frontier_5s_synth_ratio_bits: None,
        frontier_5s_trade_n: None,
        frontier_5s_trade_ratio_bits: None,
    }
}

#[test]
fn latest_request_normalizes_pairs() {
    let req = LatestRequest {
        pairs: pairs(&[" BTCUSDT ", "", "ETHUSDT"]),
        tf: Timeframe::M1,
        latest_mode: LatestMode::ExactWatermark,
        metadata: Some(false),
        format: Some(HttpFormat::Json),
    };
    let n = req.normalize().unwrap();
    assert_eq!(n.pairs, pairs(&["BTCUSDT", "ETHUSDT"]));
}

#[test]
fn latest_request_without_pairs_is_refused() {
    let req = LatestRequest {
        pairs: pairs(&["  "]),
        tf: Timeframe::M1,
        latest_mode: LatestMode::ExactWatermark,
        metadata: None,
        format: None,
    };
    match req.normalize() {
        Err(SdkError::RequestBuild { message }) => {
            assert_eq!(message, "latest bars requires at least one pair")
        }
        other => panic!("unexpected {:?}", other),
    }
}

#[test]
fn range_request_converts_times() {
    let n = range_request(Some(TimeInput::Ms(1770012000000))).normalize().unwrap();
    assert_eq!(n.close_start_ms, Some(1769990400000));
    assert_eq!(n.close_end_ms, Some(1770012000000));
    let g = RangeGrpcRequest::from_range(&range_request(None)).normalize().unwrap();
    assert_eq!(g.close_end_ms, 0);
    assert!(!g.metadata);
}

#[test]
fn range_pager_freezes_omitted_close_end() {
    let client = Aggregator::new(AggregatorConfig::mathilde_public_default(None).unwrap()).unwrap();
    let mut pager = client.range_call(range_request(None)).pager().unwrap();
    assert!(pager.pending_request().unwrap().close_end.is_none());
    pager.record_page(1770012000000, Some("c1"), false).unwrap();
    let next = pager.pending_request().unwrap();
    assert_eq!(next.close_end, Some(TimeInput::Ms(1770012000000)));
    assert_eq!(next.cursor.as_deref(), Some("c1"));
    pager.record_page(1999999999999, Some("c2"), false).unwrap();
    assert_eq!(pager.pending_request().unwrap().close_end, Some(TimeInput::Ms(1770012000000)));
    pager.record_page(1770012000000, None, true).unwrap();
    assert!(pager.pending_request().is_none());
    assert_eq!(pager.pages_fetched(), 3);
    pager.record_page(1, Some("late"), false).unwrap();
    assert!(pager.pending_request().is_none());
    assert_eq!(pager.pages_fetched(), 3);
}

#[test]
fn search_pager_needs_close_end() {
    let client = Aggregator::client(None).unwrap();
    let req = SearchRequest {
        tf: Timeframe::M1,
        close_start: TimeInput::Ms(0),
        close_end: None,
        cursor: None,
        predicate: "c > o".to_string(),
        evaluate_pair: None,
        metadata: None,
        max_hits: None,
        format: None,
    };
    match client.search_call(req).pager() {
        Err(SdkError::UnsupportedOrUnprovedUsage { message }) => {
            assert_eq!(message, "search traversal requires explicit close_end")
        }
        Err(other) => panic!("unexpected {:?}", other),
        Ok(_) => panic!("expected a refusal"),
    }
}

#[test]
fn bar_from_proto_reads_row() {
    let bar = Bar::from_proto(wire_bar("BTCUSDT")).unwrap();
    assert_eq!(bar.pair, "BTCUSDT");
    assert_eq!(bar.tf, Timeframe::M1);
    assert_eq!(f64::from_bits(bar.c), 1.5);
    assert!(bar.age_ms.is_none());
}

#[test]
fn bar_from_proto_refuses_unknown_timeframe_and_missing_times() {
    let mut w = wire_bar("X");
    w.tf = "2m".to_string();
    match Bar::from_proto(w) {
        Err(SdkError::ContractDrift { message }) => assert_eq!(message, "unsupported timeframe `2m`"),
        other => panic!("unexpected {:?}", other),
    }
    let mut w = wire_bar("X");
    w.s_utc = None;
    match Bar::from_proto(w) {
        Err(SdkError::ContractDrift { message }) => {
            assert_eq!(message, "bar protobuf row missing `s_utc`")
        }
        other => panic!("unexpected {:?}", other),
    }
}

#[test]
fn bar_metadata_empty_lists_become_absent() {
    let m = BarMetadata::from_proto(wire_metadata());
    assert_eq!(m.venues_expected, None);
    assert_eq!(m.venues_with_trades, Some(vec!["binance".to_string()]));
}

#[test]
fn range_proto_checks_metadata_shape() {
    let page = RangeResponse::from_proto(
        BarsRangeResponseWire { rows: vec![wire_bar("A")], close_end_ms: 5, next_cursor: None },
        false,
    )
    .unwrap();
    assert!(page.done());
    assert_eq!(page.close_end_ms(), 5);
    match RangeResponse::from_proto(
        BarsRangeResponseWire { rows: vec![wire_bar("A")], close_end_ms: 5, next_cursor: None },
        true,
    ) {
        Err(SdkError::ContractDrift { message }) => {
            assert_eq!(message, "range bars response row missing `metadata`")
        }
        other => panic!("unexpected {:?}", other),
    }
}

#[test]
fn range_json_reply_with_unexpected_metadata_is_refused() {
    let mut bar = Bar::from_proto(wire_bar("A")).unwrap();
    bar.metadata = Some(BarMetadata::from_proto(wire_metadata()));
    let raw = RangeResponse { rows: vec![bar], close_end_ms: 1, next_cursor: Some("n".to_string()) };
    match range_bars_response(Some(false), HttpBody::Json(raw)) {
        Err(SdkError::ContractDrift { message }) => {
            assert_eq!(message, "range bars response row unexpectedly included `metadata`")
        }
        other => panic!("unexpected {:?}", other),
    }
}

#[test]
fn latest_proto_needs_age_and_view() {
    let ok = LatestResponse::from_proto(BarsLatestResponseWire {
        watermark_end_ms: 10,
        close_end_ms: 9,
        latest_mode: "exact_watermark".to_string(),
        view: ProtoBarsView::Min,
        rows: vec![BarsPresentRowWire { bar: Some(wire_bar("A")), age_ms: Some(7) }],
        missing_pairs: vec![],
    })
    .unwrap();
    assert_eq!(ok.rows[0].age_ms, Some(7));
    assert_eq!(ok.latest_mode, LatestMode::ExactWatermark);
    let unspecified = LatestResponse::from_proto(BarsLatestResponseWire {
        watermark_end_ms: 10,
        close_end_ms: 9,
        latest_mode: "exact_watermark".to_string(),
        view: ProtoBarsView::Unspecified,
        rows: vec![],
        missing_pairs: vec![],
    });
    assert!(matches!(unspecified, Err(SdkError::ContractDrift { .. })));
    let no_age = LatestResponse::from_proto(BarsLatestResponseWire {
        watermark_end_ms: 10,
        close_end_ms: 9,
        latest_mode: "exact_watermark".to_string(),
        view: ProtoBarsView::Min,
        rows: vec![BarsPresentRowWire { bar: Some(wire_bar("A")), age_ms: None }],
        missing_pairs: vec![],
    });
    match no_age {
        Err(SdkError::ContractDrift { message }) => {
            assert_eq!(message, "latest bars protobuf row missing `age_ms`")
        }
        other => panic!("unexpected {:?}", other),
    }
}

fn ws_request() -> BarsWsSubscribeRequest {
    BarsWsSubscribeRequest {
        pairs: pairs(&["BTCUSDT"]),
        tfs: vec![Timeframe::M1, Timeframe::H1],
        metadata: None,
        from_close: None,
        last_n_bars: Some(5),
        format: None,
    }
}

#[test]
fn bars_ws_subscribe_normalizes() {
    let n = ws_request().normalize().unwrap();
    assert_eq!(n.tfs, vec!["1m".to_string(), "1h".to_string()]);
    assert!(!n.metadata);
    assert_eq!(n.format, BarsWsFormat::Json);
    assert_eq!(n.format.as_str(), "json");
}

#[test]
fn bars_ws_subscribe_refusals() {
    let mut both = ws_request();
    both.from_close = Some(TimeInput::Ms(0));
    match both.normalize() {
        Err(SdkError::RequestBuild { message }) => assert_eq!(
            message,
            "bars ws subscribe accepts `from_close` or `last_n_bars`, not both"
        ),
        other => panic!("unexpected {:?}", other),
    }
    let mut zero = ws_request();
    zero.last_n_bars = Some(0);
    assert!(matches!(zero.normalize(), Err(SdkError::RequestBuild { .. })));
    let mut no_tf = ws_request();
    no_tf.tfs = vec![];
    match no_tf.normalize() {
        Err(SdkError::RequestBuild { message }) => {
            assert_eq!(message, "bars ws subscribe requires at least one timeframe")
        }
        other => panic!("unexpected {:?}", other),
    }
}

#[test]
fn bars_ws_text_frames_classify() {
    let err = decode_text_frame(
        BarsTextFrameReadings {
            as_error: Some(BarsWsErrorFrame { kind: "auth".to_string(), error: "denied".to_string() }),
            as_meta: None,
            as_rows: None,
        },
        &ws_request(),
    )
    .unwrap();
    assert!(matches!(err, BarsWsInboundFrame::Error(_)));
    let meta = BarsWsMetaFrame {
        tf: None,
        close_ms: None,
        watermark_end_ms: 1,
        phase: BarsWsPhase::Replay,
        missing_pairs: vec![],
        event: Some("replay_done".to_string()),
    };
    assert!(meta.is_replay_done());
    let frame = decode_text_frame(
        BarsTextFrameReadings {
            as_error: Some(BarsWsErrorFrame { kind: String::new(), error: String::new() }),
            as_meta: Some(meta),
            as_rows: None,
        },
        &ws_request(),
    )
    .unwrap();
    assert!(matches!(frame, BarsWsInboundFrame::Meta(_)));
}

#[test]
fn path_components_are_sanitized() {
    assert_eq!(sanitize_path_component("BTC/USDT 1m"), "BTC_USDT_1m");
    let row = FilesDownloadsRow {
        period: "2026-02".to_string(),
        pair: "BTCUSDT".to_string(),
        tf: "1m".to_string(),
        label_utc: "2026-02-01T00:00:00Z".to_string(),
        url: "https://example.invalid/x".to_string(),
        expires_at_utc: "2026-02-03T00:00:00Z".to_string(),
    };
    assert_eq!(
        destination_components(&row),
        vec![
            "2026-02".to_string(),
            "BTCUSDT".to_string(),
            "1m".to_string(),
            "2026-02-01T00_00_00Z.parquet".to_string()
        ]
    );
}

#[test]
fn files_request_needs_pairs() {
    let req = FilesDownloadsRequest {
        period: None,
        pairs: pairs(&[" "]),
        tfs: vec!["1m".to_string()],
        start_label_utc: None,
        end_label_utc: None,
        order: None,
    };
    assert!(matches!(req.normalize(), Err(SdkError::RequestBuild { .. })));
}

#[test]
fn computed_fields_are_read_from_protobuf() {
    // field 21 (fixed64) = 1.5, field 3 (varint) = 7, field 22 (fixed64) = -2.0
    let mut bytes: Vec<u8> = vec![(21 << 3 | 1) as u8, 1];
    bytes.extend_from_slice(&1.5f64.to_bits().to_le_bytes());
    bytes.extend_from_slice(&[(3 << 3) as u8, 7]);
    bytes.extend_from_slice(&[(22 << 3 | 1) as u8, 1]);
    bytes.extend_from_slice(&(-2.0f64).to_bits().to_le_bytes());
    let names = vec!["ma_ema_p20".to_string(), "ma_sma_p20".to_string()];
    let fields = extract_numeric_computed_fields_from_message(&bytes, &names, 21, "outputs row").unwrap();
    assert_eq!(fields.len(), 2);
    assert_eq!(fields[0].0, "ma_ema_p20");
    assert_eq!(f64::from_bits(fields[0].1), 1.5);
    assert_eq!(f64::from_bits(fields[1].1), -2.0);
}

#[test]
fn non_finite_computed_field_is_refused() {
    let mut bytes: Vec<u8> = vec![(21 << 3 | 1) as u8, 1];
    bytes.extend_from_slice(&f64::NAN.to_bits().to_le_bytes());
    let names = vec!["x".to_string()];
    match extract_numeric_computed_fields_from_message(&bytes, &names, 21, "outputs row") {
        Err(SdkError::ContractDrift { message }) => {
            assert_eq!(message, "outputs row computed field `x` was non-finite")
        }
        other => panic!("unexpected {:?}", other),
    }
}

fn proto_failure(bytes: &[u8]) -> String {
    let names = vec!["x".to_string()];
    match extract_numeric_computed_fields_from_message(&bytes.to_vec(), &names, 21, "row") {
        Err(SdkError::ContractDrift { message }) => message,
        other => panic!("unexpected {:?}", other),
    }
}

#[test]
fn protobuf_read_failures_are_named() {
    // field 21 as a varint
    assert_eq!(proto_failure(&[(21 << 3) as u8, 1, 5]), "row computed field `x` used unsupported wire type 0");
    // field 21 as fixed64 with three bytes
    assert_eq!(proto_failure(&[(21 << 3 | 1) as u8, 1, 0, 0, 0]), "row truncated fixed64 payload for computed field `x`");
    // a key that never ends
    assert_eq!(proto_failure(&[0x80]), "row contained an invalid protobuf varint");
    // field 2 with wire type 3
    assert_eq!(proto_failure(&[(2 << 3 | 3) as u8]), "row used unsupported protobuf wire type 3");
    // field 2, length-delimited, claiming five bytes
    assert_eq!(proto_failure(&[(2 << 3 | 2) as u8, 5, 1]), "row contained a truncated length-delimited field");
    // field 2, fixed32, two bytes
    assert_eq!(proto_failure(&[(2 << 3 | 5) as u8, 1, 2]), "row contained a truncated fixed32 field");
    // field 2, fixed64, two bytes
    assert_eq!(proto_failure(&[(2 << 3 | 1) as u8, 1, 2]), "row contained a truncated fixed64 field");
}

#[test]
fn latest_json_rows_are_checked_against_the_view() {
    let mut row = Bar::from_proto(wire_bar("BTCUSDT")).unwrap();
    let snapshot = |rows: Vec<Bar>, view: BarsView| LatestResponse {
        watermark_end_ms: 60_000,
        close_end_ms: 60_000,
        latest_mode: LatestMode::ExactWatermark,
        view,
        rows,
        missing_pairs: vec![],
    };
    match snapshot(vec![row.clone()], BarsView::Min).validate_view() {
        Err(SdkError::ContractDrift { message }) => assert_eq!(message, "latest bars min response row missing `age_ms`"),
        other => panic!("unexpected {:?}", other),
    }
    row.age_ms = Some(5);
    assert!(snapshot(vec![row.clone()], BarsView::Min).validate_view().is_ok());
    match snapshot(vec![row.clone()], BarsView::Full).validate_view() {
        Err(SdkError::ContractDrift { message }) => assert_eq!(message, "latest bars full response row missing `metadata`"),
        other => panic!("unexpected {:?}", other),
    }
}

#[test]
fn binary_frame_view_must_match_metadata_request() {
    let mut req = ws_request();
    req.metadata = None;
    let ok = decode_binary_frame(BarsRowsPayloadWire { view: ProtoBarsView::Min, rows: vec![] }, &req).unwrap();
    assert!(matches!(ok, BarsWsInboundFrame::ProtobufRows(ref v) if v.is_empty()));
    match decode_binary_frame(BarsRowsPayloadWire { view: ProtoBarsView::Full, rows: vec![] }, &req) {
        Err(SdkError::ContractDrift { message }) => {
            assert_eq!(message, "bars ws protobuf payload view does not match metadata request")
        }
        other => panic!("unexpected {:?}", other.map(|_| ())),
    }
    req.metadata = Some(true);
    assert!(decode_binary_frame(BarsRowsPayloadWire { view: ProtoBarsView::Full, rows: vec![] }, &req).is_ok());
}

#[test]
fn repeated_computed_field_keeps_one_entry_with_the_last_value() {
    let mut bytes: Vec<u8> = vec![(21 << 3 | 1) as u8, 1];
    bytes.extend_from_slice(&1.5f64.to_bits().to_le_bytes());
    bytes.extend_from_slice(&[(22 << 3 | 1) as u8, 1]);
    bytes.extend_from_slice(&2.5f64.to_bits().to_le_bytes());
    bytes.extend_from_slice(&[(21 << 3 | 1) as u8, 1]);
    bytes.extend_from_slice(&3.5f64.to_bits().to_le_bytes());
    let names = vec!["a".to_string(), "b".to_string()];
    let fields = extract_numeric_computed_fields_from_message(&bytes, &names, 21, "outputs row").unwrap();
    assert_eq!(fields.len(), 2);
    assert_eq!(fields[0].0, "a");
    assert_eq!(f64::from_bits(fields[0].1), 3.5);
    assert_eq!(fields[1].0, "b");
    assert_eq!(f64::from_bits(fields[1].1), 2.5);
}
