use mathilde_sdk_rs::sdk_core::error::SdkError;
use mathilde_sdk_rs::systems::regime::computed::{ComputedFields, ComputedValue};
use mathilde_sdk_rs::systems::primitives::outputs_http::OutputsHttpPlan;
use mathilde_sdk_rs::systems::regime::outputs_http::range_outputs_response;
use mathilde_sdk_rs::systems::regime::types::{OutputRow, OutputRowProtoWire, PrimitiveOutputMode, RangeResponse};
use mathilde_sdk_rs::systems::types::HttpBody;

fn number(x: f64) -> ComputedValue {
    ComputedValue::Number { f64_bits: x.to_bits(), as_i64: None }
}

fn fields() -> ComputedFields {
    ComputedFields(vec![
        ("trend".to_string(), number(0.5)),
        ("count".to_string(), ComputedValue::Number { f64_bits: 3.0f64.to_bits(), as_i64: Some(3) }),
        ("gap".to_string(), ComputedValue::Null),
        ("trend".to_string(), number(0.75)),
    ])
}

#[test]
fn computed_fields_read_the_last_entry_of_a_name() {
    let f = fields();
    assert_eq!(f.len(), 4);
    assert!(!f.is_empty());
    assert_eq!(f.get("trend"), Some(&number(0.75)));
    assert_eq!(f.f64_bits("trend"), Some(0.75f64.to_bits()));
    assert_eq!(f.i64("trend"), None);
    assert_eq!(f.i64("count"), Some(3));
    assert_eq!(f.get("gap"), Some(&ComputedValue::Null));
    assert_eq!(f.f64_bits("gap"), None);
    assert_eq!(f.get("missing"), None);
    assert_eq!(f.bool("trend"), None);
    assert_eq!(f.str_value("trend"), None);
    assert_eq!(f.iter()[0].0, "trend");
    assert_eq!(f.clone().into_inner().len(), 4);
    assert!(f.validate("row").is_ok());
}

#[test]
fn computed_fields_other_values() {
    let f = ComputedFields(vec![
        ("flag".to_string(), ComputedValue::Bool(true)),
        ("label".to_string(), ComputedValue::Str("up".to_string())),
    ]);
    assert_eq!(f.bool("flag"), Some(true));
    assert_eq!(f.str_value("label"), Some("up"));
    match f.validate("regime row") {
        Err(SdkError::ContractDrift { message }) => {
            assert_eq!(message, "regime row computed field `flag` must be null or numeric")
        }
        other => panic!("unexpected {:?}", other),
    }
    assert!(ComputedFields::new().is_empty());
}

#[test]
fn numeric_fields_from_protobuf_keep_their_order() {
    let f = ComputedFields::from_numeric(vec![("b".to_string(), 1.5f64.to_bits()), ("a".to_string(), 2.5f64.to_bits())]);
    assert_eq!(f.iter()[0].0, "b");
    assert_eq!(f.f64_bits("a"), Some(2.5f64.to_bits()));
    assert_eq!(f.i64("a"), None);
    assert!(f.validate("row").is_ok());
}

fn proto_row(computed: ComputedFields) -> OutputRowProtoWire {
    OutputRowProtoWire {
        pair: "BTCUSDT".to_string(),
        tf: "1h".to_string(),
        open_ms: 0,
        close_ms: 3_600_000,
        open_utc: Some("2024-01-01T00:00:00Z".to_string()),
        close_utc: Some("2024-01-01T01:00:00Z".to_string()),
        o: 1.0f64.to_bits(),
        h: 1.0f64.to_bits(),
        l: 1.0f64.to_bits(),
        c: 1.0f64.to_bits(),
        v: 1.0f64.to_bits(),
        quote_v: None,
        taker_known_v: None,
        taker_signed_v: None,
        taker_known_quote_v: None,
        taker_signed_quote_v: None,
        taker_known_n: None,
        taker_signed_n: None,
        vw: None,
        n: None,
        metadata: None,
        diagnostics: vec![],
        computed,
    }
}

#[test]
fn rows_with_non_numeric_computed_values_are_refused() {
    let ok = OutputRow::from_proto(proto_row(fields()), PrimitiveOutputMode::Min, false, "regime row").unwrap();
    assert_eq!(ok.computed().f64_bits("trend"), Some(0.75f64.to_bits()));
    assert_eq!(ok.diagnostics, None);
    let bad = ComputedFields(vec![("label".to_string(), ComputedValue::Str("x".to_string()))]);
    match OutputRow::from_proto(proto_row(bad), PrimitiveOutputMode::Min, false, "regime row") {
        Err(SdkError::ContractDrift { message }) => {
            assert_eq!(message, "regime row computed field `label` must be null or numeric")
        }
        other => panic!("unexpected {:?}", other),
    }
}

#[test]
fn regime_range_json_page_keeps_its_end_and_cursor() {
    let plan = OutputsHttpPlan { mode: PrimitiveOutputMode::Min, body: (), diagnostics_enabled: false, protobuf: false };
    let raw = RangeResponse { rows: vec![], close_end_ms: 1_770_000_000_000, next_cursor: Some("c2".to_string()) };
    let page = range_outputs_response(&plan, HttpBody::Json(raw)).unwrap();
    assert_eq!(page.close_end_ms, 1_770_000_000_000);
    assert_eq!(page.next_cursor.as_deref(), Some("c2"));
}
