use mathilde_sdk_rs::sdk_core::auth::BearerToken;
use mathilde_sdk_rs::sdk_core::config::{
    AggregatorConfig, GrpcTransportConfig, HttpTransportConfig, IntroConfig, OutputsConfig,
    WsTransportConfig,
};
use mathilde_sdk_rs::sdk_core::error::SdkError;
use mathilde_sdk_rs::sdk_core::order::str_lt;
use mathilde_sdk_rs::sdk_core::pagination::{
    require_explicit_close_end, str_eq, PaginationAdvance, PaginationState,
    DEFAULT_TRAVERSE_MAX_PAGES,
};
use mathilde_sdk_rs::sdk_core::text::{
    contains_whitespace, i64_to_decimal, join_comma, normalize_optional_string, trim_nonblank_values,
    trim_str,
};
use mathilde_sdk_rs::sdk_core::time::{
    parse_utc_string_to_ms, resolve_utc_string, validate_utc_ms, TimeInput,
};

#[test]
fn bearer_token_is_trimmed() {
    let token = BearerToken::new("  feed_public_token \n").unwrap();
    assert_eq!(token.as_str(), "feed_public_token");
}

#[test]
fn bearer_token_empty_is_refused() {
    match BearerToken::new("   ") {
        Err(SdkError::InvalidAuthToken { message }) => {
            assert_eq!(message, "bearer token must not be empty")
        }
        other => panic!("unexpected {:?}", other),
    }
}

#[test]
fn bearer_token_inner_whitespace_is_refused() {
    match BearerToken::new("abc def") {
        Err(SdkError::InvalidAuthToken { message }) => {
            assert_eq!(message, "bearer token must not contain whitespace")
        }
        other => panic!("unexpected {:?}", other),
    }
}

#[test]
fn bearer_token_authorization_value() {
    let token = BearerToken::new("tok123").unwrap();
    let value = token.as_authorization_value().unwrap();
    assert_eq!(value.as_str(), "Bearer tok123");
    assert_eq!(value.as_header_value().to_str().unwrap(), "Bearer tok123");
}

#[test]
fn utc_string_with_z_reads_as_rfc3339() {
    assert_eq!(parse_utc_string_to_ms("2026-02-02T00:00:00Z").unwrap(), 1769990400000);
    assert_eq!(parse_utc_string_to_ms("2026-02-02T06:00:00Z").unwrap(), 1770012000000);
}

#[test]
fn compact_utc_forms_read() {
    assert_eq!(parse_utc_string_to_ms("2026-02-02:00:00").unwrap(), 1769990400000);
    assert_eq!(parse_utc_string_to_ms("2026-02-02:00:00:30").unwrap(), 1769990430000);
}

#[test]
fn offset_utc_strings_are_refused() {
    assert!(matches!(
        parse_utc_string_to_ms("2026-02-02T00:00:00+01:00"),
        Err(SdkError::InvalidTimeInput { .. })
    ));
    assert!(matches!(
        parse_utc_string_to_ms("2026-02-02T00:00:00-05:00"),
        Err(SdkError::InvalidTimeInput { .. })
    ));
}

#[test]
fn garbage_utc_string_is_refused() {
    match parse_utc_string_to_ms("yesterday") {
        Err(SdkError::InvalidTimeInput { message }) => {
            assert_eq!(message, "unsupported utc time input `yesterday`")
        }
        other => panic!("unexpected {:?}", other),
    }
}

#[test]
fn resolve_prefers_rfc3339_for_z_strings() {
    assert_eq!(resolve_utc_string("xZ", Some(5), Some(6), Some(7)).unwrap(), 5);
    assert_eq!(resolve_utc_string("x", None, Some(6), Some(7)).unwrap(), 6);
    assert_eq!(resolve_utc_string("x", None, None, Some(7)).unwrap(), 7);
    assert!(resolve_utc_string("1T2+3", None, Some(6), Some(7)).is_err());
}

#[test]
fn ms_time_input_is_kept() {
    assert_eq!(TimeInput::Ms(1769990400000).to_utc_ms().unwrap(), 1769990400000);
    assert_eq!(validate_utc_ms(0).unwrap(), 0);
    assert!(matches!(validate_utc_ms(i64::MAX), Err(SdkError::InvalidTimeInput { .. })));
}

#[test]
fn utc_time_input_converts() {
    let t = TimeInput::Utc("2026-02-02T00:00:00Z".to_string());
    assert_eq!(t.to_utc_ms().unwrap(), 1769990400000);
}

#[test]
fn pagination_counts_pages_and_finishes() {
    let mut state = PaginationState::with_max_pages(3);
    assert_eq!(state.pages_fetched(), 0);
    match state.advance(Some("c1"), false).unwrap() {
        PaginationAdvance::Continue { cursor } => assert_eq!(cursor, "c1"),
        PaginationAdvance::Finished => panic!("expected to continue"),
    }
    assert_eq!(state.pages_fetched(), 1);
    assert_eq!(state.advance(Some("c2"), true).unwrap(), PaginationAdvance::Finished);
    assert_eq!(state.pages_fetched(), 2);
}

#[test]
fn pagination_refuses_repeated_cursor() {
    let mut state = PaginationState::new();
    assert_eq!(state.max_pages(), DEFAULT_TRAVERSE_MAX_PAGES);
    state.advance(Some("same"), false).unwrap();
    match state.advance(Some("same"), false) {
        Err(SdkError::ContractDrift { message }) => {
            assert_eq!(message, "cursor repeated without progress: same")
        }
        other => panic!("unexpected {:?}", other),
    }
}

#[test]
fn pagination_budget_exhaustion_keeps_state() {
    let mut state = PaginationState::with_max_pages(1);
    state.advance(Some("a"), false).unwrap();
    match state.advance(Some("b"), false) {
        Err(SdkError::ContractDrift { message }) => {
            assert_eq!(message, "traversal page budget exhausted at 1 pages")
        }
        other => panic!("unexpected {:?}", other),
    }
    assert_eq!(state.pages_fetched(), 1);
}

#[test]
fn pagination_no_cursor_finishes() {
    let mut state = PaginationState::new();
    assert_eq!(state.advance(None, false).unwrap(), PaginationAdvance::Finished);
}

#[test]
fn explicit_close_end_is_required() {
    assert!(require_explicit_close_end(Some(&1i64), "search").is_ok());
    match require_explicit_close_end::<i64>(None, "search") {
        Err(SdkError::UnsupportedOrUnprovedUsage { message }) => {
            assert_eq!(message, "search traversal requires explicit close_end")
        }
        other => panic!("unexpected {:?}", other),
    }
}

#[test]
fn text_helpers() {
    assert_eq!(trim_str("  a b \t"), "a b");
    assert!(contains_whitespace("a b"));
    assert!(!contains_whitespace("ab"));
    let v = trim_nonblank_values(&vec![" BTCUSDT ".to_string(), "  ".to_string(), "ETHUSDT".to_string()]);
    assert_eq!(v, vec!["BTCUSDT".to_string(), "ETHUSDT".to_string()]);
    assert_eq!(join_comma(&v), "BTCUSDT,ETHUSDT");
    assert_eq!(normalize_optional_string(&Some("  x ".to_string())), Some("x".to_string()));
    assert_eq!(normalize_optional_string(&Some("   ".to_string())), None);
    assert!(str_eq("abc", "abc"));
    assert!(!str_eq("abc", "abd"));
}

#[test]
fn lexicographic_order() {
    assert!(str_lt("a", "b"));
    assert!(str_lt("a", "ab"));
    assert!(!str_lt("b", "a"));
    assert!(!str_lt("same", "same"));
    assert!(str_lt("Z", "a"));
}

#[test]
fn transport_configs_parse_urls() {
    assert!(HttpTransportConfig::new("http://127.0.0.1:18182").is_ok());
    assert!(GrpcTransportConfig::new("http://127.0.0.1:18092").is_ok());
    assert!(WsTransportConfig::new("ws://127.0.0.1:18182").is_ok());
    match HttpTransportConfig::new("not a url") {
        Err(SdkError::InvalidUrl { input, .. }) => assert_eq!(input, "not a url"),
        other => panic!("unexpected {:?}", other.map(|_| ())),
    }
}

#[test]
fn public_defaults_have_every_transport() {
    let c = AggregatorConfig::mathilde_public_default(None).unwrap();
    assert!(c.http.is_some() && c.grpc.is_some() && c.ws.is_some());
    assert_eq!(c.ws.as_ref().unwrap().base_url.as_url().scheme(), "wss");
    let p = OutputsConfig::primitives_public_default(None).unwrap();
    assert_eq!(p.ws.unwrap().base_url.as_str(), "wss://primitives.api.mathilde.dev/");
    let i = IntroConfig::mathilde_public_default(None).unwrap();
    assert!(i.require_http().is_ok());
}

#[test]
fn public_default_reports_hosts_in_order() {
    match OutputsConfig::public_default("not a url", "also not", None) {
        Err(SdkError::InvalidUrl { input, .. }) => assert_eq!(input, "not a url"),
        other => panic!("unexpected {:?}", other.map(|_| ())),
    }
    match OutputsConfig::public_default("https://a.example", "also not", None) {
        Err(SdkError::InvalidUrl { input, .. }) => assert_eq!(input, "also not"),
        other => panic!("unexpected {:?}", other.map(|_| ())),
    }
    match OutputsConfig::public_default("mailto:someone", "https://b.example", None) {
        Err(SdkError::ContractDrift { message }) => {
            assert_eq!(message, "failed to derive wss url from https base")
        }
        other => panic!("unexpected {:?}", other.map(|_| ())),
    }
    let token = BearerToken::new("abc").unwrap();
    let c = OutputsConfig::public_default("https://a.example", "https://b.example", Some(token))
        .unwrap();
    assert_eq!(c.ws.unwrap().base_url.as_str(), "wss://a.example/");
    assert!(c.bearer_token.is_some());
}

#[test]
fn missing_transport_is_reported() {
    let c = AggregatorConfig::default();
    match c.require_grpc() {
        Err(SdkError::MissingTransportConfig { transport }) => assert_eq!(transport, "grpc"),
        other => panic!("unexpected {:?}", other.map(|_| ())),
    }
}

#[test]
fn decimal_text_of_integers() {
    assert_eq!(i64_to_decimal(0), "0");
    assert_eq!(i64_to_decimal(7), "7");
    assert_eq!(i64_to_decimal(1_700_000_000_000), "1700000000000");
    assert_eq!(i64_to_decimal(-42), "-42");
    assert_eq!(i64_to_decimal(i64::MIN), "-9223372036854775808");
    assert_eq!(i64_to_decimal(i64::MAX), "9223372036854775807");
}

#[test]
fn out_of_range_milliseconds_are_named_in_the_error() {
    match validate_utc_ms(i64::MAX) {
        Err(SdkError::InvalidTimeInput { message }) => {
            assert_eq!(message, "invalid utc ms timestamp: 9223372036854775807")
        }
        other => panic!("unexpected {:?}", other),
    }
    match TimeInput::Ms(i64::MIN).to_utc_ms() {
        Err(SdkError::InvalidTimeInput { message }) => {
            assert_eq!(message, "invalid utc ms timestamp: -9223372036854775808")
        }
        other => panic!("unexpected {:?}", other),
    }
}

#[test]
fn grpc_status_keeps_code_and_message() {
    match SdkError::grpc_status(tonic::Status::new(tonic::Code::NotFound, "pair not found")) {
        SdkError::GrpcStatus { code, message } => {
            assert_eq!(code, tonic::Code::NotFound);
            assert_eq!(message, "pair not found");
        }
        other => panic!("unexpected {:?}", other),
    }
}

#[test]
fn pagination_state_default_and_clone() {
    let d = PaginationState::default();
    assert_eq!(d, PaginationState::new());
    assert_eq!(d.pages_fetched(), 0);
    assert_eq!(d.max_pages(), 10_000);
    let mut s = PaginationState::with_max_pages(5);
    s.advance(Some("c1"), false).unwrap();
    let c = s.clone();
    assert_eq!(c, s);
    assert_eq!(c.pages_fetched(), 1);
}

#[test]
fn utc_ms_range_is_chronos_range() {
    assert_eq!(validate_utc_ms(-8_334_601_228_800_000).unwrap(), -8_334_601_228_800_000);
    assert!(validate_utc_ms(-8_334_601_228_800_001).is_err());
    assert_eq!(validate_utc_ms(8_210_266_876_799_999).unwrap(), 8_210_266_876_799_999);
    assert!(validate_utc_ms(8_210_266_876_800_000).is_err());
}
