use polygon_io::client::{
    deserialization_error, error_text_or_default, is_success, status_error,
    truncate_response_text, PolygonClient, POLYGON_BASE_URL,
};
use polygon_io::error::PolygonError;
use polygon_io::query::QueryParams;

#[test]
fn client_test_client_creation() {
    let client = PolygonClient::new("test-key".to_string());
    assert_eq!(client.api_key(), "test-key");
    assert_eq!(client.base_url(), POLYGON_BASE_URL);
}

#[test]
fn test_client_with_custom_url() {
    let custom_url = "https://custom.api.com";
    let client = PolygonClient::with_base_url("test-key".to_string(), custom_url.to_string());
    assert_eq!(client.api_key(), "test-key");
    assert_eq!(client.base_url(), custom_url);
}

#[test]
fn lib_test_client_creation() {
    let client = PolygonClient::new("test-key".to_string());
    assert_eq!(client.api_key(), "test-key");
}

#[test]
fn test_stocks_client_creation() {
    let client = PolygonClient::new("test-key".to_string());
    let stocks = client.stocks();
    assert_eq!(stocks.client().api_key(), "test-key");
}

#[test]
fn test_url_building() {
    let client = PolygonClient::new("test-key".to_string());

    // Test basic endpoint
    let url = client
        .build_url("/v2/aggs/ticker/AAPL/range/1/day/2023-01-01/2023-01-31", None)
        .unwrap();
    assert!(url.contains("apikey=test-key"));
    assert!(url.contains("/v2/aggs/ticker/AAPL/range/1/day/2023-01-01/2023-01-31"));

    // Test with parameters
    let mut params = QueryParams::new();
    params.insert("adjusted".to_string(), "true".to_string());
    params.insert("sort".to_string(), "asc".to_string());

    let url = client
        .build_url("/v2/aggs/ticker/AAPL/range/1/day/2023-01-01/2023-01-31", Some(params))
        .unwrap();
    assert!(url.contains("apikey=test-key"));
    assert!(url.contains("adjusted=true"));
    assert!(url.contains("sort=asc"));
}

#[test]
fn build_url_exact_text() {
    let client = PolygonClient::new("k".to_string());
    let mut params = QueryParams::new();
    params.insert("limit".to_string(), "10".to_string());
    let url = client.build_url("v3/reference/tickers", Some(params)).unwrap();
    assert_eq!(url, "https://api.polygon.io/v3/reference/tickers?apikey=k&limit=10");
}

#[test]
fn build_url_leading_slashes_do_not_matter() {
    let client = PolygonClient::new("k".to_string());
    let a = client.build_url("///v1/marketstatus/now", None).unwrap();
    let b = client.build_url("v1/marketstatus/now", None).unwrap();
    assert_eq!(a, b);
    assert_eq!(a, "https://api.polygon.io/v1/marketstatus/now?apikey=k");
}

#[test]
fn build_url_encodes_values() {
    let client = PolygonClient::new("a b&c".to_string());
    let url = client.build_url("x", None).unwrap();
    assert_eq!(url, "https://api.polygon.io/x?apikey=a+b%26c");
}

#[test]
fn build_url_rejects_relative_base() {
    let client = PolygonClient::with_base_url("k".to_string(), "not a url".to_string());
    let r = client.build_url("x", None);
    assert!(matches!(r, Err(PolygonError::Url(_))));
}

#[test]
fn fits_request_small_and_huge() {
    let client = PolygonClient::new("k".to_string());
    assert!(client.fits_request("x", &None));
    let mut params = QueryParams::new();
    params.insert("big".to_string(), "v".repeat(0x0800_0000));
    assert!(!client.fits_request("x", &Some(params)));
}

#[test]
fn sub_clients_share_the_key() {
    let client = PolygonClient::with_base_url("key-1".to_string(), "http://localhost".to_string());
    assert_eq!(client.stocks().client().base_url(), "http://localhost");
    let _ = client.options();
    let _ = client.futures();
    let _ = client.indices();
    let _ = client.forex();
    let _ = client.crypto();
    let copy = client.clone();
    assert_eq!(copy.api_key(), "key-1");
}

#[test]
fn success_statuses() {
    assert!(is_success(200));
    assert!(is_success(204));
    assert!(is_success(299));
    assert!(!is_success(199));
    assert!(!is_success(300));
    assert!(!is_success(404));
}

#[test]
fn status_errors_by_code() {
    match status_error(401, "x".to_string()) {
        PolygonError::Authentication { message } => {
            assert_eq!(message, "Invalid API key or unauthorized access")
        }
        e => panic!("unexpected {:?}", e),
    }
    match status_error(403, "x".to_string()) {
        PolygonError::Authentication { message } => {
            assert_eq!(message, "Forbidden - check your API key permissions")
        }
        e => panic!("unexpected {:?}", e),
    }
    match status_error(429, "x".to_string()) {
        PolygonError::RateLimit { message } => {
            assert_eq!(message, "Rate limit exceeded - please slow down your requests")
        }
        e => panic!("unexpected {:?}", e),
    }
    match status_error(402, "x".to_string()) {
        PolygonError::QuotaExceeded { message } => {
            assert_eq!(message, "Quota exceeded - upgrade your plan or wait for reset")
        }
        e => panic!("unexpected {:?}", e),
    }
    match status_error(500, "server down".to_string()) {
        PolygonError::ApiError { status, message } => {
            assert_eq!(status, 500);
            assert_eq!(message, "server down");
        }
        e => panic!("unexpected {:?}", e),
    }
}

#[test]
fn error_text_default() {
    assert_eq!(error_text_or_default(None), "Unknown error");
    assert_eq!(error_text_or_default(Some("boom".to_string())), "boom");
}

#[test]
fn truncation_of_long_responses() {
    let short = "{\"a\": 1}";
    assert_eq!(truncate_response_text(short), short);
    let exact = "x".repeat(500);
    assert_eq!(truncate_response_text(&exact), exact);
    let long = "y".repeat(501);
    let expected = format!("{}... (truncated, 501 total chars)", "y".repeat(500));
    assert_eq!(truncate_response_text(&long), expected);
}

#[test]
fn deserialization_errors() {
    match deserialization_error(200, Some("ERROR"), "missing field", "{}") {
        PolygonError::ApiError { status, message } => {
            assert_eq!(status, 200);
            assert_eq!(message, "API returned status: ERROR");
        }
        e => panic!("unexpected {:?}", e),
    }
    match deserialization_error(200, Some("OK"), "missing field `x`", "{}") {
        PolygonError::InvalidResponse { message } => {
            assert_eq!(message, "Failed to deserialize response: missing field `x`. Response was: {}")
        }
        e => panic!("unexpected {:?}", e),
    }
    match deserialization_error(200, None, "bad", &"z".repeat(600)) {
        PolygonError::InvalidResponse { message } => {
            assert!(message.ends_with("... (truncated, 600 total chars)"));
            assert!(message.starts_with("Failed to deserialize response: bad. Response was: zzz"));
        }
        e => panic!("unexpected {:?}", e),
    }
}

#[test]
fn error_constructors() {
    assert!(matches!(PolygonError::authentication("a"),
        PolygonError::Authentication { message } if message == "a"));
    assert!(matches!(PolygonError::rate_limit("b"),
        PolygonError::RateLimit { message } if message == "b"));
    assert!(matches!(PolygonError::quota_exceeded("c"),
        PolygonError::QuotaExceeded { message } if message == "c"));
    assert!(matches!(PolygonError::invalid_response("d".to_string()),
        PolygonError::InvalidResponse { message } if message == "d"));
    assert!(matches!(PolygonError::api_error(418, "e"),
        PolygonError::ApiError { status: 418, message } if message == "e"));
    assert!(matches!(PolygonError::invalid_parameter("f"),
        PolygonError::InvalidParameter { message } if message == "f"));
    assert!(matches!(PolygonError::websocket("g"),
        PolygonError::WebSocket { message } if message == "g"));
    assert!(matches!(PolygonError::client("h"),
        PolygonError::Client { message } if message == "h"));
}
