use polygon_io::client::{response_outcome, DecodeFailure};
use polygon_io::error::PolygonError;

fn json_error() -> serde_json::Error {
    serde_json::from_str::<u8>("x").unwrap_err()
}

fn read_error() -> reqwest::Error {
    reqwest::Client::new().get("not a url").build().unwrap_err()
}

#[test]
fn error_messages_render_like_display() {
    assert_eq!(
        PolygonError::api_error(404, "Not found").to_string(),
        "API error (status: 404): Not found"
    );
    assert_eq!(
        PolygonError::authentication("bad key").to_string(),
        "Authentication failed: bad key"
    );
    assert_eq!(PolygonError::rate_limit("slow").to_string(), "Rate limit exceeded: slow");
    assert_eq!(PolygonError::quota_exceeded("q").to_string(), "Quota exceeded: q");
    assert_eq!(
        PolygonError::invalid_response("r".to_string()).to_string(),
        "Invalid API response: r"
    );
    assert_eq!(PolygonError::invalid_parameter("p").to_string(), "Invalid parameter: p");
    assert_eq!(PolygonError::websocket("w").to_string(), "WebSocket error: w");
    assert_eq!(PolygonError::client("c").to_string(), "Client error: c");
    assert_eq!(PolygonError::api_error(0, "").to_string(), "API error (status: 0): ");
}

#[test]
fn wrapped_errors_render_with_their_own_text() {
    let e = url::ParseError::EmptyHost;
    assert_eq!(PolygonError::Url(e).to_string(), format!("URL parsing error: {}", e));
    let j = json_error();
    let expected = format!("JSON error: {}", j);
    assert_eq!(PolygonError::Json(j).to_string(), expected);
    let h = read_error();
    let expected = format!("HTTP request failed: {}", h);
    assert_eq!(PolygonError::Http(h).to_string(), expected);
}

#[test]
fn constructors_keep_the_message() {
    match PolygonError::api_error(404, "Not found") {
        PolygonError::ApiError { status, message } => {
            assert_eq!(status, 404);
            assert_eq!(message, "Not found");
        }
        other => panic!("unexpected {:?}", other),
    }
    match PolygonError::authentication("bad key".to_string()) {
        PolygonError::Authentication { message } => assert_eq!(message, "bad key"),
        other => panic!("unexpected {:?}", other),
    }
}

#[test]
fn outcome_of_a_failed_status() {
    let r: Result<u8, PolygonError> =
        response_outcome(401, Ok("whatever".to_string()), None);
    match r {
        Err(PolygonError::Authentication { message }) => {
            assert_eq!(message, "Invalid API key or unauthorized access")
        }
        other => panic!("unexpected {:?}", other),
    }
    let r: Result<u8, PolygonError> = response_outcome(500, Ok("server down".to_string()), None);
    match r {
        Err(PolygonError::ApiError { status, message }) => {
            assert_eq!(status, 500);
            assert_eq!(message, "server down");
        }
        other => panic!("unexpected {:?}", other),
    }
    let r: Result<u8, PolygonError> = response_outcome(503, Err(read_error()), None);
    match r {
        Err(PolygonError::ApiError { status, message }) => {
            assert_eq!(status, 503);
            assert_eq!(message, "Unknown error");
        }
        other => panic!("unexpected {:?}", other),
    }
}

#[test]
fn outcome_of_a_successful_status() {
    let r: Result<u8, PolygonError> = response_outcome(200, Ok("7".to_string()), Some(Ok(7)));
    assert_eq!(r.unwrap(), 7);

    let r: Result<u8, PolygonError> = response_outcome(200, Err(read_error()), None);
    assert!(matches!(r, Err(PolygonError::Http(_))));

    let failure = DecodeFailure { error: json_error(), api_status: Some("ERROR".to_string()) };
    let r: Result<u8, PolygonError> =
        response_outcome(200, Ok("{}".to_string()), Some(Err(failure)));
    match r {
        Err(PolygonError::ApiError { status, message }) => {
            assert_eq!(status, 200);
            assert_eq!(message, "API returned status: ERROR");
        }
        other => panic!("unexpected {:?}", other),
    }

    let reason = json_error().to_string();
    let failure = DecodeFailure { error: json_error(), api_status: Some("OK".to_string()) };
    let r: Result<u8, PolygonError> =
        response_outcome(201, Ok("x".to_string()), Some(Err(failure)));
    match r {
        Err(PolygonError::InvalidResponse { message }) => {
            assert_eq!(message, format!("Failed to deserialize response: {}. Response was: x", reason));
        }
        other => panic!("unexpected {:?}", other),
    }
}

#[test]
fn outside_errors_convert_into_their_variants() {
    assert!(matches!(
        PolygonError::from(url::ParseError::EmptyHost),
        PolygonError::Url(url::ParseError::EmptyHost)
    ));
    assert!(matches!(PolygonError::from(json_error()), PolygonError::Json(_)));
    assert!(matches!(PolygonError::from(read_error()), PolygonError::Http(_)));
    let converted: PolygonError = url::ParseError::InvalidPort.into();
    assert_eq!(converted.to_string(), "URL parsing error: invalid port number");
}
