//! Errors reported by the client.

use vstd::prelude::*;
use vstd::string::to_string_from_display_ensures;
use crate::text::{nat_text, u64_text};

verus! {

/// The error type of the `reqwest` HTTP client (opaque here).
#[verifier::external_type_specification]
#[verifier::external_body]
pub struct ExReqwestError(reqwest::Error);

/// The error type of `serde_json` (opaque here).
#[verifier::external_type_specification]
#[verifier::external_body]
pub struct ExJsonError(serde_json::Error);

/// The URL parsing error of the `url` crate (opaque here).
#[verifier::external_type_specification]
#[verifier::external_body]
pub struct ExUrlParseError(url::ParseError);

/// Result type of the client's operations.
pub type Result<T> = std::result::Result<T, PolygonError>;

/// Errors that can occur when using the Polygon.io API.
#[derive(Debug)]
pub enum PolygonError {
    /// HTTP request errors
    Http(reqwest::Error),
    /// JSON serialization/deserialization errors
    Json(serde_json::Error),
    /// URL parsing errors
    Url(url::ParseError),
    /// API authentication errors
    Authentication { message: String },
    /// API rate limiting errors
    RateLimit { message: String },
    /// API quota exceeded errors
    QuotaExceeded { message: String },
    /// Invalid API response
    InvalidResponse { message: String },
    /// API returned an error status
    ApiError { status: u16, message: String },
    /// Invalid input parameters
    InvalidParameter { message: String },
    /// WebSocket connection errors
    WebSocket { message: String },
    /// General client errors
    Client { message: String },
}

/// `m` is what converting `message` into a `String` gives.
pub open spec fn converted<S: Into<String>>(message: S, m: String) -> bool {
    call_ensures(S::into, (message,), m)
}

impl PolygonError {
    /// Create a new authentication error
    pub fn authentication<S: Into<String>>(message: S) -> (e: Self)
        ensures
            e matches PolygonError::Authentication { message: m } && converted(message, m),
    {
        PolygonError::Authentication { message: message.into() }
    }

    /// Create a new rate limit error
    pub fn rate_limit<S: Into<String>>(message: S) -> (e: Self)
        ensures
            e matches PolygonError::RateLimit { message: m } && converted(message, m),
    {
        PolygonError::RateLimit { message: message.into() }
    }

    /// Create a new quota exceeded error
    pub fn quota_exceeded<S: Into<String>>(message: S) -> (e: Self)
        ensures
            e matches PolygonError::QuotaExceeded { message: m } && converted(message, m),
    {
        PolygonError::QuotaExceeded { message: message.into() }
    }

    /// Create a new invalid response error
    pub fn invalid_response<S: Into<String>>(message: S) -> (e: Self)
        ensures
            e matches PolygonError::InvalidResponse { message: m } && converted(message, m),
    {
        PolygonError::InvalidResponse { message: message.into() }
    }

    /// Create a new API error
    pub fn api_error<S: Into<String>>(status: u16, message: S) -> (e: Self)
        ensures
            e matches PolygonError::ApiError { status: st, message: m } && st == status
                && converted(message, m),
    {
        PolygonError::ApiError { status, message: message.into() }
    }

    /// Create a new invalid parameter error
    pub fn invalid_parameter<S: Into<String>>(message: S) -> (e: Self)
        ensures
            e matches PolygonError::InvalidParameter { message: m } && converted(message, m),
    {
        PolygonError::InvalidParameter { message: message.into() }
    }

    /// Create a new WebSocket error
    pub fn websocket<S: Into<String>>(message: S) -> (e: Self)
        ensures
            e matches PolygonError::WebSocket { message: m } && converted(message, m),
    {
        PolygonError::WebSocket { message: message.into() }
    }

    /// Create a new client error
    pub fn client<S: Into<String>>(message: S) -> (e: Self)
        ensures
            e matches PolygonError::Client { message: m } && converted(message, m),
    {
        PolygonError::Client { message: message.into() }
    }

    /// The message of the error, as its `Display` shows it: a phrase naming
    /// the kind of error, then the message, or for a wrapped `reqwest`,
    /// `serde_json` or `url` error, the text that error's own `Display` writes.
    pub fn to_string(&self) -> (r: String)
        ensures
            match self {
                PolygonError::Http(inner) => exists|t: String|
                    to_string_from_display_ensures::<reqwest::Error>(inner, t) && r@
                        == "HTTP request failed: "@ + t@,
                PolygonError::Json(inner) => exists|t: String|
                    to_string_from_display_ensures::<serde_json::Error>(inner, t) && r@
                        == "JSON error: "@ + t@,
                PolygonError::Url(inner) => exists|t: String|
                    to_string_from_display_ensures::<url::ParseError>(inner, t) && r@
                        == "URL parsing error: "@ + t@,
                PolygonError::Authentication { message } => r@ == "Authentication failed: "@
                    + message@,
                PolygonError::RateLimit { message } => r@ == "Rate limit exceeded: "@ + message@,
                PolygonError::QuotaExceeded { message } => r@ == "Quota exceeded: "@ + message@,
                PolygonError::InvalidResponse { message } => r@ == "Invalid API response: "@
                    + message@,
                PolygonError::ApiError { status, message } => r@ == "API error (status: "@
                    + nat_text(*status as nat) + "): "@ + message@,
                PolygonError::InvalidParameter { message } => r@ == "Invalid parameter: "@
                    + message@,
                PolygonError::WebSocket { message } => r@ == "WebSocket error: "@ + message@,
                PolygonError::Client { message } => r@ == "Client error: "@ + message@,
            },
    {
        match self {
            PolygonError::Http(inner) => {
                let t = inner.to_string();
                let mut r = String::from_str("HTTP request failed: ");
                r.append(t.as_str());
                r
            },
            PolygonError::Json(inner) => {
                let t = inner.to_string();
                let mut r = String::from_str("JSON error: ");
                r.append(t.as_str());
                r
            },
            PolygonError::Url(inner) => {
                let t = inner.to_string();
                let mut r = String::from_str("URL parsing error: ");
                r.append(t.as_str());
                r
            },
            PolygonError::Authentication { message } => {
                let mut r = String::from_str("Authentication failed: ");
                r.append(message.as_str());
                r
            },
            PolygonError::RateLimit { message } => {
                let mut r = String::from_str("Rate limit exceeded: ");
                r.append(message.as_str());
                r
            },
            PolygonError::QuotaExceeded { message } => {
                let mut r = String::from_str("Quota exceeded: ");
                r.append(message.as_str());
                r
            },
            PolygonError::InvalidResponse { message } => {
                let mut r = String::from_str("Invalid API response: ");
                r.append(message.as_str());
                r
            },
            PolygonError::ApiError { status, message } => {
                let mut r = String::from_str("API error (status: ");
                let code = u64_text(*status as u64);
                r.append(code.as_str());
                r.append("): ");
                r.append(message.as_str());
                r
            },
            PolygonError::InvalidParameter { message } => {
                let mut r = String::from_str("Invalid parameter: ");
                r.append(message.as_str());
                r
            },
            PolygonError::WebSocket { message } => {
                let mut r = String::from_str("WebSocket error: ");
                r.append(message.as_str());
                r
            },
            PolygonError::Client { message } => {
                let mut r = String::from_str("Client error: ");
                r.append(message.as_str());
                r
            },
        }
    }
}

impl From<reqwest::Error> for PolygonError {
    /// An HTTP error.
    fn from(e: reqwest::Error) -> (r: Self) {
        PolygonError::Http(e)
    }
}

impl vstd::std_specs::convert::FromSpecImpl<reqwest::Error> for PolygonError {
    open spec fn obeys_from_spec() -> bool {
        true
    }

    open spec fn from_spec(e: reqwest::Error) -> Self {
        PolygonError::Http(e)
    }
}

impl From<serde_json::Error> for PolygonError {
    /// A JSON error.
    fn from(e: serde_json::Error) -> (r: Self) {
        PolygonError::Json(e)
    }
}

impl vstd::std_specs::convert::FromSpecImpl<serde_json::Error> for PolygonError {
    open spec fn obeys_from_spec() -> bool {
        true
    }

    open spec fn from_spec(e: serde_json::Error) -> Self {
        PolygonError::Json(e)
    }
}

impl From<url::ParseError> for PolygonError {
    /// A URL parsing error.
    fn from(e: url::ParseError) -> (r: Self) {
        PolygonError::Url(e)
    }
}

impl vstd::std_specs::convert::FromSpecImpl<url::ParseError> for PolygonError {
    open spec fn obeys_from_spec() -> bool {
        true
    }

    open spec fn from_spec(e: url::ParseError) -> Self {
        PolygonError::Url(e)
    }
}

} // verus!
