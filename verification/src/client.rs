//! The client: where requests go, how their URLs are built, and how the
//! answers are classified.

use vstd::prelude::*;
use vstd::string::StringSliceAdditionalSpecFns;
use vstd::utf8::{decode_utf8, is_char_boundary};
use vstd::string::to_string_from_display_ensures;
use crate::error::{PolygonError, Result};
use crate::query::{QueryParams, pair_texts};
use crate::stocks::StocksClient;
use crate::options::OptionsClient;
use crate::futures::FuturesClient;
use crate::indices::IndicesClient;
use crate::forex::ForexClient;
use crate::crypto::CryptoClient;
use crate::text::{trim_leading_slashes, trim_start_slashes, nat_text, usize_text};

verus! {

/// Base URL for the Polygon.io REST API
pub const POLYGON_BASE_URL: &'static str = "https://api.polygon.io";

// ---------------------------------------------------------------------------
// URLs
// ---------------------------------------------------------------------------

/// The serialization of the URL that `url::Url::parse_with_params(input, pairs)`
/// produces (the URL parsed from `input`, with the pairs appended to its
/// query, form-urlencoded), or `None` when `input` does not parse.
pub uninterp spec fn url_with_query(input: Seq<char>, pairs: Seq<(Seq<char>, Seq<char>)>) -> Option<
    Seq<char>,
>;

/// Size of `pairs` in a query: the characters of the names and values, and
/// two separators (`=` and `&`) for each pair.
pub open spec fn pairs_size(pairs: Seq<(Seq<char>, Seq<char>)>) -> nat
    decreases pairs.len(),
{
    if pairs.len() == 0 {
        0
    } else {
        pairs_size(pairs.drop_last()) + pairs.last().0.len() + pairs.last().1.len() + 2
    }
}

/// Largest request (in characters of address, names, values and separators) that the
/// client builds a URL for.  Percent-encoding makes a character at most
/// twelve bytes, so such URLs stay well below the 4 GiB that `url` supports.
pub open spec fn max_request_size() -> nat {
    0x0800_0000
}

/// Parses `input` as a URL and appends `pairs` to its query: calls
/// `url::Url::parse_with_params(input, pairs)` and returns the serialization
/// of the result (`String::from(url)`).  The contract names the result; what
/// the parse error holds is left unsaid.  `url` panics only past 4 GiB of
/// URL, which the size bound rules out.
#[verifier::external_body]
fn parse_url_with_query(input: &str, pairs: &Vec<(String, String)>) -> (r: std::result::Result<
    String,
    url::ParseError,
>)
    requires
        input@.len() + pairs_size(pair_texts(pairs@)) <= max_request_size(),
    ensures
        r is Ok <==> url_with_query(input@, pair_texts(pairs@)) is Some,
        r matches Ok(s) ==> url_with_query(input@, pair_texts(pairs@)) == Some(s@),
{
    url::Url::parse_with_params(input, pairs.iter()).map(String::from)
}

/// Name of the query parameter that carries the API key.
pub open spec fn api_key_param() -> Seq<char> {
    seq!['a', 'p', 'i', 'k', 'e', 'y']
}

/// The address of an endpoint: the base URL, a `/`, and the endpoint without
/// its leading slashes.
pub open spec fn endpoint_address(base_url: Seq<char>, endpoint: Seq<char>) -> Seq<char> {
    base_url + seq!['/'] + trim_leading_slashes(endpoint)
}

/// The pairs of the query of an optional parameter set.
pub open spec fn params_pairs(params: Option<QueryParams>) -> Seq<(Seq<char>, Seq<char>)> {
    match params {
        Some(q) => q@,
        None => Seq::empty(),
    }
}

/// The query of a request: the API key first, then the parameters in order.
pub open spec fn request_pairs(api_key: Seq<char>, params: Seq<(Seq<char>, Seq<char>)>) -> Seq<
    (Seq<char>, Seq<char>),
> {
    seq![(api_key_param(), api_key)] + params
}

/// The URL of a request, or `None` when its address does not parse.
pub open spec fn request_url(
    base_url: Seq<char>,
    api_key: Seq<char>,
    endpoint: Seq<char>,
    params: Seq<(Seq<char>, Seq<char>)>,
) -> Option<Seq<char>> {
    url_with_query(endpoint_address(base_url, endpoint), request_pairs(api_key, params))
}

/// The request stays within the size the client builds URLs for.
pub open spec fn request_fits(
    base_url: Seq<char>,
    api_key: Seq<char>,
    endpoint: Seq<char>,
    params: Seq<(Seq<char>, Seq<char>)>,
) -> bool {
    base_url.len() + 1 + endpoint.len() + 8 + api_key.len() + pairs_size(params)
        <= max_request_size()
}

/// Leading slashes of an endpoint make no difference to the URL of a request.
pub proof fn law_leading_slash_irrelevant(
    base_url: Seq<char>,
    api_key: Seq<char>,
    endpoint: Seq<char>,
    params: Seq<(Seq<char>, Seq<char>)>,
)
    ensures
        request_url(base_url, api_key, seq!['/'] + endpoint, params) == request_url(
            base_url,
            api_key,
            endpoint,
            params,
        ),
{
    let e = seq!['/'] + endpoint;
    assert(e.drop_first() =~= endpoint);
    assert(trim_leading_slashes(e) == trim_leading_slashes(endpoint));
}

proof fn lemma_trim_shorter(s: Seq<char>)
    ensures
        trim_leading_slashes(s).len() <= s.len(),
    decreases s.len(),
{
    if s.len() > 0 && s[0] == '/' {
        lemma_trim_shorter(s.drop_first());
    }
}

proof fn lemma_pairs_size_concat(a: Seq<(Seq<char>, Seq<char>)>, b: Seq<(Seq<char>, Seq<char>)>)
    ensures
        pairs_size(a + b) == pairs_size(a) + pairs_size(b),
    decreases b.len(),
{
    if b.len() == 0 {
        assert(a + b =~= a);
    } else {
        assert((a + b).drop_last() =~= a + b.drop_last());
        lemma_pairs_size_concat(a, b.drop_last());
    }
}

/// Size of a pair list in a query (see `pairs_size`), or any number above
/// `max_request_size()` when it exceeds that.
fn capped_pairs_size(pairs: &Vec<(String, String)>) -> (r: usize)
    ensures
        r <= max_request_size() <==> pairs_size(pair_texts(pairs@)) <= max_request_size(),
        r <= max_request_size() ==> r == pairs_size(pair_texts(pairs@)),
{
    let ghost t = pair_texts(pairs@);
    let n = pairs.len();
    let mut total: usize = 0;
    let mut i: usize = 0;
    while i < n
        invariant
            i <= n,
            n == pairs@.len(),
            t == pair_texts(pairs@),
            total <= max_request_size(),
            total == pairs_size(t.take(i as int)),
        decreases n - i,
    {
        assert(t.take(i + 1).drop_last() =~= t.take(i as int));
        let k = pairs[i].0.unicode_len();
        let v = pairs[i].1.unicode_len();
        if k > 0x0800_0000 || v > 0x0800_0000 || total + k + v + 2 > 0x0800_0000 {
            proof {
                lemma_pairs_size_concat(t.take(i + 1), t.skip(i + 1));
                assert(t.take(i + 1) + t.skip(i + 1) =~= t);
            }
            return 0x0800_0001;
        }
        total = total + k + v + 2;
        i = i + 1;
    }
    assert(t.take(n as int) =~= t);
    total
}

// ---------------------------------------------------------------------------
// Responses
// ---------------------------------------------------------------------------

/// HTTP success statuses (2xx), as `reqwest::StatusCode::is_success` has them.
pub open spec fn success_status(status: int) -> bool {
    200 <= status < 300
}

/// Whether an HTTP status means success (200 to 299).
pub fn is_success(status: u16) -> (r: bool)
    ensures
        r == success_status(status as int),
{
    200 <= status && status < 300
}

/// The text of an error answer: what was read, or `"Unknown error"` when the
/// body could not be read.
pub fn error_text_or_default(text: Option<String>) -> (r: String)
    ensures
        text matches Some(t) ==> r == t,
        text is None ==> r@ == "Unknown error"@,
{
    match text {
        Some(t) => t,
        None => String::from_str("Unknown error"),
    }
}

/// `e` is the error for an answer with the non-success status `status` and
/// the body text `error_text`: 401 and 403 are authentication failures, 429 a
/// rate limit, 402 an exhausted quota, and any other status an API error
/// carrying the status and the text.
pub open spec fn is_status_error(status: u16, error_text: Seq<char>, e: PolygonError) -> bool {
    if status == 401 {
        e matches PolygonError::Authentication { message }
            && message@ == "Invalid API key or unauthorized access"@
    } else if status == 403 {
        e matches PolygonError::Authentication { message }
            && message@ == "Forbidden - check your API key permissions"@
    } else if status == 429 {
        e matches PolygonError::RateLimit { message }
            && message@ == "Rate limit exceeded - please slow down your requests"@
    } else if status == 402 {
        e matches PolygonError::QuotaExceeded { message }
            && message@ == "Quota exceeded - upgrade your plan or wait for reset"@
    } else {
        e matches PolygonError::ApiError { status: s, message } && s == status && message@
            == error_text
    }
}

/// The error reported for an answer with a non-success HTTP status:
/// 401 and 403 are authentication failures, 429 a rate limit, 402 an
/// exhausted quota, and any other status an API error carrying the status
/// and the body of the answer.
pub fn status_error(status: u16, error_text: String) -> (e: PolygonError)
    ensures
        is_status_error(status, error_text@, e),
        status == 401 ==> (e matches PolygonError::Authentication { message }
            && message@ == "Invalid API key or unauthorized access"@),
        status == 403 ==> (e matches PolygonError::Authentication { message }
            && message@ == "Forbidden - check your API key permissions"@),
        status == 429 ==> (e matches PolygonError::RateLimit { message }
            && message@ == "Rate limit exceeded - please slow down your requests"@),
        status == 402 ==> (e matches PolygonError::QuotaExceeded { message }
            && message@ == "Quota exceeded - upgrade your plan or wait for reset"@),
        status != 401 && status != 403 && status != 429 && status != 402 ==> (
        e matches PolygonError::ApiError { status: s, message } && s == status && message
            == error_text),
{
    if status == 401 {
        PolygonError::authentication("Invalid API key or unauthorized access")
    } else if status == 403 {
        PolygonError::authentication("Forbidden - check your API key permissions")
    } else if status == 429 {
        PolygonError::rate_limit("Rate limit exceeded - please slow down your requests")
    } else if status == 402 {
        PolygonError::quota_exceeded("Quota exceeded - upgrade your plan or wait for reset")
    } else {
        PolygonError::api_error(status, error_text)
    }
}

/// Longest response text (in bytes) quoted whole in an error message.
pub open spec fn max_quoted_bytes() -> nat {
    500
}

/// A response text may be cut after its first 500 bytes (always so when it is
/// no longer than that).
pub open spec fn cuttable(text: Seq<char>) -> bool {
    vstd::utf8::encode_utf8(text).len() > max_quoted_bytes() ==> is_char_boundary(
        vstd::utf8::encode_utf8(text),
        max_quoted_bytes() as int,
    )
}

/// The response text as quoted in an error message: whole when it has at most
/// 500 bytes, otherwise its first 500 bytes followed by a note with the total
/// length (in bytes, though the note says characters).
pub open spec fn quoted_response(text: Seq<char>) -> Seq<char> {
    let bytes = vstd::utf8::encode_utf8(text);
    if bytes.len() > max_quoted_bytes() {
        decode_utf8(bytes.take(max_quoted_bytes() as int)) + "... (truncated, "@ + nat_text(
            bytes.len(),
        ) + " total chars)"@
    } else {
        text
    }
}

/// Shortens a response text for an error message (see `quoted_response`).
pub fn truncate_response_text(json_text: &str) -> (r: String)
    requires
        cuttable(json_text@),
    ensures
        r@ == quoted_response(json_text@),
{
    let len = json_text.as_bytes().len();
    if len > 500 {
        let (head, _tail) = json_text.split_at(500);
        proof {
            vstd::utf8::encode_utf8_decode_utf8(head@);
            assert(head.spec_bytes() == vstd::utf8::encode_utf8(head@));
            assert(json_text.spec_bytes().take(500) =~= json_text.spec_bytes().subrange(0, 500));
            assert(head@ == decode_utf8(vstd::utf8::encode_utf8(json_text@).take(500)));
        }
        let mut r = String::from_str(head);
        r.append("... (truncated, ");
        let count = usize_text(len);
        r.append(count.as_str());
        r.append(" total chars)");
        assert(len == vstd::utf8::encode_utf8(json_text@).len());
        r
    } else {
        String::from_str(json_text)
    }
}

/// The text of an optional string slice.
pub open spec fn str_option_text(o: Option<&str>) -> Option<Seq<char>> {
    match o {
        Some(s) => Some(s@),
        None => None,
    }
}

/// The body is a standard API response whose status is not `"OK"`.
pub open spec fn reports_failure(api_status: Option<Seq<char>>) -> bool {
    api_status matches Some(st) && st != "OK"@
}

/// `e` is the error for a successful answer whose body `json_text` did not
/// deserialize for the reason `reason`: an API error naming the body's status
/// when the body reports a failure (`api_status`), otherwise an
/// invalid-response error quoting the reason and (a cut of) the body.
pub open spec fn is_deserialization_error(
    status: u16,
    api_status: Option<Seq<char>>,
    reason: Seq<char>,
    json_text: Seq<char>,
    e: PolygonError,
) -> bool {
    if reports_failure(api_status) {
        e matches PolygonError::ApiError { status: s, message } && s == status && message@
            == "API returned status: "@ + api_status->0
    } else {
        e matches PolygonError::InvalidResponse { message } && message@
            == "Failed to deserialize response: "@ + reason + ". Response was: "@
            + quoted_response(json_text)
    }
}

/// The error for a successful answer whose body did not deserialize.  When
/// the body is a standard response whose status is not `"OK"`, it is an API
/// error naming that status; otherwise an invalid-response error quoting the
/// deserializer's reason and (a cut of) the body.
pub fn deserialization_error(
    status: u16,
    api_status: Option<&str>,
    reason: &str,
    json_text: &str,
) -> (e: PolygonError)
    requires
        !reports_failure(str_option_text(api_status)) ==> cuttable(json_text@),
    ensures
        is_deserialization_error(status, str_option_text(api_status), reason@, json_text@, e),
        (api_status matches Some(st) && st@ != "OK"@) ==> (e matches PolygonError::ApiError {
            status: s,
            message,
        } && s == status && message@ == "API returned status: "@ + api_status->0@),
        !(api_status matches Some(st) && st@ != "OK"@) ==> (
        e matches PolygonError::InvalidResponse { message } && message@
            == "Failed to deserialize response: "@ + reason@ + ". Response was: "@
            + quoted_response(json_text@)),
{
    if let Some(st) = api_status {
        let st_text = String::from_str(st);
        let ok_text = String::from_str("OK");
        if st_text != ok_text {
            let mut message = String::from_str("API returned status: ");
            message.append(st);
            return PolygonError::api_error(status, message);
        }
    }
    let mut message = String::from_str("Failed to deserialize response: ");
    message.append(reason);
    message.append(". Response was: ");
    let quoted = truncate_response_text(json_text);
    message.append(quoted.as_str());
    PolygonError::invalid_response(message)
}

/// Why the body of a successful answer did not deserialize: the
/// deserializer's error, and the `status` field of the body when the body
/// reads as a standard API response.
#[derive(Debug)]
pub struct DecodeFailure {
    /// The deserializer's error
    pub error: serde_json::Error,
    /// The `status` of the body read as a standard API response, if it reads so
    pub api_status: Option<String>,
}

/// The text of an optional string.
pub open spec fn string_option_text(o: Option<String>) -> Option<Seq<char>> {
    match o {
        Some(s) => Some(s@),
        None => None,
    }
}

/// The body text whose reading failed is reported as `"Unknown error"`.
pub open spec fn read_text(body: std::result::Result<String, reqwest::Error>) -> Seq<char> {
    match body {
        Ok(t) => t@,
        Err(_) => "Unknown error"@,
    }
}

/// What an answer comes to, from its HTTP status, the reading of its body,
/// and (for a successful status and a body that was read) the deserializing
/// of that body: a non-success status gives the status error with the body
/// text; a body that could not be read gives an HTTP error; a body that
/// deserialized gives its value; otherwise the deserialization error.
pub fn response_outcome<T>(
    status: u16,
    body: std::result::Result<String, reqwest::Error>,
    decoded: Option<std::result::Result<T, DecodeFailure>>,
) -> (r: Result<T>)
    requires
        success_status(status as int) && body is Ok ==> decoded is Some,
        success_status(status as int) ==> (body matches Ok(text) ==> (decoded matches Some(
            Err(f),
        ) ==> (!reports_failure(string_option_text(f.api_status)) ==> cuttable(text@)))),
    ensures
        !success_status(status as int) ==> (r matches Err(e) && is_status_error(
            status,
            read_text(body),
            e,
        )),
        success_status(status as int) ==> (body matches Err(h) ==> r == Err::<T, PolygonError>(
            PolygonError::Http(h),
        )),
        success_status(status as int) ==> (body is Ok ==> (decoded matches Some(Ok(d)) ==> r
            == Ok::<T, PolygonError>(d))),
        success_status(status as int) ==> (body matches Ok(text) ==> (decoded matches Some(
            Err(f),
        ) ==> (r matches Err(e) && exists|reason: String|
            to_string_from_display_ensures::<serde_json::Error>(&f.error, reason)
                && is_deserialization_error(
                status,
                string_option_text(f.api_status),
                reason@,
                text@,
                e,
            )))),
{
    if !is_success(status) {
        let text = match body {
            Ok(t) => Some(t),
            Err(_) => None,
        };
        proof {
            reveal_strlit("Unknown error");
        }
        return Err(status_error(status, error_text_or_default(text)));
    }
    let json_text = match body {
        Ok(t) => t,
        Err(h) => {
            return Err(PolygonError::from(h));
        },
    };
    match decoded {
        Some(Ok(data)) => Ok(data),
        Some(Err(f)) => {
            let reason = f.error.to_string();
            let api_status: Option<&str> = match &f.api_status {
                Some(st) => Some(st.as_str()),
                None => None,
            };
            Err(deserialization_error(status, api_status, reason.as_str(), json_text.as_str()))
        },
        None => {
            // the precondition gives a read body of a successful answer its decoding
            assert(false);
            Err(PolygonError::invalid_response(json_text))
        },
    }
}

/// Main client for interacting with the Polygon.io API
#[derive(Debug)]
pub struct PolygonClient {
    /// API key for authentication
    api_key: String,
    /// Base URL for the API
    base_url: String,
}

impl Clone for PolygonClient {
    /// A copy of the client, with the same API key and base URL.
    fn clone(&self) -> (r: Self)
        ensures
            r == *self,
    {
        PolygonClient { api_key: self.api_key.clone(), base_url: self.base_url.clone() }
    }
}

impl PolygonClient {
    /// The API key of the client.
    pub closed spec fn spec_api_key(self) -> Seq<char> {
        self.api_key@
    }

    /// The base URL of the client.
    pub closed spec fn spec_base_url(self) -> Seq<char> {
        self.base_url@
    }

    /// Create a new Polygon.io client with the provided API key
    pub fn new(api_key: String) -> (r: Self)
        ensures
            r.spec_api_key() == api_key@,
            r.spec_base_url() == POLYGON_BASE_URL@,
    {
        PolygonClient { api_key, base_url: String::from_str(POLYGON_BASE_URL) }
    }

    /// Create a new client with a custom base URL (useful for testing)
    pub fn with_base_url(api_key: String, base_url: String) -> (r: Self)
        ensures
            r.spec_api_key() == api_key@,
            r.spec_base_url() == base_url@,
    {
        PolygonClient { api_key, base_url }
    }

    /// Get the API key being used by this client
    pub fn api_key(&self) -> (r: &str)
        ensures
            r@ == self.spec_api_key(),
    {
        self.api_key.as_str()
    }

    /// Get the base URL that requests go to
    pub fn base_url(&self) -> (r: &str)
        ensures
            r@ == self.spec_base_url(),
    {
        self.base_url.as_str()
    }

    /// Get a stocks client for accessing stock market data
    pub fn stocks(&self) -> (r: StocksClient)
        ensures
            r.spec_client() == *self,
    {
        StocksClient::new(self.clone())
    }

    /// Get an options client for accessing options market data
    pub fn options(&self) -> (r: OptionsClient)
        ensures
            r.spec_client() == *self,
    {
        OptionsClient::new(self.clone())
    }

    /// Get a futures client for accessing futures market data
    pub fn futures(&self) -> (r: FuturesClient)
        ensures
            r.spec_client() == *self,
    {
        FuturesClient::new(self.clone())
    }

    /// Get an indices client for accessing indices market data
    pub fn indices(&self) -> (r: IndicesClient)
        ensures
            r.spec_client() == *self,
    {
        IndicesClient::new(self.clone())
    }

    /// Get a forex client for accessing forex market data
    pub fn forex(&self) -> (r: ForexClient)
        ensures
            r.spec_client() == *self,
    {
        ForexClient::new(self.clone())
    }

    /// Get a crypto client for accessing cryptocurrency market data
    pub fn crypto(&self) -> (r: CryptoClient)
        ensures
            r.spec_client() == *self,
    {
        CryptoClient::new(self.clone())
    }

    /// Whether a request to `endpoint` with `params` is within the size the
    /// client builds URLs for (the condition of `build_url`).
    pub fn fits_request(&self, endpoint: &str, params: &Option<QueryParams>) -> (r: bool)
        ensures
            r == request_fits(
                self.spec_base_url(),
                self.spec_api_key(),
                endpoint@,
                params_pairs(*params),
            ),
    {
        let extra: usize = match params {
            Some(q) => capped_pairs_size(q.pairs()),
            None => 0,
        };
        let total: u128 = self.base_url.unicode_len() as u128 + 1 + endpoint.unicode_len() as u128 + 8
            + self.api_key.unicode_len() as u128 + extra as u128;
        total <= 0x0800_0000
    }

    /// Build a complete URL for an API endpoint with parameters: the base URL,
    /// a `/`, the endpoint without its leading slashes, and a query with the
    /// API key (parameter `apikey`) followed by the parameters in order.
    pub fn build_url(&self, endpoint: &str, params: Option<QueryParams>) -> (r: Result<String>)
        requires
            request_fits(self.spec_base_url(), self.spec_api_key(), endpoint@, params_pairs(params)),
        ensures
            request_url(self.spec_base_url(), self.spec_api_key(), endpoint@, params_pairs(params))
                matches Some(u) ==> (r matches Ok(s) && s@ == u),
            request_url(self.spec_base_url(), self.spec_api_key(), endpoint@, params_pairs(params))
                is None ==> r matches Err(PolygonError::Url(_)),
            r is Ok <==> url_with_query(
                self.spec_base_url() + "/"@ + trim_leading_slashes(endpoint@),
                seq![("apikey"@, self.spec_api_key())] + params_pairs(params),
            ) is Some,
            r matches Ok(s) ==> url_with_query(
                self.spec_base_url() + "/"@ + trim_leading_slashes(endpoint@),
                seq![("apikey"@, self.spec_api_key())] + params_pairs(params),
            ) == Some(s@),
    {
        let ghost rest_view = params_pairs(params);
        let trimmed = trim_start_slashes(endpoint);
        let mut address = self.base_url.clone();
        address.append("/");
        address.append(trimmed);
        proof {
            reveal_strlit("/");
            reveal_strlit("apikey");
            lemma_trim_shorter(endpoint@);
        }
        let name = String::from_str("apikey");
        assert(name@ =~= api_key_param());
        let mut pairs: Vec<(String, String)> = Vec::new();
        pairs.push((name, self.api_key.clone()));
        assert(pair_texts(pairs@)[0] == (api_key_param(), self.spec_api_key()));
        assert(pair_texts(pairs@) =~= seq![(api_key_param(), self.spec_api_key())]);
        if let Some(p) = params {
            let mut rest = p.into_pairs();
            pairs.append(&mut rest);
        }
        proof {
            assert(pair_texts(pairs@) =~= request_pairs(self.spec_api_key(), rest_view));
            lemma_pairs_size_concat(seq![(api_key_param(), self.spec_api_key())], rest_view);
            assert(pairs_size(seq![(api_key_param(), self.spec_api_key())]) == 8
                + self.spec_api_key().len()) by {
                assert(seq![(api_key_param(), self.spec_api_key())].drop_last() =~= Seq::<
                    (Seq<char>, Seq<char>),
                >::empty());
            }
            assert(address@ =~= endpoint_address(self.spec_base_url(), endpoint@));
        }
        match parse_url_with_query(address.as_str(), &pairs) {
            Ok(u) => Ok(u),
            Err(e) => Err(PolygonError::from(e)),
        }
    }
}

} // verus!
