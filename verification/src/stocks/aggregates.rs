//! Aggregates (bars) data for stocks: requests for grouped daily bars and
//! previous-day closes.

use vstd::prelude::*;
use crate::client::PolygonClient;
use crate::query::QueryParams;
use crate::query::{keys_unique, lookup, has_key};
use crate::request::query_pairs;
use crate::request::{
    ApiRequest, is_request, opt_pair, bool_value_text, bool_value, put_param, make_request,
    lemma_fresh_name,
};
use crate::text::bool_text;
use crate::stocks::{path, pairs_of};

verus! {

/// Client for stock aggregates data
#[derive(Debug, Clone)]
pub struct AggregatesClient {
    client: PolygonClient,
}

/// Parameters of a grouped daily request
#[derive(Debug, Clone, Default)]
pub struct GroupedDailyParams {
    pub adjusted: Option<bool>,
}

/// Parameters of a previous close request
#[derive(Debug, Clone, Default)]
pub struct PreviousCloseParams {
    pub adjusted: Option<bool>,
}

/// The query of a request whose only filter is `adjusted`.
pub open spec fn adjusted_pairs(adjusted: Option<bool>) -> Seq<(Seq<char>, Seq<char>)> {
    opt_pair("adjusted"@, bool_value_text(adjusted))
}

/// The `adjusted` filter, when set (to `true` or to `false`), is sent with
/// its text; when unset nothing is sent.
pub proof fn law_adjusted_query(adjusted: Option<bool>, k: Seq<char>)
    ensures
        adjusted matches Some(b) ==> lookup(adjusted_pairs(adjusted), "adjusted"@) == Some(
            bool_text(b),
        ),
        adjusted is None ==> lookup(adjusted_pairs(adjusted), "adjusted"@) is None,
        k != "adjusted"@ ==> lookup(adjusted_pairs(adjusted), k) is None,
        keys_unique(adjusted_pairs(adjusted)),
{
    let s = adjusted_pairs(adjusted);
    if let Some(b) = adjusted {
        assert(s[0].0 == "adjusted"@);
        assert(has_key(s, "adjusted"@));
    }
    if has_key(s, k) {
        let i = choose|i: int| 0 <= i < s.len() && #[trigger] s[i].0 == k;
        assert(i == 0);
    }
}

/// Parameters with the `adjusted` filter only.
fn adjusted_query(adjusted: Option<bool>) -> (q: QueryParams)
    ensures
        q@ == adjusted_pairs(adjusted),
        lookup(q@, "adjusted"@) == (match adjusted {
            Some(b) => Some(bool_text(b)),
            None => None,
        }),
        forall|k: Seq<char>| k != "adjusted"@ ==> #[trigger] lookup(q@, k) is None,
{
    proof {
        reveal_strlit("adjusted");
    }
    let mut q = QueryParams::new();
    let ghost n0: Seq<Seq<char>> = Seq::empty();
    proof {
        lemma_fresh_name(n0, "adjusted"@);
    }
    put_param(&mut q, "adjusted", bool_value(adjusted), Ghost(n0));
    assert(q@ =~= adjusted_pairs(adjusted));
    proof {
        law_adjusted_query(adjusted, "adjusted"@);
        assert forall|k: Seq<char>| k != "adjusted"@ implies #[trigger] lookup(q@, k) is None by {
            law_adjusted_query(adjusted, k);
        }
    }
    q
}

impl AggregatesClient {
    /// The client that requests go through.
    pub closed spec fn spec_client(self) -> PolygonClient {
        self.client
    }

    /// Create a new aggregates client
    pub fn new(client: PolygonClient) -> (r: Self)
        ensures
            r.spec_client() == client,
    {
        AggregatesClient { client }
    }

    /// The client that requests go through.
    pub fn client(&self) -> (r: &PolygonClient)
        ensures
            *r == self.spec_client(),
    {
        &self.client
    }

    /// Request for the grouped daily aggregates of the entire market on a date
    pub fn grouped_daily_request(&self, date: &str, params: Option<GroupedDailyParams>) -> (r:
        ApiRequest)
        ensures
            is_request(
                r,
                "v2/aggs/grouped/locale/us/market/stocks/"@ + date@,
                pairs_of(params, |p: GroupedDailyParams| adjusted_pairs(p.adjusted)),
            ),
            lookup(query_pairs(r.query), "adjusted"@) == (match params {
                Some(p) => match p.adjusted {
                    Some(b) => Some(bool_text(b)),
                    None => None,
                },
                None => None,
            }),
            forall|k: Seq<char>| k != "adjusted"@ ==> #[trigger] lookup(query_pairs(r.query), k) is None,
    {
        let endpoint = path("v2/aggs/grouped/locale/us/market/stocks/", date);
        let q = match params {
            Some(p) => adjusted_query(p.adjusted),
            None => QueryParams::new(),
        };
        proof {
            if params is None {
                assert forall|k: Seq<char>| #[trigger] lookup(q@, k) is None by {
                    assert(!has_key(q@, k));
                }
            }
        }
        make_request(endpoint, q)
    }

    /// Request for the previous close of a ticker
    pub fn previous_close_request(&self, ticker: &str, params: Option<PreviousCloseParams>) -> (r:
        ApiRequest)
        ensures
            is_request(
                r,
                "v2/aggs/ticker/"@ + ticker@ + "/prev"@,
                pairs_of(params, |p: PreviousCloseParams| adjusted_pairs(p.adjusted)),
            ),
            lookup(query_pairs(r.query), "adjusted"@) == (match params {
                Some(p) => match p.adjusted {
                    Some(b) => Some(bool_text(b)),
                    None => None,
                },
                None => None,
            }),
            forall|k: Seq<char>| k != "adjusted"@ ==> #[trigger] lookup(query_pairs(r.query), k) is None,
    {
        let mut endpoint = path("v2/aggs/ticker/", ticker);
        endpoint.append("/prev");
        let q = match params {
            Some(p) => adjusted_query(p.adjusted),
            None => QueryParams::new(),
        };
        proof {
            if params is None {
                assert forall|k: Seq<char>| #[trigger] lookup(q@, k) is None by {
                    assert(!has_key(q@, k));
                }
            }
        }
        make_request(endpoint, q)
    }
}

} // verus!
