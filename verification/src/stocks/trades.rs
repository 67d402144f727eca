//! Trades data for stocks: requests for the individual trades of a ticker.

use vstd::prelude::*;
use crate::client::PolygonClient;
use crate::query::QueryParams;
use crate::query::{keys_unique, lookup};
use crate::request::query_pairs;
use crate::request::{
    ApiRequest, is_request, opt_pair, string_text, i32_value_text, i32_value, put_param,
    make_request, lemma_fresh_name, fields_pairs, names_distinct, lemma_fields_lookup,
    lemma_fields_push,
};
use crate::stocks::path;

verus! {

/// Client for stock trades data
#[derive(Debug, Clone)]
pub struct TradesClient {
    client: PolygonClient,
}

/// Parameters of a trades request
#[derive(Debug, Clone, Default)]
pub struct TradesParams {
    pub timestamp_gte: Option<String>,
    pub timestamp_lte: Option<String>,
    pub sort: Option<String>,
    pub limit: Option<i32>,
}

/// The query of a trades request: the date, then each filter that is set.
pub open spec fn trades_pairs(date: Seq<char>, params: Option<TradesParams>) -> Seq<
    (Seq<char>, Seq<char>),
> {
    seq![("timestamp"@, date)] + match params {
        Some(p) => opt_pair("timestamp.gte"@, string_text(p.timestamp_gte)) + opt_pair(
            "timestamp.lte"@,
            string_text(p.timestamp_lte),
        ) + opt_pair("sort"@, string_text(p.sort)) + opt_pair("limit"@, i32_value_text(p.limit)),
        None => Seq::empty(),
    }
}

/// A trades request always sends its date as `timestamp`; with parameters,
/// each filter that is set is sent under its own name with its text, whatever
/// the other filters are; nothing else is sent, and no name twice.
pub proof fn law_trades_query(date: Seq<char>, params: Option<TradesParams>, k: Seq<char>)
    ensures
        lookup(trades_pairs(date, params), "timestamp"@) == Some(date),
        params matches Some(p) ==> lookup(trades_pairs(date, params), "timestamp.gte"@)
            == string_text(p.timestamp_gte),
        params matches Some(p) ==> lookup(trades_pairs(date, params), "timestamp.lte"@)
            == string_text(p.timestamp_lte),
        params matches Some(p) ==> lookup(trades_pairs(date, params), "sort"@) == string_text(
            p.sort,
        ),
        params matches Some(p) ==> lookup(trades_pairs(date, params), "limit"@) == i32_value_text(
            p.limit,
        ),
        params is None && k != "timestamp"@ ==> lookup(trades_pairs(date, params), k) is None,
        k != "timestamp"@ && k != "timestamp.gte"@ && k != "timestamp.lte"@ && k != "sort"@ && k
            != "limit"@ ==> lookup(trades_pairs(date, params), k) is None,
        keys_unique(trades_pairs(date, params)),
{
    reveal_strlit("timestamp");
    reveal_strlit("timestamp.gte");
    reveal_strlit("timestamp.lte");
    reveal_strlit("sort");
    reveal_strlit("limit");
    broadcast use lemma_fields_push;

    let f0 = Seq::<(Seq<char>, Option<Seq<char>>)>::empty().push(("timestamp"@, Some(date)));
    assert(Seq::<(Seq<char>, Seq<char>)>::empty() + opt_pair(f0[0].0, f0[0].1) =~= opt_pair(
        f0[0].0,
        f0[0].1,
    ));
    match params {
        Some(p) => {
            let f = f0.push(("timestamp.gte"@, string_text(p.timestamp_gte))).push(
                ("timestamp.lte"@, string_text(p.timestamp_lte)),
            ).push(("sort"@, string_text(p.sort))).push(("limit"@, i32_value_text(p.limit)));
            assert(fields_pairs(f) =~= trades_pairs(date, params));
            assert(names_distinct(f)) by {
                assert forall|i: int, j: int|
                    0 <= i < f.len() && 0 <= j < f.len() && i != j implies #[trigger] f[i].0
                        != #[trigger] f[j].0 by {
                    assert(f[i].0.len() != f[j].0.len() || f[i].0[0] != f[j].0[0] || f[i].0[10]
                        != f[j].0[10]);
                }
            }
            lemma_fields_lookup(f, k);
            assert forall|i: int| 0 <= i < f.len() implies lookup(
                trades_pairs(date, params),
                #[trigger] f[i].0,
            ) == f[i].1 by {
                lemma_fields_lookup(f, f[i].0);
            }
            assert(f[0].0 == "timestamp"@ && f[1].0 == "timestamp.gte"@);
            assert(f[2].0 == "timestamp.lte"@ && f[3].0 == "sort"@ && f[4].0 == "limit"@);
        },
        None => {
            assert(fields_pairs(f0) =~= trades_pairs(date, params));
            assert(names_distinct(f0));
            lemma_fields_lookup(f0, k);
            lemma_fields_lookup(f0, "timestamp"@);
            assert(f0[0].0 == "timestamp"@);
        },
    }
}

impl TradesClient {
    /// The client that requests go through.
    pub closed spec fn spec_client(self) -> PolygonClient {
        self.client
    }

    /// Create a new trades client
    pub fn new(client: PolygonClient) -> (r: Self)
        ensures
            r.spec_client() == client,
    {
        TradesClient { client }
    }

    /// The client that requests go through.
    pub fn client(&self) -> (r: &PolygonClient)
        ensures
            *r == self.spec_client(),
    {
        &self.client
    }

    /// Request for the trades of a ticker on a given date
    pub fn trades_request(&self, ticker: &str, date: &str, params: Option<TradesParams>) -> (r:
        ApiRequest)
        ensures
            is_request(r, "v3/trades/"@ + ticker@, trades_pairs(date@, params)),
            lookup(query_pairs(r.query), "timestamp"@) == Some(date@),
            params matches Some(p) ==> {
                &&& lookup(query_pairs(r.query), "timestamp.gte"@) == string_text(p.timestamp_gte)
                &&& lookup(query_pairs(r.query), "timestamp.lte"@) == string_text(p.timestamp_lte)
                &&& lookup(query_pairs(r.query), "sort"@) == string_text(p.sort)
                &&& lookup(query_pairs(r.query), "limit"@) == i32_value_text(p.limit)
            },
            forall|k: Seq<char>|
                #[trigger] lookup(query_pairs(r.query), k) is Some ==> (k == "timestamp"@ || (params is Some && (k
                    == "timestamp.gte"@ || k == "timestamp.lte"@ || k == "sort"@ || k
                    == "limit"@))),
    {
        proof {
            reveal_strlit("timestamp");
            reveal_strlit("timestamp.gte");
            reveal_strlit("timestamp.lte");
            reveal_strlit("sort");
            reveal_strlit("limit");
        }
        let ghost spec_params = params;
        let endpoint = path("v3/trades/", ticker);
        let mut q = QueryParams::new();
        let ghost n0: Seq<Seq<char>> = Seq::empty();
        proof {
            lemma_fresh_name(n0, "timestamp"@);
        }
        put_param(&mut q, "timestamp", Some(String::from_str(date)), Ghost(n0));
        let ghost n1 = n0.push("timestamp"@);
        if let Some(p) = params {
            proof {
                lemma_fresh_name(n1, "timestamp.gte"@);
            }
            put_param(&mut q, "timestamp.gte", p.timestamp_gte, Ghost(n1));
            let ghost n2 = n1.push("timestamp.gte"@);
            assert(!n2.contains("timestamp.lte"@)) by {
                assert forall|j: int| 0 <= j < n2.len() implies n2[j] != "timestamp.lte"@ by {
                    if j == 0 {
                        assert(n2[0].len() != "timestamp.lte"@.len());
                    } else {
                        assert(n2[1][10] != "timestamp.lte"@[10]);
                    }
                }
            }
            put_param(&mut q, "timestamp.lte", p.timestamp_lte, Ghost(n2));
            let ghost n3 = n2.push("timestamp.lte"@);
            proof {
                lemma_fresh_name(n3, "sort"@);
            }
            put_param(&mut q, "sort", p.sort, Ghost(n3));
            let ghost n4 = n3.push("sort"@);
            proof {
                lemma_fresh_name(n4, "limit"@);
            }
            put_param(&mut q, "limit", i32_value(p.limit), Ghost(n4));
            assert(q@ =~= trades_pairs(date@, spec_params));
        } else {
            assert(q@ =~= trades_pairs(date@, spec_params));
        }
        let r = make_request(endpoint, q);
        proof {
            law_trades_query(date@, spec_params, "timestamp"@);
            assert forall|k: Seq<char>| #[trigger] lookup(query_pairs(r.query), k) is Some implies (k == "timestamp"@ || (
            spec_params is Some && (k == "timestamp.gte"@ || k == "timestamp.lte"@ || k == "sort"@
                || k == "limit"@))) by {
                law_trades_query(date@, spec_params, k);
            }
        }
        r
    }
}

} // verus!
