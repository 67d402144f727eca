//! Stocks API: the requests of the stock market data endpoints.
//!
//! Organized as Polygon.io's documentation is:
//! - Market Data (trades, quotes, aggregates, snapshots)
//! - Reference Data (tickers, exchanges, conditions)
//! - Corporate Actions (dividends, splits)

pub mod aggregates;
pub mod market_data;
pub mod reference;
pub mod snapshots;
pub mod trades;

use vstd::prelude::*;
use crate::client::PolygonClient;
use crate::query::QueryParams;
use crate::query::{keys_unique, lookup};
use crate::request::query_pairs;
use crate::request::{
    lemma_fresh_name, fields_pairs, names_distinct, lemma_fields_lookup, lemma_fields_push, lemma_opt_pair_lookup,
    ApiRequest, is_request, opt_pair, string_text, i32_value_text, bool_value_text,
    date_value_text, i32_value, bool_value, date_value, put_param, make_request,
};
use crate::text::{int_text, i32_text, i64_text, join_text, texts, join_strings};
use crate::types::CalendarDate;

verus! {

/// Client for accessing stock market data from Polygon.io
#[derive(Debug, Clone)]
pub struct StocksClient {
    /// The main Polygon client
    client: PolygonClient,
}

/// Parameters for listing tickers
#[derive(Debug, Clone, Default)]
pub struct ListTickersParams {
    pub market: Option<String>,
    pub exchange: Option<String>,
    pub cusip: Option<String>,
    pub cik: Option<String>,
    pub date: Option<CalendarDate>,
    pub search: Option<String>,
    pub active: Option<bool>,
    pub sort: Option<String>,
    pub order: Option<String>,
    pub limit: Option<i32>,
}

/// Parameters for aggregates requests
#[derive(Debug, Clone, Default)]
pub struct AggregatesParams {
    pub adjusted: Option<bool>,
    pub sort: Option<String>,
    pub limit: Option<i32>,
}

/// Parameters for snapshot requests
#[derive(Debug, Clone, Default)]
pub struct SnapshotParams {
    pub tickers: Option<Vec<String>>,
}

/// Parameters for querying short interest data
#[derive(Debug, Clone)]
pub struct ShortInterestParams {
    pub ticker: String,
    pub settlement_date: Option<CalendarDate>,
    /// The days-to-cover filter, as the decimal text sent to the API
    pub days_to_cover: Option<String>,
    pub avg_daily_volume: Option<i64>,
    pub limit: Option<i32>,
    pub sort: Option<String>,
    pub cursor: Option<String>,
}

/// Address information for a company
#[derive(Debug, Clone)]
pub struct Address {
    pub address1: Option<String>,
    pub city: Option<String>,
    pub state: Option<String>,
    pub postal_code: Option<String>,
}

/// Branding information for a company
#[derive(Debug, Clone)]
pub struct Branding {
    pub logo_url: Option<String>,
    pub icon_url: Option<String>,
}

/// Market holiday information
#[derive(Debug, Clone)]
pub struct MarketHoliday {
    pub exchange: Option<String>,
    pub name: Option<String>,
    pub date: Option<String>,
    pub status: Option<String>,
    pub open: Option<String>,
    pub close: Option<String>,
}

impl ShortInterestParams {
    /// Create a new set of short interest parameters for the provided ticker
    pub fn new<T: Into<String>>(ticker: T) -> (r: Self)
        ensures
            call_ensures(T::into, (ticker,), r.ticker),
            r.settlement_date is None,
            r.days_to_cover is None,
            r.avg_daily_volume is None,
            r.limit is None,
            r.sort is None,
            r.cursor is None,
    {
        ShortInterestParams {
            ticker: ticker.into(),
            settlement_date: None,
            days_to_cover: None,
            avg_daily_volume: None,
            limit: None,
            sort: None,
            cursor: None,
        }
    }
}

/// The query of a ticker listing: each filter that is set, in this order.
pub open spec fn list_tickers_pairs(p: ListTickersParams) -> Seq<(Seq<char>, Seq<char>)> {
    opt_pair("market"@, string_text(p.market)) + opt_pair("exchange"@, string_text(p.exchange))
        + opt_pair("cusip"@, string_text(p.cusip)) + opt_pair("cik"@, string_text(p.cik))
        + opt_pair("date"@, date_value_text(p.date)) + opt_pair("search"@, string_text(p.search))
        + opt_pair("active"@, bool_value_text(p.active)) + opt_pair("sort"@, string_text(p.sort))
        + opt_pair("order"@, string_text(p.order)) + opt_pair("limit"@, i32_value_text(p.limit))
}

/// The query of a short interest request: the ticker, then each filter that
/// is set, in this order.
pub open spec fn short_interest_pairs(p: ShortInterestParams) -> Seq<(Seq<char>, Seq<char>)> {
    seq![("ticker"@, p.ticker@)] + opt_pair("settlement_date"@, date_value_text(p.settlement_date))
        + opt_pair("days_to_cover"@, string_text(p.days_to_cover)) + opt_pair(
        "avg_daily_volume"@,
        match p.avg_daily_volume {
            Some(v) => Some(int_text(v as int)),
            None => None,
        },
    ) + opt_pair("limit"@, i32_value_text(p.limit)) + opt_pair("sort"@, string_text(p.sort))
        + opt_pair("cursor"@, string_text(p.cursor))
}

/// The query of an aggregates request.
pub open spec fn aggregates_pairs(p: AggregatesParams) -> Seq<(Seq<char>, Seq<char>)> {
    opt_pair("adjusted"@, bool_value_text(p.adjusted)) + opt_pair("sort"@, string_text(p.sort))
        + opt_pair("limit"@, i32_value_text(p.limit))
}

/// Each filter of a ticker listing that is set is sent under its own name
/// with its text, whatever the other filters are; nothing else is sent, and
/// no name twice.
pub proof fn law_list_tickers_query(p: ListTickersParams, k: Seq<char>)
    ensures
        lookup(list_tickers_pairs(p), "market"@) == string_text(p.market),
        lookup(list_tickers_pairs(p), "exchange"@) == string_text(p.exchange),
        lookup(list_tickers_pairs(p), "cusip"@) == string_text(p.cusip),
        lookup(list_tickers_pairs(p), "cik"@) == string_text(p.cik),
        lookup(list_tickers_pairs(p), "date"@) == date_value_text(p.date),
        lookup(list_tickers_pairs(p), "search"@) == string_text(p.search),
        lookup(list_tickers_pairs(p), "active"@) == bool_value_text(p.active),
        lookup(list_tickers_pairs(p), "sort"@) == string_text(p.sort),
        lookup(list_tickers_pairs(p), "order"@) == string_text(p.order),
        lookup(list_tickers_pairs(p), "limit"@) == i32_value_text(p.limit),
        k != "market"@ && k != "exchange"@ && k != "cusip"@ && k != "cik"@ && k != "date"@ && k
            != "search"@ && k != "active"@ && k != "sort"@ && k != "order"@ && k != "limit"@
            ==> lookup(list_tickers_pairs(p), k) is None,
        keys_unique(list_tickers_pairs(p)),
{
    reveal_strlit("market");
    reveal_strlit("exchange");
    reveal_strlit("cusip");
    reveal_strlit("cik");
    reveal_strlit("date");
    reveal_strlit("search");
    reveal_strlit("active");
    reveal_strlit("sort");
    reveal_strlit("order");
    reveal_strlit("limit");
    let f = Seq::<(Seq<char>, Option<Seq<char>>)>::empty()
        .push(("market"@, string_text(p.market)))
        .push(("exchange"@, string_text(p.exchange)))
        .push(("cusip"@, string_text(p.cusip)))
        .push(("cik"@, string_text(p.cik)))
        .push(("date"@, date_value_text(p.date)))
        .push(("search"@, string_text(p.search)))
        .push(("active"@, bool_value_text(p.active)))
        .push(("sort"@, string_text(p.sort)))
        .push(("order"@, string_text(p.order)))
        .push(("limit"@, i32_value_text(p.limit)));
    broadcast use lemma_fields_push;

    assert(Seq::<(Seq<char>, Seq<char>)>::empty() + opt_pair(f[0].0, f[0].1) =~= opt_pair(f[0].0, f[0].1));
    assert(fields_pairs(f) == list_tickers_pairs(p));
    assert(names_distinct(f)) by {
        assert forall|i: int, j: int|
            0 <= i < f.len() && 0 <= j < f.len() && i != j implies #[trigger] f[i].0
                != #[trigger] f[j].0 by {
            assert(f[i].0.len() != f[j].0.len() || f[i].0[0] != f[j].0[0]);
        }
    }
    lemma_fields_lookup(f, k);
    assert forall|i: int| 0 <= i < f.len() implies lookup(list_tickers_pairs(p), #[trigger] f[i].0)
        == f[i].1 by {
        lemma_fields_lookup(f, f[i].0);
    }
    assert(f[0].0 == "market"@ && f[1].0 == "exchange"@ && f[2].0 == "cusip"@ && f[3].0 == "cik"@);
    assert(f[4].0 == "date"@ && f[5].0 == "search"@ && f[6].0 == "active"@ && f[7].0 == "sort"@);
    assert(f[8].0 == "order"@ && f[9].0 == "limit"@);
}

/// The ticker of a short interest request is always sent, and each filter
/// that is set is sent under its own name with its text, whatever the other
/// filters are; nothing else is sent, and no name twice.
pub proof fn law_short_interest_query(p: ShortInterestParams, k: Seq<char>)
    ensures
        lookup(short_interest_pairs(p), "ticker"@) == Some(p.ticker@),
        lookup(short_interest_pairs(p), "settlement_date"@) == date_value_text(p.settlement_date),
        lookup(short_interest_pairs(p), "days_to_cover"@) == string_text(p.days_to_cover),
        lookup(short_interest_pairs(p), "avg_daily_volume"@) == (match p.avg_daily_volume {
            Some(v) => Some(int_text(v as int)),
            None => None,
        }),
        lookup(short_interest_pairs(p), "limit"@) == i32_value_text(p.limit),
        lookup(short_interest_pairs(p), "sort"@) == string_text(p.sort),
        lookup(short_interest_pairs(p), "cursor"@) == string_text(p.cursor),
        k != "ticker"@ && k != "settlement_date"@ && k != "days_to_cover"@ && k
            != "avg_daily_volume"@ && k != "limit"@ && k != "sort"@ && k != "cursor"@ ==> lookup(
            short_interest_pairs(p),
            k,
        ) is None,
        keys_unique(short_interest_pairs(p)),
{
    reveal_strlit("ticker");
    reveal_strlit("settlement_date");
    reveal_strlit("days_to_cover");
    reveal_strlit("avg_daily_volume");
    reveal_strlit("limit");
    reveal_strlit("sort");
    reveal_strlit("cursor");
    let f = Seq::<(Seq<char>, Option<Seq<char>>)>::empty()
        .push(("ticker"@, Some(p.ticker@)))
        .push(("settlement_date"@, date_value_text(p.settlement_date)))
        .push(("days_to_cover"@, string_text(p.days_to_cover)))
        .push((
            "avg_daily_volume"@,
            match p.avg_daily_volume {
                Some(v) => Some(int_text(v as int)),
                None => None,
            },
        ))
        .push(("limit"@, i32_value_text(p.limit)))
        .push(("sort"@, string_text(p.sort)))
        .push(("cursor"@, string_text(p.cursor)));
    broadcast use lemma_fields_push;

    assert(Seq::<(Seq<char>, Seq<char>)>::empty() + opt_pair(f[0].0, f[0].1) =~= opt_pair(f[0].0, f[0].1));
    assert(fields_pairs(f) == short_interest_pairs(p));
    assert(names_distinct(f)) by {
        assert forall|i: int, j: int|
            0 <= i < f.len() && 0 <= j < f.len() && i != j implies #[trigger] f[i].0
                != #[trigger] f[j].0 by {
            assert(f[i].0.len() != f[j].0.len() || f[i].0[0] != f[j].0[0]);
        }
    }
    lemma_fields_lookup(f, k);
    assert forall|i: int| 0 <= i < f.len() implies lookup(short_interest_pairs(p), #[trigger] f[i].0)
        == f[i].1 by {
        lemma_fields_lookup(f, f[i].0);
    }
    assert(f[0].0 == "ticker"@ && f[1].0 == "settlement_date"@ && f[2].0 == "days_to_cover"@);
    assert(f[3].0 == "avg_daily_volume"@ && f[4].0 == "limit"@ && f[5].0 == "sort"@);
    assert(f[6].0 == "cursor"@);
}

/// Each filter of an aggregates request that is set is sent under its own
/// name with its text, whatever the other filters are; nothing else is sent,
/// and no name twice.
pub proof fn law_aggregates_query(p: AggregatesParams, k: Seq<char>)
    ensures
        lookup(aggregates_pairs(p), "adjusted"@) == bool_value_text(p.adjusted),
        lookup(aggregates_pairs(p), "sort"@) == string_text(p.sort),
        lookup(aggregates_pairs(p), "limit"@) == i32_value_text(p.limit),
        k != "adjusted"@ && k != "sort"@ && k != "limit"@ ==> lookup(aggregates_pairs(p), k) is None,
        keys_unique(aggregates_pairs(p)),
{
    reveal_strlit("adjusted");
    reveal_strlit("sort");
    reveal_strlit("limit");
    let f = Seq::<(Seq<char>, Option<Seq<char>>)>::empty()
        .push(("adjusted"@, bool_value_text(p.adjusted)))
        .push(("sort"@, string_text(p.sort)))
        .push(("limit"@, i32_value_text(p.limit)));
    broadcast use lemma_fields_push;

    assert(Seq::<(Seq<char>, Seq<char>)>::empty() + opt_pair(f[0].0, f[0].1) =~= opt_pair(f[0].0, f[0].1));
    assert(fields_pairs(f) == aggregates_pairs(p));
    assert(names_distinct(f)) by {
        assert forall|i: int, j: int|
            0 <= i < f.len() && 0 <= j < f.len() && i != j implies #[trigger] f[i].0
                != #[trigger] f[j].0 by {
            assert(f[i].0[0] != f[j].0[0]);
        }
    }
    lemma_fields_lookup(f, "adjusted"@);
    assert(f[0].0 == "adjusted"@);
    lemma_fields_lookup(f, "sort"@);
    assert(f[1].0 == "sort"@);
    lemma_fields_lookup(f, "limit"@);
    assert(f[2].0 == "limit"@);
    lemma_fields_lookup(f, k);
}

/// The query of a snapshot request: the tickers, comma-separated.
pub open spec fn snapshot_pairs(p: SnapshotParams) -> Seq<(Seq<char>, Seq<char>)> {
    opt_pair(
        "tickers"@,
        match p.tickers {
            Some(t) => Some(join_text(texts(t@), ","@)),
            None => None,
        },
    )
}

/// The query pairs of optional parameters, given the pairs of set ones.
pub open spec fn pairs_of<P>(params: Option<P>, pairs: spec_fn(P) -> Seq<(Seq<char>, Seq<char>)>) -> Seq<
    (Seq<char>, Seq<char>),
> {
    match params {
        Some(p) => pairs(p),
        None => Seq::empty(),
    }
}

/// The endpoint of aggregated bars.
pub open spec fn aggregates_endpoint(
    ticker: Seq<char>,
    multiplier: i32,
    timespan: Seq<char>,
    from: Seq<char>,
    to: Seq<char>,
) -> Seq<char> {
    "v2/aggs/ticker/"@ + ticker + "/range/"@ + int_text(multiplier as int) + "/"@ + timespan + "/"@
        + from + "/"@ + to
}

/// `prefix` followed by `rest`.
pub(crate) fn path(prefix: &str, rest: &str) -> (r: String)
    ensures
        r@ == prefix@ + rest@,
{
    let mut r = String::from_str(prefix);
    r.append(rest);
    r
}

/// A copy of an optional text.
pub(crate) fn copy_text(o: &Option<String>) -> (r: Option<String>)
    ensures
        r == *o,
{
    match o {
        Some(s) => Some(s.clone()),
        None => None,
    }
}

impl StocksClient {
    /// The client that requests go through.
    pub closed spec fn spec_client(self) -> PolygonClient {
        self.client
    }

    /// Create a new stocks client
    pub fn new(client: PolygonClient) -> (r: Self)
        ensures
            r.spec_client() == client,
    {
        StocksClient { client }
    }

    /// The client that requests go through.
    pub fn client(&self) -> (r: &PolygonClient)
        ensures
            *r == self.spec_client(),
    {
        &self.client
    }

    /// Request for detailed information about a ticker
    pub fn ticker_details_request(&self, ticker: &str) -> (r: ApiRequest)
        ensures
            is_request(r, "v3/reference/tickers/"@ + ticker@, Seq::empty()),
    {
        make_request(path("v3/reference/tickers/", ticker), QueryParams::new())
    }

    /// Request for a list of tickers with optional filtering
    pub fn list_tickers_request(&self, params: Option<ListTickersParams>) -> (r: ApiRequest)
        ensures
            is_request(
                r,
                "v3/reference/tickers"@,
                pairs_of(params, |p: ListTickersParams| list_tickers_pairs(p)),
            ),
            params matches Some(p) ==> {
                &&& lookup(query_pairs(r.query), "market"@) == string_text(p.market)
                &&& lookup(query_pairs(r.query), "exchange"@) == string_text(p.exchange)
                &&& lookup(query_pairs(r.query), "cusip"@) == string_text(p.cusip)
                &&& lookup(query_pairs(r.query), "cik"@) == string_text(p.cik)
                &&& lookup(query_pairs(r.query), "date"@) == date_value_text(p.date)
                &&& lookup(query_pairs(r.query), "search"@) == string_text(p.search)
                &&& lookup(query_pairs(r.query), "active"@) == bool_value_text(p.active)
                &&& lookup(query_pairs(r.query), "sort"@) == string_text(p.sort)
                &&& lookup(query_pairs(r.query), "order"@) == string_text(p.order)
                &&& lookup(query_pairs(r.query), "limit"@) == i32_value_text(p.limit)
            },
            params is None ==> r.query is None,
            forall|k: Seq<char>|
                #[trigger] lookup(query_pairs(r.query), k) is Some ==> (k == "market"@ || k == "exchange"@ || k
                    == "cusip"@ || k == "cik"@ || k == "date"@ || k == "search"@ || k == "active"@
                    || k == "sort"@ || k == "order"@ || k == "limit"@),
    {
        let ghost spec_params = params;
        let mut q = QueryParams::new();
        if let Some(p) = params {
            proof {
                reveal_strlit("market");
                reveal_strlit("exchange");
                reveal_strlit("cusip");
                reveal_strlit("cik");
                reveal_strlit("date");
                reveal_strlit("search");
                reveal_strlit("active");
                reveal_strlit("sort");
                reveal_strlit("order");
                reveal_strlit("limit");
            }
            let ghost n0: Seq<Seq<char>> = Seq::empty();
            proof {
                lemma_fresh_name(n0, "market"@);
            }
            put_param(&mut q, "market", p.market, Ghost(n0));
            let ghost n1 = n0.push("market"@);
            proof {
                lemma_fresh_name(n1, "exchange"@);
            }
            put_param(&mut q, "exchange", p.exchange, Ghost(n1));
            let ghost n2 = n1.push("exchange"@);
            proof {
                lemma_fresh_name(n2, "cusip"@);
            }
            put_param(&mut q, "cusip", p.cusip, Ghost(n2));
            let ghost n3 = n2.push("cusip"@);
            proof {
                lemma_fresh_name(n3, "cik"@);
            }
            put_param(&mut q, "cik", p.cik, Ghost(n3));
            let ghost n4 = n3.push("cik"@);
            proof {
                lemma_fresh_name(n4, "date"@);
            }
            put_param(&mut q, "date", date_value(p.date), Ghost(n4));
            let ghost n5 = n4.push("date"@);
            proof {
                lemma_fresh_name(n5, "search"@);
            }
            put_param(&mut q, "search", p.search, Ghost(n5));
            let ghost n6 = n5.push("search"@);
            proof {
                lemma_fresh_name(n6, "active"@);
            }
            put_param(&mut q, "active", bool_value(p.active), Ghost(n6));
            let ghost n7 = n6.push("active"@);
            proof {
                lemma_fresh_name(n7, "sort"@);
            }
            put_param(&mut q, "sort", p.sort, Ghost(n7));
            let ghost n8 = n7.push("sort"@);
            proof {
                lemma_fresh_name(n8, "order"@);
            }
            put_param(&mut q, "order", p.order, Ghost(n8));
            let ghost n9 = n8.push("order"@);
            proof {
                lemma_fresh_name(n9, "limit"@);
            }
            put_param(&mut q, "limit", i32_value(p.limit), Ghost(n9));
            assert(q@ =~= list_tickers_pairs(spec_params->0));
        } else {
            assert(q@ =~= Seq::<(Seq<char>, Seq<char>)>::empty());
        }
        let r = make_request(String::from_str("v3/reference/tickers"), q);
        proof {
            if let Some(p) = spec_params {
                law_list_tickers_query(p, "market"@);
                assert forall|k: Seq<char>| #[trigger] lookup(query_pairs(r.query), k) is Some implies (k == "market"@ || k
                    == "exchange"@ || k == "cusip"@ || k == "cik"@ || k == "date"@ || k == "search"@
                    || k == "active"@ || k == "sort"@ || k == "order"@ || k == "limit"@) by {
                    law_list_tickers_query(p, k);
                }
            } else {
                assert forall|k: Seq<char>| #[trigger] lookup(query_pairs(r.query), k) is None by {
                    assert(!crate::query::has_key(query_pairs(r.query), k));
                }
            }
        }
        r
    }

    /// Request for the current market status
    pub fn market_status_request(&self) -> (r: ApiRequest)
        ensures
            is_request(r, "v1/marketstatus/now"@, Seq::empty()),
    {
        make_request(String::from_str("v1/marketstatus/now"), QueryParams::new())
    }

    /// Request for the upcoming market holidays
    pub fn market_holidays_request(&self) -> (r: ApiRequest)
        ensures
            is_request(r, "v1/marketstatus/upcoming"@, Seq::empty()),
    {
        make_request(String::from_str("v1/marketstatus/upcoming"), QueryParams::new())
    }

    /// Request for the short interest data of a ticker: bi-monthly aggregated
    /// short interest reported to FINRA by broker-dealers.
    pub fn short_interest_request(&self, params: &ShortInterestParams) -> (r: ApiRequest)
        ensures
            is_request(r, "stocks/v1/short-interest"@, short_interest_pairs(*params)),
            lookup(query_pairs(r.query), "ticker"@) == Some(params.ticker@),
            lookup(query_pairs(r.query), "settlement_date"@) == date_value_text(params.settlement_date),
            lookup(query_pairs(r.query), "days_to_cover"@) == string_text(params.days_to_cover),
            lookup(query_pairs(r.query), "avg_daily_volume"@) == (match params.avg_daily_volume {
                Some(v) => Some(int_text(v as int)),
                None => None,
            }),
            lookup(query_pairs(r.query), "limit"@) == i32_value_text(params.limit),
            lookup(query_pairs(r.query), "sort"@) == string_text(params.sort),
            lookup(query_pairs(r.query), "cursor"@) == string_text(params.cursor),
            forall|k: Seq<char>|
                #[trigger] lookup(query_pairs(r.query), k) is Some ==> (k == "ticker"@ || k == "settlement_date"@ || k
                    == "days_to_cover"@ || k == "avg_daily_volume"@ || k == "limit"@ || k
                    == "sort"@ || k == "cursor"@),
    {
        proof {
            reveal_strlit("ticker");
            reveal_strlit("settlement_date");
            reveal_strlit("days_to_cover");
            reveal_strlit("avg_daily_volume");
            reveal_strlit("limit");
            reveal_strlit("sort");
            reveal_strlit("cursor");
        }
        let mut q = QueryParams::new();
        let ghost n0: Seq<Seq<char>> = Seq::empty();
        proof {
            lemma_fresh_name(n0, "ticker"@);
        }
        put_param(&mut q, "ticker", Some(params.ticker.clone()), Ghost(n0));
        let ghost n1 = n0.push("ticker"@);
        proof {
            lemma_fresh_name(n1, "settlement_date"@);
        }
        put_param(&mut q, "settlement_date", date_value(params.settlement_date), Ghost(n1));
        let ghost n2 = n1.push("settlement_date"@);
        proof {
            lemma_fresh_name(n2, "days_to_cover"@);
        }
        put_param(&mut q, "days_to_cover", copy_text(&params.days_to_cover), Ghost(n2));
        let ghost n3 = n2.push("days_to_cover"@);
        let volume = match params.avg_daily_volume {
            Some(v) => Some(i64_text(v)),
            None => None,
        };
        proof {
            lemma_fresh_name(n3, "avg_daily_volume"@);
        }
        put_param(&mut q, "avg_daily_volume", volume, Ghost(n3));
        let ghost n4 = n3.push("avg_daily_volume"@);
        proof {
            lemma_fresh_name(n4, "limit"@);
        }
        put_param(&mut q, "limit", i32_value(params.limit), Ghost(n4));
        let ghost n5 = n4.push("limit"@);
        proof {
            lemma_fresh_name(n5, "sort"@);
        }
        put_param(&mut q, "sort", copy_text(&params.sort), Ghost(n5));
        let ghost n6 = n5.push("sort"@);
        proof {
            lemma_fresh_name(n6, "cursor"@);
        }
        put_param(&mut q, "cursor", copy_text(&params.cursor), Ghost(n6));
        assert(q@ =~= short_interest_pairs(*params));
        let r = make_request(String::from_str("stocks/v1/short-interest"), q);
        proof {
            law_short_interest_query(*params, "ticker"@);
            assert forall|k: Seq<char>| #[trigger] lookup(query_pairs(r.query), k) is Some implies (k == "ticker"@ || k
                == "settlement_date"@ || k == "days_to_cover"@ || k == "avg_daily_volume"@ || k
                == "limit"@ || k == "sort"@ || k == "cursor"@) by {
                law_short_interest_query(*params, k);
            }
        }
        r
    }

    /// Request for aggregated bars (custom OHLC bars) of a ticker over a date
    /// range, in windows of `multiplier` times `timespan`.
    pub fn aggregates_request(
        &self,
        ticker: &str,
        multiplier: i32,
        timespan: &str,
        from: &str,
        to: &str,
        params: Option<AggregatesParams>,
    ) -> (r: ApiRequest)
        ensures
            is_request(
                r,
                aggregates_endpoint(ticker@, multiplier, timespan@, from@, to@),
                pairs_of(params, |p: AggregatesParams| aggregates_pairs(p)),
            ),
            r.endpoint@ == "v2/aggs/ticker/"@ + ticker@ + "/range/"@ + int_text(multiplier as int) + "/"@
                + timespan@ + "/"@ + from@ + "/"@ + to@,
            params matches Some(p) ==> {
                &&& lookup(query_pairs(r.query), "adjusted"@) == bool_value_text(p.adjusted)
                &&& lookup(query_pairs(r.query), "sort"@) == string_text(p.sort)
                &&& lookup(query_pairs(r.query), "limit"@) == i32_value_text(p.limit)
            },
            params is None ==> r.query is None,
            forall|k: Seq<char>|
                #[trigger] lookup(query_pairs(r.query), k) is Some ==> (k == "adjusted"@ || k == "sort"@ || k == "limit"@),
    {
        let ghost spec_params = params;
        let mut endpoint = path("v2/aggs/ticker/", ticker);
        endpoint.append("/range/");
        let m = i32_text(multiplier);
        endpoint.append(m.as_str());
        endpoint.append("/");
        endpoint.append(timespan);
        endpoint.append("/");
        endpoint.append(from);
        endpoint.append("/");
        endpoint.append(to);
        let mut q = QueryParams::new();
        if let Some(p) = params {
            proof {
                reveal_strlit("adjusted");
                reveal_strlit("sort");
                reveal_strlit("limit");
            }
            let ghost n0: Seq<Seq<char>> = Seq::empty();
            proof {
                lemma_fresh_name(n0, "adjusted"@);
            }
            put_param(&mut q, "adjusted", bool_value(p.adjusted), Ghost(n0));
            let ghost n1 = n0.push("adjusted"@);
            proof {
                lemma_fresh_name(n1, "sort"@);
            }
            put_param(&mut q, "sort", p.sort, Ghost(n1));
            let ghost n2 = n1.push("sort"@);
            proof {
                lemma_fresh_name(n2, "limit"@);
            }
            put_param(&mut q, "limit", i32_value(p.limit), Ghost(n2));
            assert(q@ =~= aggregates_pairs(spec_params->0));
        } else {
            assert(q@ =~= Seq::<(Seq<char>, Seq<char>)>::empty());
        }
        let r = make_request(endpoint, q);
        proof {
            if let Some(p) = spec_params {
                law_aggregates_query(p, "adjusted"@);
                assert forall|k: Seq<char>| #[trigger] lookup(query_pairs(r.query), k) is Some implies (k == "adjusted"@
                    || k == "sort"@ || k == "limit"@) by {
                    law_aggregates_query(p, k);
                }
            } else {
                assert forall|k: Seq<char>| #[trigger] lookup(query_pairs(r.query), k) is None by {
                    assert(!crate::query::has_key(query_pairs(r.query), k));
                }
            }
        }
        r
    }

    /// Request for the snapshots of all tickers (or of the listed ones)
    pub fn all_tickers_snapshot_request(&self, params: Option<SnapshotParams>) -> (r: ApiRequest)
        ensures
            is_request(
                r,
                "v2/snapshot/locale/us/markets/stocks/tickers"@,
                pairs_of(params, |p: SnapshotParams| snapshot_pairs(p)),
            ),
            lookup(query_pairs(r.query), "tickers"@) == (match params {
                Some(p) => match p.tickers {
                    Some(t) => Some(join_text(texts(t@), ","@)),
                    None => None,
                },
                None => None,
            }),
            forall|k: Seq<char>| k != "tickers"@ ==> #[trigger] lookup(query_pairs(r.query), k) is None,
    {
        let ghost spec_params = params;
        let mut q = QueryParams::new();
        if let Some(p) = params {
            proof {
                reveal_strlit("tickers");
            }
            let tickers = match p.tickers {
                Some(t) => Some(join_strings(&t, ",")),
                None => None,
            };
            let ghost n0: Seq<Seq<char>> = Seq::empty();
            put_param(&mut q, "tickers", tickers, Ghost(n0));
            assert(q@ =~= snapshot_pairs(spec_params->0));
        } else {
            assert(q@ =~= Seq::<(Seq<char>, Seq<char>)>::empty());
        }
        let r = make_request(String::from_str("v2/snapshot/locale/us/markets/stocks/tickers"), q);
        proof {
            if let Some(p) = spec_params {
                lemma_opt_pair_lookup("tickers"@, match p.tickers {
                    Some(t) => Some(join_text(texts(t@), ","@)),
                    None => None,
                }, "tickers"@);
                assert forall|k: Seq<char>| k != "tickers"@ implies #[trigger] lookup(query_pairs(r.query), k) is None by {
                    lemma_opt_pair_lookup("tickers"@, match p.tickers {
                        Some(t) => Some(join_text(texts(t@), ","@)),
                        None => None,
                    }, k);
                }
            } else {
                assert forall|k: Seq<char>| #[trigger] lookup(query_pairs(r.query), k) is None by {
                    assert(!crate::query::has_key(query_pairs(r.query), k));
                }
            }
        }
        r
    }

    /// Request for the snapshot of a specific ticker
    pub fn ticker_snapshot_request(&self, ticker: &str) -> (r: ApiRequest)
        ensures
            is_request(r, "v2/snapshot/locale/us/markets/stocks/tickers/"@ + ticker@, Seq::empty()),
    {
        make_request(
            path("v2/snapshot/locale/us/markets/stocks/tickers/", ticker),
            QueryParams::new(),
        )
    }
}

} // verus!
