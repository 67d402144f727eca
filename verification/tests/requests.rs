use polygon_io::client::PolygonClient;
use polygon_io::request::ApiRequest;
use polygon_io::stocks::aggregates::{AggregatesClient, GroupedDailyParams, PreviousCloseParams};
use polygon_io::stocks::trades::{TradesClient, TradesParams};
use polygon_io::stocks::{AggregatesParams, ListTickersParams, ShortInterestParams, SnapshotParams};
use polygon_io::types::CalendarDate;

fn pairs(r: ApiRequest) -> Option<Vec<(String, String)>> {
    r.query.map(|q| q.into_pairs())
}

fn p(k: &str, v: &str) -> (String, String) {
    (k.to_string(), v.to_string())
}

#[test]
fn ticker_requests() {
    let stocks = PolygonClient::new("k".to_string()).stocks();
    let r = stocks.ticker_details_request("AAPL");
    assert_eq!(r.endpoint, "v3/reference/tickers/AAPL");
    assert!(r.query.is_none());
    let r = stocks.ticker_snapshot_request("MSFT");
    assert_eq!(r.endpoint, "v2/snapshot/locale/us/markets/stocks/tickers/MSFT");
    assert!(r.query.is_none());
    assert_eq!(stocks.market_status_request().endpoint, "v1/marketstatus/now");
    assert_eq!(stocks.market_holidays_request().endpoint, "v1/marketstatus/upcoming");
}

#[test]
fn list_tickers_queries() {
    let stocks = PolygonClient::new("k".to_string()).stocks();
    let r = stocks.list_tickers_request(None);
    assert_eq!(r.endpoint, "v3/reference/tickers");
    assert!(r.query.is_none());
    // Parameters with nothing set give no query either.
    assert!(stocks.list_tickers_request(Some(ListTickersParams::default())).query.is_none());
    let params = ListTickersParams {
        market: Some("stocks".to_string()),
        date: CalendarDate::from_ymd(2024, 3, 9),
        active: Some(true),
        limit: Some(100),
        ..Default::default()
    };
    let r = stocks.list_tickers_request(Some(params));
    assert_eq!(
        pairs(r),
        Some(vec![p("market", "stocks"), p("date", "2024-03-09"), p("active", "true"), p("limit", "100")])
    );
}

#[test]
fn short_interest_queries() {
    let stocks = PolygonClient::new("k".to_string()).stocks();
    let mut params = ShortInterestParams::new("AAPL");
    params.limit = Some(5);
    params.sort = Some("settlement_date.desc".to_string());
    params.avg_daily_volume = Some(-7);
    params.days_to_cover = Some("2.5".to_string());
    let r = stocks.short_interest_request(&params);
    assert_eq!(r.endpoint, "stocks/v1/short-interest");
    assert_eq!(
        pairs(r),
        Some(vec![
            p("ticker", "AAPL"),
            p("days_to_cover", "2.5"),
            p("avg_daily_volume", "-7"),
            p("limit", "5"),
            p("sort", "settlement_date.desc"),
        ])
    );
    let r = stocks.short_interest_request(&ShortInterestParams::new("TSLA".to_string()));
    assert_eq!(pairs(r), Some(vec![p("ticker", "TSLA")]));
}

#[test]
fn aggregates_queries() {
    let stocks = PolygonClient::new("k".to_string()).stocks();
    let params = AggregatesParams { adjusted: Some(false), sort: Some("asc".to_string()), limit: Some(50) };
    let r = stocks.aggregates_request("AAPL", 5, "minute", "2024-09-26", "2024-09-30", Some(params));
    assert_eq!(r.endpoint, "v2/aggs/ticker/AAPL/range/5/minute/2024-09-26/2024-09-30");
    assert_eq!(pairs(r), Some(vec![p("adjusted", "false"), p("sort", "asc"), p("limit", "50")]));
    let r = stocks.aggregates_request("X", -1, "day", "a", "b", None);
    assert_eq!(r.endpoint, "v2/aggs/ticker/X/range/-1/day/a/b");
    assert!(r.query.is_none());
}

#[test]
fn snapshot_queries() {
    let stocks = PolygonClient::new("k".to_string()).stocks();
    let params = SnapshotParams { tickers: Some(vec!["AAPL".to_string(), "MSFT".to_string()]) };
    let r = stocks.all_tickers_snapshot_request(Some(params));
    assert_eq!(r.endpoint, "v2/snapshot/locale/us/markets/stocks/tickers");
    assert_eq!(pairs(r), Some(vec![p("tickers", "AAPL,MSFT")]));
    let r = stocks.all_tickers_snapshot_request(Some(SnapshotParams { tickers: Some(vec![]) }));
    assert_eq!(pairs(r), Some(vec![p("tickers", "")]));
    assert!(stocks.all_tickers_snapshot_request(None).query.is_none());
}

#[test]
fn aggregates_client_queries() {
    let aggs = AggregatesClient::new(PolygonClient::new("k".to_string()));
    let r = aggs.grouped_daily_request("2024-01-02", Some(GroupedDailyParams { adjusted: Some(true) }));
    assert_eq!(r.endpoint, "v2/aggs/grouped/locale/us/market/stocks/2024-01-02");
    assert_eq!(pairs(r), Some(vec![p("adjusted", "true")]));
    let r = aggs.previous_close_request("AAPL", Some(PreviousCloseParams::default()));
    assert_eq!(r.endpoint, "v2/aggs/ticker/AAPL/prev");
    assert!(r.query.is_none());
    assert_eq!(aggs.client().api_key(), "k");
}

#[test]
fn trades_queries() {
    let trades = TradesClient::new(PolygonClient::new("k".to_string()));
    let r = trades.trades_request("AAPL", "2024-01-02", None);
    assert_eq!(r.endpoint, "v3/trades/AAPL");
    assert_eq!(pairs(r), Some(vec![p("timestamp", "2024-01-02")]));
    let params = TradesParams {
        timestamp_gte: Some("a".to_string()),
        timestamp_lte: Some("b".to_string()),
        sort: None,
        limit: Some(3),
    };
    let r = trades.trades_request("AAPL", "2024-01-02", Some(params));
    assert_eq!(
        pairs(r),
        Some(vec![p("timestamp", "2024-01-02"), p("timestamp.gte", "a"), p("timestamp.lte", "b"), p("limit", "3")])
    );
    assert_eq!(trades.client().api_key(), "k");
}
