//! Real-time market data for stocks (trades and quotes).

use vstd::prelude::*;
use crate::client::PolygonClient;

verus! {

/// Client for real-time market data
#[derive(Debug, Clone)]
pub struct MarketDataClient {
    client: PolygonClient,
}

impl MarketDataClient {
    /// The client that requests go through.
    pub closed spec fn spec_client(self) -> PolygonClient {
        self.client
    }

    /// Create a new client of this kind
    pub fn new(client: PolygonClient) -> (r: Self)
        ensures
            r.spec_client() == client,
    {
        MarketDataClient { client }
    }
}

} // verus!
