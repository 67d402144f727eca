//! Futures API

use vstd::prelude::*;
use crate::client::PolygonClient;

verus! {

/// Client for accessing futures market data from Polygon.io
#[derive(Debug, Clone)]
pub struct FuturesClient {
    client: PolygonClient,
}

impl FuturesClient {
    /// The client that requests go through.
    pub closed spec fn spec_client(self) -> PolygonClient {
        self.client
    }

    /// Create a new client of this kind
    pub fn new(client: PolygonClient) -> (r: Self)
        ensures
            r.spec_client() == client,
    {
        FuturesClient { client }
    }
}

} // verus!
