//! Reference data for stocks

use vstd::prelude::*;
use crate::client::PolygonClient;

verus! {

/// Client for stock reference data: ticker details, exchanges, market holidays.
#[derive(Debug, Clone)]
pub struct ReferenceClient {
    client: PolygonClient,
}

impl ReferenceClient {
    /// The client that requests go through.
    pub closed spec fn spec_client(self) -> PolygonClient {
        self.client
    }

    /// Create a new client of this kind
    pub fn new(client: PolygonClient) -> (r: Self)
        ensures
            r.spec_client() == client,
    {
        ReferenceClient { client }
    }
}

} // verus!
