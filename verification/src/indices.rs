//! Indices API

use vstd::prelude::*;
use crate::client::PolygonClient;

verus! {

/// Client for accessing indices market data from Polygon.io
#[derive(Debug, Clone)]
pub struct IndicesClient {
    client: PolygonClient,
}

impl IndicesClient {
    /// The client that requests go through.
    pub closed spec fn spec_client(self) -> PolygonClient {
        self.client
    }

    /// Create a new client of this kind
    pub fn new(client: PolygonClient) -> (r: Self)
        ensures
            r.spec_client() == client,
    {
        IndicesClient { client }
    }
}

} // verus!
