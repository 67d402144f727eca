//! Market snapshots for stocks.

use vstd::prelude::*;
use crate::client::PolygonClient;

verus! {

/// Client for stock market snapshots
#[derive(Debug, Clone)]
pub struct SnapshotsClient {
    client: PolygonClient,
}

impl SnapshotsClient {
    /// The client that requests go through.
    pub closed spec fn spec_client(self) -> PolygonClient {
        self.client
    }

    /// Create a new client of this kind
    pub fn new(client: PolygonClient) -> (r: Self)
        ensures
            r.spec_client() == client,
    {
        SnapshotsClient { client }
    }
}

} // verus!
