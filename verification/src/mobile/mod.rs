//! The light client for small devices.

use vstd::prelude::*;

verus! {

/// The time between two signs of life of a light node, in seconds.
pub const HEARTBEAT_SECONDS: u64 = 10;

/// A light client: the port it uses and the peers it follows.
#[derive(Debug, Clone, PartialEq, Eq)]
pub struct LightClient {
    pub port: u16,
    pub bootnodes: Vec<String>,
}

impl LightClient {
    /// A light client that follows `bootnodes`.
    pub fn new(port: u16, bootnodes: Vec<String>) -> (client: LightClient)
        ensures
            client.port == port,
            client.bootnodes == bootnodes,
    {
        LightClient { port, bootnodes }
    }

    /// Brings the client up to date with its peers. There is nothing to
    /// fetch yet, so the client stays as it is.
    pub fn sync(&self) {
    }
}

} // verus!
