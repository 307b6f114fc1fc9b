//! The settings of the connection to a node.
use vstd::prelude::*;

verus! {

/// How settled the state that the node reports must be.
#[derive(Clone, Copy, Debug, PartialEq, Eq, Structural)]
pub enum Commitment {
    Processed,
    Confirmed,
    Finalized,
}

/// An endpoint and the commitment level that every query asks for; fixed
/// once made.
#[derive(Clone, Debug, PartialEq, Eq)]
pub struct Connection {
    pub rpc_url: String,
    pub commitment: Commitment,
}

impl Connection {
    /// A connection to `rpc_url` that reads confirmed state.
    pub fn new(rpc_url: &str) -> (r: Connection)
        ensures
            r.rpc_url@ == rpc_url@,
            r.commitment == Commitment::Confirmed,
    {
        Connection { rpc_url: rpc_url.to_string(), commitment: Commitment::Confirmed }
    }
}

} // verus!
