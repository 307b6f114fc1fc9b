//! The shape of a configuration file.
use vstd::prelude::*;

verus! {

/// An endpoint and the program whose accounts are tracked, as a
/// configuration file gives them.
#[derive(Clone, Debug, PartialEq, Eq)]
pub struct Config {
    pub rpc_url: String,
    pub tracked_program_id: String,
}

} // verus!
