//! The ways a query can fail.
use vstd::prelude::*;

verus! {

/// Why a command did not complete.
#[derive(Clone, Copy, Debug, PartialEq, Eq, Structural)]
pub enum IndexerError {
    /// The command needs a program id and none was given.
    MissingProgramId,
    /// A text is not the base-58 form of a 32-byte key.
    InvalidIdentifier,
    /// The node could not be reached, or answered with an error.
    RpcFailure,
    /// The fetched accounts could not be encoded as JSON.
    EncodeFailure,
    /// The export file could not be written.
    FileWriteFailure,
}

} // verus!
