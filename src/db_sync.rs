//! Vocabulary of the database synchronisation protocol between nodes.
use vstd::prelude::*;

verus! {

/// What a synchronisation request asks for.
#[derive(Debug, Clone, Copy, PartialEq, Eq)]
pub enum RequestKind {
    BlockEndProgramStates,
    DataForHashes,
    ProgramCodeIds,
}

/// Why a response does not answer its request.
#[derive(Debug, PartialEq, Eq)]
pub enum RequestFailure {
    /// Request kind unequal to response kind.
    TypeMismatch,
    /// Hash field in request unequal to one in response.
    HashInequality,
    /// Response contains more data than requested.
    ExcessiveData,
    /// Hashed data unequal to its corresponding hash.
    DataHashMismatch,
}

/// Identifier of a request made by this node.
#[derive(Debug, Eq, PartialEq, Copy, Clone)]
pub struct RequestId(u64);

} // verus!
