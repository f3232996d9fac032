//! Error taxonomy of the two cores.

use vstd::prelude::*;

verus! {

/// Failures of the proof chain and of the profile: an identity mismatch on a
/// protected mutation, a submission whose hash misses the difficulty target,
/// or a pair of records that do not form a valid link.
#[derive(Clone, Copy, Debug, PartialEq, Eq, Structural)]
pub enum ErrorCode {
    Unauthorized,
    InvalidProof,
    InvalidChain,
}

/// Failure of the block ledger: a vector mutation by a caller other than the
/// block's authority.
#[derive(Clone, Copy, Debug, PartialEq, Eq, Structural)]
pub enum NLPChainError {
    UnauthorizedUpdate,
}

} // verus!
