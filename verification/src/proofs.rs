//! The proof chain: single-shot submission of a difficulty-gated record and
//! pairwise verification of a temporal, cryptographic link between two
//! records.

use crate::errors::ErrorCode;
use crate::hashing::meets_difficulty;
use crate::hashing::sha256;
use crate::hashing::sha256_of;
use crate::hashing::verify_hash_difficulty;
use vstd::prelude::*;

verus! {

/// A submitted proof record. Created once at submission and read-only
/// afterwards; the nonce is stored as the caller asserted it and is never
/// re-hashed against `data_hash`.
pub struct ProofData {
    pub owner: [u8; 32],
    pub data_hash: [u8; 32],
    pub nonce: u64,
    pub timestamp: i64,
    pub verified: bool,
}

/// Accepts a proof whose hash clears three leading zero bytes and builds the
/// record; rejects every other hash with `InvalidProof` and builds nothing.
/// The nonce plays no part in the decision. Allocation of the record under
/// its `(owner, timestamp)` key, and the hard failure on a key collision,
/// belong to the host's store.
pub fn submit_proof(owner: [u8; 32], data_hash: [u8; 32], nonce: u64, timestamp: i64) -> (r:
    Result<ProofData, ErrorCode>)
    ensures
        r is Ok <==> meets_difficulty(data_hash@, 3),
        r matches Ok(p) ==> {
            &&& p.owner@ == owner@
            &&& p.data_hash@ == data_hash@
            &&& p.nonce == nonce
            &&& p.timestamp == timestamp
            &&& p.verified == true
        },
        r matches Err(e) ==> e == ErrorCode::InvalidProof,
{
    if !verify_hash_difficulty(&data_hash, 3) {
        return Err(ErrorCode::InvalidProof);
    }
    Ok(ProofData { owner, data_hash, nonce, timestamp, verified: true })
}

/// The bytes hashed to judge a link: the previous record's hash followed by
/// the current one's.
pub open spec fn chain_input(previous: ProofData, current: ProofData) -> Seq<u8> {
    previous.data_hash@ + current.data_hash@
}

/// Checks that two records form a valid link: the previous record must be
/// strictly older, and the digest of the two data hashes in order must clear
/// two leading zero bytes. Pure: success records nothing, and a failure of
/// either gate is `InvalidChain`. A pair out of temporal order fails whatever
/// its hashes.
pub fn verify_chain(previous: &ProofData, current: &ProofData) -> (r: Result<(), ErrorCode>)
    ensures
        r is Ok <==> previous.timestamp < current.timestamp && meets_difficulty(
            sha256_of(chain_input(*previous, *current)),
            2,
        ),
        r matches Err(e) ==> e == ErrorCode::InvalidChain,
        previous.timestamp >= current.timestamp ==> r is Err,
{
    if previous.timestamp >= current.timestamp {
        return Err(ErrorCode::InvalidChain);
    }
    let mut joined: Vec<u8> = Vec::new();
    joined.extend_from_slice(previous.data_hash.as_slice());
    joined.extend_from_slice(current.data_hash.as_slice());
    proof {
        assert(joined@ =~= chain_input(*previous, *current));
    }
    let chain_hash = sha256(joined.as_slice());
    if verify_hash_difficulty(&chain_hash, 2) {
        Ok(())
    } else {
        Err(ErrorCode::InvalidChain)
    }
}

} // verus!
