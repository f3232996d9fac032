//! Hashing primitives and the difficulty predicate.
//!
//! A hash is a 32-byte value. `meets_difficulty` is the acceptance predicate
//! over such a value: the first `n` bytes must all be zero. It judges a
//! caller-supplied hash; nothing here searches for a qualifying one.

use sha2::Digest;
use sha2::Sha256;
use vstd::prelude::*;

verus! {

/// The SHA-256 digest of a byte sequence, named but not written out: the
/// library states nothing of its value beyond what the digest function
/// guarantees, that it depends on the input bytes alone.
pub uninterp spec fn sha256_of(data: Seq<u8>) -> Seq<u8>;

/// Relies on sha2::Sha256 through the Digest trait: the 32-byte digest is a
/// function of the input bytes alone.
#[verifier::external_body]
pub(crate) fn sha256(data: &[u8]) -> (r: [u8; 32])
    ensures
        r@ == sha256_of(data@),
{
    let mut hasher = Sha256::new();
    hasher.update(data);
    hasher.finalize().into()
}

/// A hash clears difficulty target `n` when its first `n` bytes are zero.
pub open spec fn meets_difficulty(h: Seq<u8>, n: nat) -> bool {
    forall|i: int| 0 <= i < n ==> h[i] == 0
}

/// The 32 zero bytes whose digest is the genesis hash.
pub open spec fn zero_bytes_32() -> Seq<u8> {
    Seq::new(32, |i: int| 0u8)
}

/// The head of a ledger before any block is appended.
pub open spec fn genesis_hash() -> Seq<u8> {
    sha256_of(zero_bytes_32())
}

/// Decides the difficulty predicate: true exactly when the first
/// `leading_zeros` bytes of `hash` are zero, leaving the loop at the first
/// nonzero byte.
pub fn verify_hash_difficulty(hash: &[u8; 32], leading_zeros: u8) -> (r: bool)
    requires
        leading_zeros <= 32,
    ensures
        r <==> meets_difficulty(hash@, leading_zeros as nat),
{
    let n = leading_zeros as usize;
    let mut i: usize = 0;
    while i < n
        invariant
            n == leading_zeros as usize,
            n <= 32,
            i <= n,
            forall|j: int| 0 <= j < i ==> hash@[j] == 0,
        decreases n - i,
    {
        if hash[i] != 0 {
            proof {
                assert(!meets_difficulty(hash@, leading_zeros as nat)) by {
                    assert(hash@[i as int] != 0);
                }
            }
            return false;
        }
        i = i + 1;
    }
    true
}

/// Decides equality of two 32-byte values, the capability check of every
/// authority-gated mutation: a caller identity is compared against the
/// stored owner byte for byte.
pub fn keys_equal(a: &[u8; 32], b: &[u8; 32]) -> (r: bool)
    ensures
        r <==> a@ == b@,
{
    let mut i: usize = 0;
    while i < 32
        invariant
            i <= 32,
            forall|j: int| 0 <= j < i ==> a@[j] == b@[j],
        decreases 32 - i,
    {
        if a[i] != b[i] {
            return false;
        }
        i = i + 1;
    }
    proof {
        assert(a@ =~= b@);
    }
    true
}

/// Difficulty zero accepts every 32-byte hash, and difficulty 32 accepts
/// exactly the all-zero hash.
pub proof fn lemma_difficulty_extremes(h: Seq<u8>)
    requires
        h.len() == 32,
    ensures
        meets_difficulty(h, 0),
        meets_difficulty(h, 32) <==> h =~= zero_bytes_32(),
{
}

/// The all-zero hash clears every difficulty target up to 32 — in particular
/// the submission target, so a zero data hash is accepted whatever nonce
/// accompanies it.
pub proof fn lemma_zero_hash_meets_difficulty(n: nat)
    requires
        n <= 32,
    ensures
        meets_difficulty(zero_bytes_32(), n),
{
}

} // verus!
