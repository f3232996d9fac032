//! The block ledger: a monotonic, append-only sequence of content blocks,
//! each committing to its predecessor through the running head hash held in
//! `ChainState`.

use crate::errors::NLPChainError;
use crate::hashing::genesis_hash;
use crate::hashing::keys_equal;
use crate::hashing::sha256;
use crate::hashing::sha256_of;
use crate::hashing::zero_bytes_32;
use vstd::prelude::*;
use vstd::utf8::encode_utf8;

verus! {

/// The head of one ledger: the authority that created it, how many blocks
/// have been appended, and the data hash of the newest block (the genesis
/// hash before any append). Exactly one such handle exists per ledger, and
/// only `add_block` advances it.
pub struct ChainState {
    pub authority: [u8; 32],
    pub block_count: u64,
    pub last_hash: [u8; 32],
}

/// One content block. `data_hash` commits to the text bytes and
/// `previous_hash` to the head the ledger had before this block; the vector
/// entries are carried as 64-bit words the ledger never interprets, and the
/// vector is the one field mutable after creation, gated by the authority.
pub struct Block {
    pub authority: [u8; 32],
    pub index: u64,
    pub timestamp: i64,
    pub text: String,
    pub vector: Vec<u64>,
    pub metadata: String,
    pub data_hash: [u8; 32],
    pub previous_hash: [u8; 32],
}

/// Creates a ledger at genesis: no blocks, and the head hash set to the
/// digest of 32 zero bytes. That only one ledger is created per store entry
/// is the host's allocation to enforce.
pub fn initialize(authority: [u8; 32]) -> (r: ChainState)
    ensures
        r.authority@ == authority@,
        r.block_count == 0,
        r.last_hash@ == genesis_hash(),
{
    let zeros: [u8; 32] = [0u8; 32];
    proof {
        assert(zeros@ =~= zero_bytes_32());
    }
    let head = sha256(zeros.as_slice());
    ChainState { authority, block_count: 0, last_hash: head }
}

/// How one append moves the ledger: the block takes the next index and
/// commits to the old head, its data hash is the digest of its text bytes,
/// and the head advances to that hash with the count up by one.
pub open spec fn block_appended(pre: ChainState, post: ChainState, b: Block) -> bool {
    &&& b.index == pre.block_count
    &&& b.previous_hash@ == pre.last_hash@
    &&& b.data_hash@ == sha256_of(encode_utf8(b.text@))
    &&& post.authority@ == pre.authority@
    &&& post.block_count == pre.block_count + 1
    &&& post.last_hash@ == b.data_hash@
}

/// Appends a block: hashes the text, builds the block against the head as it
/// stood, then advances the head to the new hash and the count by one. The
/// caller sees no intermediate state: the block and the advanced head come
/// out of the one call together. The size ceilings on text, vector and
/// metadata are enforced by the host's allocator, not here.
pub fn add_block(
    chain_state: &mut ChainState,
    authority: [u8; 32],
    timestamp: i64,
    text: String,
    vector: Vec<u64>,
    metadata: String,
) -> (r: Block)
    requires
        old(chain_state).block_count < u64::MAX,
    ensures
        block_appended(*old(chain_state), *final(chain_state), r),
        r.authority@ == authority@,
        r.timestamp == timestamp,
        r.text@ == text@,
        r.vector@ == vector@,
        r.metadata@ == metadata@,
{
    let data_hash = sha256(text.as_str().as_bytes());
    let block = Block {
        authority,
        index: chain_state.block_count,
        timestamp,
        text,
        vector,
        metadata,
        data_hash,
        previous_hash: chain_state.last_hash,
    };
    chain_state.last_hash = data_hash;
    chain_state.block_count = chain_state.block_count + 1;
    block
}

/// Replaces the block's vector when the caller is its authority, and changes
/// nothing else; any other caller fails `UnauthorizedUpdate` and the block
/// stands untouched. The data hash is deliberately not recomputed, so after
/// a successful update it still commits to the text alone, not to the new
/// vector.
pub fn update_vector(block: &mut Block, caller: [u8; 32], new_vector: Vec<u64>) -> (r: Result<
    (),
    NLPChainError,
>)
    ensures
        caller@ == old(block).authority@ ==> {
            &&& r is Ok
            &&& final(block).vector@ == new_vector@
            &&& final(block).authority == old(block).authority
            &&& final(block).index == old(block).index
            &&& final(block).timestamp == old(block).timestamp
            &&& final(block).text == old(block).text
            &&& final(block).metadata == old(block).metadata
            &&& final(block).data_hash == old(block).data_hash
            &&& final(block).previous_hash == old(block).previous_hash
        },
        caller@ != old(block).authority@ ==> {
            &&& r == Err::<(), NLPChainError>(NLPChainError::UnauthorizedUpdate)
            &&& *final(block) == *old(block)
        },
{
    if !keys_equal(&caller, &block.authority) {
        return Err(NLPChainError::UnauthorizedUpdate);
    }
    block.vector = new_vector;
    Ok(())
}

/// Two appends in sequence link and never collide: the second block commits
/// to the first's data hash, and the indices are consecutive, so no two
/// blocks committed against one advancing head share an index.
pub proof fn lemma_appends_link(s0: ChainState, s1: ChainState, s2: ChainState, b1: Block, b2: Block)
    requires
        block_appended(s0, s1, b1),
        block_appended(s1, s2, b2),
    ensures
        b2.previous_hash@ == b1.data_hash@,
        b1.index == s0.block_count,
        b2.index == s0.block_count + 1,
        b1.index != b2.index,
{
}

/// The first append from genesis: the block has index zero and commits to
/// the genesis hash, and afterwards the head is the digest of the block's
/// text bytes with a count of one.
pub proof fn lemma_first_append_from_genesis(s0: ChainState, s1: ChainState, b: Block)
    requires
        s0.block_count == 0,
        s0.last_hash@ == genesis_hash(),
        block_appended(s0, s1, b),
    ensures
        b.index == 0,
        b.previous_hash@ == genesis_hash(),
        s1.block_count == 1,
        s1.last_hash@ == sha256_of(encode_utf8(b.text@)),
{
}

} // verus!
