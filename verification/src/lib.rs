//! Append-only, hash-linked ledgers.
//!
//! Two independent cores share one difficulty predicate: a proof chain, in
//! which a submitted record is accepted only if its hash clears a
//! leading-zero-byte target and two records can be checked as a temporal and
//! cryptographic link, and a block ledger, in which each appended block
//! commits to its predecessor through a running head hash. Storage
//! allocation, signer verification and token transfer belong to the host
//! around this library; the library works on the plain values the host hands
//! it.

pub mod errors;
pub mod hashing;
pub mod ledger;
pub mod profile;
pub mod proofs;

pub use errors::ErrorCode;
pub use errors::NLPChainError;
pub use hashing::keys_equal;
pub use hashing::verify_hash_difficulty;
pub use ledger::add_block;
pub use ledger::initialize;
pub use ledger::update_vector;
pub use ledger::Block;
pub use ledger::ChainState;
pub use profile::initialize_user;
pub use profile::update_status;
pub use profile::UserProfile;
pub use proofs::submit_proof;
pub use proofs::verify_chain;
pub use proofs::ProofData;
