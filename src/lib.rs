//! Content-addressed building blocks for a hash-linked ledger: typed digests
//! and detached signatures over canonical encodings, a content-addressed
//! byte store, and the ledger's trie and block types.
pub mod errors;
pub mod hash;
pub mod ledger;
pub mod nibble;
pub mod sig;
pub mod store;
pub mod trie;

pub use errors::Error;
pub use hash::{blake2b_of, HashOf, HASH_BYTES};
pub use nibble::u4;
pub use sig::{
    ed25519_signature_of, ed25519_verifies, MultiSigned, PublicKey, SecretKey, SigOf, Signature,
    PROTOCOL_VERSION,
};
pub use store::{accept_addressed, dash_entries, lookup_verified, HashLookup, HashPut, MemStore};
pub use ledger::{
    Action, Block, BlockBody, CTBody, CTNode, DataNode, Recip, SendInfo, SignedBlock, Value,
};
