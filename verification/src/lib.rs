//! Template hashes for transactions that commit to their own shape, in the
//! manner of BIP-119 (CHECKTEMPLATEVERIFY).
//!
//! A template is written as a fixed run of bytes: version, lock time and
//! input count in four little-endian bytes each, a hash over the unlocking
//! scripts if any input has one, a hash over the input sequence numbers, the
//! output count, a hash over the serialized outputs, and the index of the
//! input being authorised. The template hash is SHA-256 applied twice to
//! these bytes; the hashes inside them are SHA-256 applied once. The hash
//! can be obtained from a whole transaction or from the pre-hashed
//! components; both routes are specified over the same byte-level model and
//! proved to agree.
//!
//! SHA-256 is computed by the `bitcoin` and `bip119` crates, behind the
//! contracts in [`trusted`]. Everything else is verified: the encodings
//! and their exec counterparts, the script and output builders, and the laws
//! in [`laws`] and [`two_party`].

pub mod commitment;
pub mod encoding;
pub mod hash;
pub mod laws;
pub mod recipe;
pub mod script;
pub mod transaction;
pub mod trusted;
pub mod two_party;

pub use commitment::{hash_outputs, hash_script_sigs, hash_sequences};
pub use hash::TemplateHash;
pub use recipe::{
    hash_from_components, hash_from_transaction, inner_digest, recipe_from_transaction,
    template_preimage, TemplateRecipe,
};
pub use transaction::{TxInput, TxOutput, TxTemplate};
pub use two_party::{ctv_from_components, ctv_from_transaction};
