//! The calls into the `bitcoin` and `bip119` crates.
//!
//! Nothing here is proved: each contract states what the called function's
//! source shows, and the rest of the library is verified against it.

use vstd::prelude::*;
use bip119::DefaultCheckTemplateVerifyHash;
use bitcoin::absolute::LockTime;
use bitcoin::transaction::Version;
use bitcoin::{Amount, ScriptBuf, Sequence, Transaction, TxIn, TxOut};
use crate::commitment::sequences_bytes;
use crate::recipe::{transaction_recipe, TemplateRecipe};
use crate::transaction::TxTemplate;

verus! {

/// The SHA-256 digest of a byte string.
pub uninterp spec fn sha256_digest(data: Seq<u8>) -> Seq<u8>;

/// Calls `bitcoin::hashes::sha256::Hash::hash`, which feeds `data` to a fresh
/// SHA-256 engine and returns the 32 bytes of the finished digest.
#[verifier::external_body]
pub(crate) fn sha256(data: &[u8]) -> (digest: [u8; 32])
    ensures
        digest@ == sha256_digest(data@),
{
    let digest: bitcoin::hashes::sha256::Hash = bitcoin::hashes::Hash::hash(data);
    bitcoin::hashes::Hash::to_byte_array(digest)
}

/// Calls `bip119::hash_sequences`, which writes every sequence number to one
/// SHA-256 engine, in order and as four little-endian bytes each, and returns
/// the finished digest.
#[verifier::external_body]
pub(crate) fn sequences_sha256(sequences: &[u32]) -> (digest: [u8; 32])
    ensures
        digest@ == sha256_digest(sequences_bytes(sequences@)),
{
    let digest = bip119::hash_sequences(sequences.iter().map(|number| Sequence(*number)));
    bitcoin::hashes::Hash::to_byte_array(digest)
}

/// Calls `bip119::DefaultCheckTemplateVerifyHash::from_components`, which
/// writes to one SHA-256 engine the version and the lock time in four
/// little-endian bytes each, the hash of the unlocking scripts if there is
/// one, then the input count, the sequences hash, the output count, the
/// outputs hash and the input index, counts and index in four little-endian
/// bytes each, and returns the finished digest: one SHA-256, with the hash
/// of the unlocking scripts ahead of the input count.
#[verifier::external_body]
pub(crate) fn components_sha256(recipe: &TemplateRecipe) -> (digest: [u8; 32])
    ensures
        digest@ == sha256_digest(recipe@.preimage_scripts_first()),
{
    let digest = DefaultCheckTemplateVerifyHash::from_components(
        Version(recipe.version),
        LockTime::from_consensus(recipe.lock_time),
        recipe.input_count,
        recipe.script_sigs_hash.map(bitcoin::hashes::Hash::from_byte_array),
        bitcoin::hashes::Hash::from_byte_array(recipe.sequences_hash),
        recipe.output_count,
        bitcoin::hashes::Hash::from_byte_array(recipe.outputs_hash),
        recipe.input_index,
    );
    bitcoin::hashes::Hash::to_byte_array(digest)
}

/// Calls `bip119::DefaultCheckTemplateVerifyHash::from_transaction` on the
/// `bitcoin::Transaction` with the given version, lock time, inputs and
/// outputs. That function hashes the unlocking scripts, each behind its
/// length prefix, if any of them is non-empty; hashes the sequence numbers;
/// hashes the outputs as `bitcoin` serializes them, amount then prefixed
/// script; truncates the two counts to 32 bits; and hands all of it to
/// `from_components`. It reads neither the previous outputs nor the
/// witnesses, which are left at their defaults here.
#[verifier::external_body]
pub(crate) fn transaction_sha256(tx: &TxTemplate, input_index: u32) -> (digest: [u8; 32])
    ensures
        digest@ == sha256_digest(transaction_recipe(tx@, input_index).preimage_scripts_first()),
{
    let input = tx.inputs.iter().map(|input| TxIn {
        script_sig: ScriptBuf::from_bytes(input.script_sig.clone()),
        sequence: Sequence(input.sequence),
        ..Default::default()
    }).collect();
    let output = tx.outputs.iter().map(|output| TxOut {
        value: Amount::from_sat(output.value),
        script_pubkey: ScriptBuf::from_bytes(output.script_pubkey.clone()),
    }).collect();
    let version = Version(tx.version);
    let lock_time = LockTime::from_consensus(tx.lock_time);
    let transaction = Transaction { version, lock_time, input, output };
    let digest = DefaultCheckTemplateVerifyHash::from_transaction(&transaction, input_index);
    bitcoin::hashes::Hash::to_byte_array(digest)
}

} // verus!
