//! The record that a template hash is computed from, and its encoding.

use vstd::prelude::*;
use crate::commitment::{
    any_script_sig, has_script_sig, hash_outputs, hash_script_sigs, hash_sequences, outputs_bytes,
    script_sigs_bytes, sequence_numbers, sequences_bytes, sequences_of,
};
use crate::encoding::{i32_le, push_bytes, push_i32_le, push_u32_le, u32_le};
use crate::hash::TemplateHash;
use crate::transaction::{TxModel, TxTemplate};
use crate::trusted::{components_sha256, sha256, sha256_digest, transaction_sha256};

verus! {

/// The fields of a template, with the lists already reduced to their hashes.
#[derive(Clone, Copy, Debug, PartialEq, Eq)]
pub struct TemplateRecipe {
    /// The transaction version.
    pub version: i32,
    /// The lock time, as the 32-bit number that is serialized.
    pub lock_time: u32,
    /// The number of inputs.
    pub input_count: u32,
    /// The hash over the unlocking scripts; absent when all are empty.
    pub script_sigs_hash: Option<[u8; 32]>,
    /// The hash over the sequence numbers of the inputs.
    pub sequences_hash: [u8; 32],
    /// The number of outputs.
    pub output_count: u32,
    /// The hash over the serialized outputs.
    pub outputs_hash: [u8; 32],
    /// The index of the input that the hash authorises.
    pub input_index: u32,
}

/// The mathematical value of a [`TemplateRecipe`].
pub struct RecipeModel {
    pub version: i32,
    pub lock_time: u32,
    pub input_count: u32,
    pub script_sigs_hash: Option<Seq<u8>>,
    pub sequences_hash: Seq<u8>,
    pub output_count: u32,
    pub outputs_hash: Seq<u8>,
    pub input_index: u32,
}

impl RecipeModel {
    /// The bytes that the unlocking-scripts hash contributes: the hash where
    /// there is one, nothing at all where there is none.
    pub open spec fn script_sigs_part(self) -> Seq<u8> {
        match self.script_sigs_hash {
            Some(hash) => hash,
            None => Seq::empty(),
        }
    }

    /// The byte string that is hashed: the version, the lock time and the
    /// input count in four little-endian bytes each, the hash over the
    /// unlocking scripts where there is one, the sequences hash, the output
    /// count, the outputs hash and the input index.
    pub open spec fn preimage(self) -> Seq<u8> {
        i32_le(self.version) + u32_le(self.lock_time) + u32_le(self.input_count)
            + self.script_sigs_part() + self.sequences_hash + u32_le(self.output_count)
            + self.outputs_hash + u32_le(self.input_index)
    }

    /// The same fields with the hash over the unlocking scripts ahead of the
    /// input count: the order in which `bip119` writes them.
    pub open spec fn preimage_scripts_first(self) -> Seq<u8> {
        i32_le(self.version) + u32_le(self.lock_time) + self.script_sigs_part() + u32_le(
            self.input_count,
        ) + self.sequences_hash + u32_le(self.output_count) + self.outputs_hash + u32_le(
            self.input_index,
        )
    }

    /// The inner digest: SHA-256 of the preimage.
    pub open spec fn digest(self) -> Seq<u8> {
        sha256_digest(self.preimage())
    }

    /// The template hash: SHA-256 of the inner digest, that is, SHA-256
    /// applied twice to the preimage.
    pub open spec fn template_hash(self) -> Seq<u8> {
        sha256_digest(self.digest())
    }
}

/// Without a hash over the unlocking scripts the two orders are one: the
/// field that they place differently is not there.
pub proof fn lemma_orders_agree_without_scripts(recipe: RecipeModel)
    requires
        recipe.script_sigs_hash is None,
    ensures
        recipe.preimage_scripts_first() == recipe.preimage(),
{
    assert(recipe.preimage_scripts_first() =~= recipe.preimage());
}

impl View for TemplateRecipe {
    type V = RecipeModel;

    open spec fn view(&self) -> RecipeModel {
        RecipeModel {
            version: self.version,
            lock_time: self.lock_time,
            input_count: self.input_count,
            script_sigs_hash: match self.script_sigs_hash {
                Some(hash) => Some(hash@),
                None => None,
            },
            sequences_hash: self.sequences_hash@,
            output_count: self.output_count,
            outputs_hash: self.outputs_hash@,
            input_index: self.input_index,
        }
    }
}

/// Serializes a recipe into the byte string that is hashed.
pub fn template_preimage(recipe: &TemplateRecipe) -> (bytes: Vec<u8>)
    ensures
        bytes@ == recipe@.preimage(),
{
    let mut bytes: Vec<u8> = Vec::new();
    push_i32_le(&mut bytes, recipe.version);
    push_u32_le(&mut bytes, recipe.lock_time);
    push_u32_le(&mut bytes, recipe.input_count);
    match &recipe.script_sigs_hash {
        Some(hash) => {
            push_bytes(&mut bytes, hash.as_slice());
        },
        None => {
            assert(bytes@ + recipe@.script_sigs_part() =~= bytes@);
        },
    }
    push_bytes(&mut bytes, recipe.sequences_hash.as_slice());
    push_u32_le(&mut bytes, recipe.output_count);
    push_bytes(&mut bytes, recipe.outputs_hash.as_slice());
    push_u32_le(&mut bytes, recipe.input_index);
    assert(bytes@ =~= recipe@.preimage());
    bytes
}

/// Computes the inner digest of a recipe: one SHA-256 over its preimage.
/// Where the recipe has no hash over unlocking scripts, `bip119` computes
/// it; where it has one, `bip119` would write the fields in another order,
/// and the preimage is serialized and hashed here.
pub fn inner_digest(recipe: &TemplateRecipe) -> (digest: [u8; 32])
    ensures
        digest@ == recipe@.digest(),
{
    if recipe.script_sigs_hash.is_none() {
        proof {
            lemma_orders_agree_without_scripts(recipe@);
        }
        components_sha256(recipe)
    } else {
        let bytes = template_preimage(recipe);
        sha256(bytes.as_slice())
    }
}

/// Computes the template hash of a recipe: SHA-256 applied twice to its
/// preimage.
pub fn hash_from_components(recipe: &TemplateRecipe) -> (hash: TemplateHash)
    ensures
        hash@ == recipe@.template_hash(),
{
    let digest = inner_digest(recipe);
    TemplateHash::from_byte_array(sha256(digest.as_slice()))
}

/// A count as the template records it: its low 32 bits.
pub open spec fn count32(count: nat) -> u32 {
    (count % 0x1_0000_0000) as u32
}

/// The recipe of a transaction: its version and lock time, its counts, the
/// hash over its unlocking scripts if any is non-empty, and the hashes over
/// its sequence numbers and over its serialized outputs.
pub open spec fn transaction_recipe(tx: TxModel, input_index: u32) -> RecipeModel {
    RecipeModel {
        version: tx.version,
        lock_time: tx.lock_time,
        input_count: count32(tx.inputs.len()),
        script_sigs_hash: if any_script_sig(tx.inputs) {
            Some(sha256_digest(script_sigs_bytes(tx.inputs)))
        } else {
            None
        },
        sequences_hash: sha256_digest(sequences_bytes(sequences_of(tx.inputs))),
        output_count: count32(tx.outputs.len()),
        outputs_hash: sha256_digest(outputs_bytes(tx.outputs)),
        input_index,
    }
}

/// Reduces a transaction to its recipe: counts the inputs and the outputs
/// and hashes the unlocking scripts, if any is non-empty, the sequence
/// numbers and the serialized outputs.
pub fn recipe_from_transaction(tx: &TxTemplate, input_index: u32) -> (recipe: TemplateRecipe)
    ensures
        recipe@ == transaction_recipe(tx@, input_index),
{
    let numbers = sequence_numbers(tx.inputs.as_slice());
    TemplateRecipe {
        version: tx.version,
        lock_time: tx.lock_time,
        input_count: low_32_bits(tx.inputs.len()),
        script_sigs_hash: hash_script_sigs(tx.inputs.as_slice()),
        sequences_hash: hash_sequences(numbers.as_slice()),
        output_count: low_32_bits(tx.outputs.len()),
        outputs_hash: hash_outputs(tx.outputs.as_slice()),
        input_index,
    }
}

/// The low 32 bits of a length.
fn low_32_bits(length: usize) -> (count: u32)
    ensures
        count == count32(length as nat),
{
    (length as u64 % 0x1_0000_0000) as u32
}

/// Computes the template hash that authorises input `input_index` of a
/// transaction: SHA-256 applied twice to the preimage of its recipe. A
/// transaction without unlocking scripts is reduced by `bip119`; one with
/// unlocking scripts is reduced here, so that the fields keep their order.
pub fn hash_from_transaction(tx: &TxTemplate, input_index: u32) -> (hash: TemplateHash)
    ensures
        hash@ == transaction_recipe(tx@, input_index).template_hash(),
{
    if has_script_sig(tx.inputs.as_slice()) {
        let recipe = recipe_from_transaction(tx, input_index);
        hash_from_components(&recipe)
    } else {
        proof {
            lemma_orders_agree_without_scripts(transaction_recipe(tx@, input_index));
        }
        let digest = transaction_sha256(tx, input_index);
        TemplateHash::from_byte_array(sha256(digest.as_slice()))
    }
}

} // verus!
