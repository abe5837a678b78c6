//! The template that pays two taproot keys and leaves an anchor: two inputs
//! with empty unlocking scripts and zero sequence numbers, three outputs.
//!
//! Its hash is computed twice over: from the transaction, and from the
//! components without ever building one. The two agree on every input.

use vstd::prelude::*;
use crate::commitment::{
    hash_sequences, lemma_outputs_bytes_push, lemma_sequences_bytes_push, output_bytes,
    outputs_bytes, sequences_bytes, sequences_of,
};
use crate::encoding::{compact_size, push_bytes, push_u64_le, u32_le, u64_le};
use crate::hash::TemplateHash;
use crate::recipe::{
    hash_from_components, hash_from_transaction, transaction_recipe, RecipeModel, TemplateRecipe,
};
use crate::script::{
    anchor_script, anchor_script_pubkey, taproot_script, taproot_script_pubkey, OP_PUSHBYTES_32,
    OP_WITNESS_V1,
};
use crate::transaction::{InputModel, OutputModel, TxInput, TxModel, TxOutput, TxTemplate};
use crate::trusted::{sha256, sha256_digest};

verus! {

/// The version of the template's transaction.
pub const TEMPLATE_VERSION: i32 = 3;

/// The lock time of the template's transaction.
pub const LOCK_TIME_ZERO: u32 = 0;

/// The sequence number of both inputs.
pub const SEQUENCE_ZERO: u32 = 0;

/// The length of a taproot script: two opcodes and a 32-byte key.
pub const TAPROOT_SCRIPT_LEN: u8 = 34;

/// The two inputs: no unlocking script, sequence number zero.
pub open spec fn two_party_inputs() -> Seq<InputModel> {
    seq![
        InputModel { script_sig: Seq::empty(), sequence: SEQUENCE_ZERO },
        InputModel { script_sig: Seq::empty(), sequence: SEQUENCE_ZERO },
    ]
}

/// The three outputs: one taproot output for each key, then the anchor.
pub open spec fn two_party_outputs(
    a_value: u64,
    a: Seq<u8>,
    b_value: u64,
    b: Seq<u8>,
) -> Seq<OutputModel> {
    seq![
        OutputModel { value: a_value, script_pubkey: taproot_script(a) },
        OutputModel { value: b_value, script_pubkey: taproot_script(b) },
        OutputModel { value: 0, script_pubkey: anchor_script() },
    ]
}

/// The transaction that the template stands for.
pub open spec fn two_party_transaction(
    a_value: u64,
    a: Seq<u8>,
    b_value: u64,
    b: Seq<u8>,
) -> TxModel {
    TxModel {
        version: TEMPLATE_VERSION,
        lock_time: LOCK_TIME_ZERO,
        inputs: two_party_inputs(),
        outputs: two_party_outputs(a_value, a, b_value, b),
    }
}

/// A taproot output, byte by byte: the amount in eight little-endian bytes,
/// the script length, the version marker, the push opcode, the key.
pub open spec fn taproot_output_bytes(value: u64, key: Seq<u8>) -> Seq<u8> {
    u64_le(value) + seq![TAPROOT_SCRIPT_LEN, OP_WITNESS_V1, OP_PUSHBYTES_32] + key
}

/// The anchor output, byte by byte: a zero amount, the script length, the
/// four bytes of the script.
pub open spec fn anchor_output_bytes() -> Seq<u8> {
    u64_le(0) + seq![4u8, 0x51u8, 0x02u8, 0x4eu8, 0x73u8]
}

/// The three outputs, byte by byte.
pub open spec fn two_party_output_bytes(
    a_value: u64,
    a: Seq<u8>,
    b_value: u64,
    b: Seq<u8>,
) -> Seq<u8> {
    taproot_output_bytes(a_value, a) + taproot_output_bytes(b_value, b) + anchor_output_bytes()
}

/// The recipe of the template, given the two hashes that it carries: two
/// inputs without unlocking scripts, three outputs.
pub open spec fn two_party_recipe_of(
    sequences_hash: Seq<u8>,
    outputs_hash: Seq<u8>,
    input_index: u32,
) -> RecipeModel {
    RecipeModel {
        version: TEMPLATE_VERSION,
        lock_time: LOCK_TIME_ZERO,
        input_count: 2,
        script_sigs_hash: None,
        sequences_hash,
        output_count: 3,
        outputs_hash,
        input_index,
    }
}

/// The recipe of the template, written out from its components: the hash
/// over two zero sequence numbers and the hash over the three outputs.
pub open spec fn two_party_recipe(
    a_value: u64,
    a: Seq<u8>,
    b_value: u64,
    b: Seq<u8>,
    input_index: u32,
) -> RecipeModel {
    two_party_recipe_of(
        sha256_digest(u32_le(SEQUENCE_ZERO) + u32_le(SEQUENCE_ZERO)),
        sha256_digest(two_party_output_bytes(a_value, a, b_value, b)),
        input_index,
    )
}

/// A taproot output serializes to the amount, the byte 34, the two opcodes
/// and the key.
pub proof fn lemma_taproot_output_layout(value: u64, key: Seq<u8>)
    requires
        key.len() == 32,
    ensures
        output_bytes(OutputModel { value, script_pubkey: taproot_script(key) })
            == taproot_output_bytes(value, key),
{
    let script = taproot_script(key);
    assert(compact_size(script.len()) =~= seq![TAPROOT_SCRIPT_LEN]);
    assert(u64_le(value) + (seq![TAPROOT_SCRIPT_LEN] + script) =~= taproot_output_bytes(
        value,
        key,
    ));
}

/// The anchor output serializes to a zero amount, the byte 4 and the script.
pub proof fn lemma_anchor_output_layout()
    ensures
        output_bytes(OutputModel { value: 0, script_pubkey: anchor_script() })
            == anchor_output_bytes(),
{
    let script = anchor_script();
    assert(compact_size(script.len()) =~= seq![4u8]);
    assert(u64_le(0) + (seq![4u8] + script) =~= anchor_output_bytes());
}

/// Two zero sequence numbers serialize to their two encodings in a row.
pub proof fn lemma_two_zero_sequences()
    ensures
        sequences_bytes(seq![SEQUENCE_ZERO, SEQUENCE_ZERO]) == u32_le(SEQUENCE_ZERO) + u32_le(
            SEQUENCE_ZERO,
        ),
{
    let none = Seq::<u32>::empty();
    lemma_sequences_bytes_push(none, SEQUENCE_ZERO);
    lemma_sequences_bytes_push(none.push(SEQUENCE_ZERO), SEQUENCE_ZERO);
    assert(seq![SEQUENCE_ZERO, SEQUENCE_ZERO] =~= none.push(SEQUENCE_ZERO).push(SEQUENCE_ZERO));
    assert(sequences_bytes(none) + u32_le(SEQUENCE_ZERO) =~= u32_le(SEQUENCE_ZERO));
}

/// The recipe that the transaction reduces to is the recipe written out from
/// the components: for all amounts, keys and input indices the two ways of
/// computing the hash give the same hash.
pub proof fn lemma_two_party_paths_agree(
    a_value: u64,
    a: [u8; 32],
    b_value: u64,
    b: [u8; 32],
    input_index: u32,
)
    ensures
        transaction_recipe(two_party_transaction(a_value, a@, b_value, b@), input_index)
            == two_party_recipe(a_value, a@, b_value, b@, input_index),
        transaction_recipe(
            two_party_transaction(a_value, a@, b_value, b@),
            input_index,
        ).template_hash() == two_party_recipe(a_value, a@, b_value, b@, input_index).template_hash(),
{
    lemma_two_zero_sequences();
    assert(sequences_of(two_party_inputs()) =~= seq![SEQUENCE_ZERO, SEQUENCE_ZERO]);

    let first = OutputModel { value: a_value, script_pubkey: taproot_script(a@) };
    let second = OutputModel { value: b_value, script_pubkey: taproot_script(b@) };
    let third = OutputModel { value: 0, script_pubkey: anchor_script() };
    let nothing = Seq::<OutputModel>::empty();
    lemma_outputs_bytes_push(nothing, first);
    lemma_outputs_bytes_push(nothing.push(first), second);
    lemma_outputs_bytes_push(nothing.push(first).push(second), third);
    assert(two_party_outputs(a_value, a@, b_value, b@) =~= nothing.push(first).push(second).push(
        third,
    ));
    assert(outputs_bytes(nothing) + output_bytes(first) =~= output_bytes(first));
    lemma_taproot_output_layout(a_value, a@);
    lemma_taproot_output_layout(b_value, b@);
    lemma_anchor_output_layout();
}

/// Builds the transaction of the template: version 3, lock time zero, the
/// two inputs and the three outputs.
pub fn build_transaction(
    a_value: u64,
    a: &[u8; 32],
    b_value: u64,
    b: &[u8; 32],
) -> (tx: TxTemplate)
    ensures
        tx@ == two_party_transaction(a_value, a@, b_value, b@),
{
    let mut inputs: Vec<TxInput> = Vec::new();
    inputs.push(TxInput { script_sig: Vec::new(), sequence: SEQUENCE_ZERO });
    inputs.push(TxInput { script_sig: Vec::new(), sequence: SEQUENCE_ZERO });

    let mut outputs: Vec<TxOutput> = Vec::new();
    outputs.push(TxOutput { value: a_value, script_pubkey: taproot_script_pubkey(a) });
    outputs.push(TxOutput { value: b_value, script_pubkey: taproot_script_pubkey(b) });
    outputs.push(TxOutput { value: 0, script_pubkey: anchor_script_pubkey() });

    let tx = TxTemplate { version: TEMPLATE_VERSION, lock_time: LOCK_TIME_ZERO, inputs, outputs };
    proof {
        let model = two_party_transaction(a_value, a@, b_value, b@);
        assert(tx@.inputs =~= model.inputs);
        assert(tx@.outputs =~= model.outputs);
    }
    tx
}

/// Appends a taproot output: amount, script length, the two opcodes, key.
fn push_taproot_output(buf: &mut Vec<u8>, value: u64, key: &[u8; 32])
    ensures
        final(buf)@ == old(buf)@ + taproot_output_bytes(value, key@),
{
    let ghost before = buf@;
    push_u64_le(buf, value);
    buf.push(TAPROOT_SCRIPT_LEN);
    buf.push(OP_WITNESS_V1);
    buf.push(OP_PUSHBYTES_32);
    push_bytes(buf, key.as_slice());
    assert(buf@ =~= before + taproot_output_bytes(value, key@));
}

/// Appends the anchor output: a zero amount, the script length, the script.
fn push_anchor_output(buf: &mut Vec<u8>)
    ensures
        final(buf)@ == old(buf)@ + anchor_output_bytes(),
{
    let ghost before = buf@;
    let script = anchor_script_pubkey();
    push_u64_le(buf, 0);
    buf.push(script.len() as u8);
    push_bytes(buf, script.as_slice());
    assert(buf@ =~= before + anchor_output_bytes());
}

/// Writes the three outputs out byte by byte, as they are hashed into the
/// outputs commitment, without building a transaction.
pub fn write_outputs(a_value: u64, a: &[u8; 32], b_value: u64, b: &[u8; 32]) -> (bytes: Vec<u8>)
    ensures
        bytes@ == two_party_output_bytes(a_value, a@, b_value, b@),
        bytes@.len() == 99,
{
    let mut bytes: Vec<u8> = Vec::new();
    push_taproot_output(&mut bytes, a_value, a);
    push_taproot_output(&mut bytes, b_value, b);
    push_anchor_output(&mut bytes);
    proof {
        assert(bytes@ =~= two_party_output_bytes(a_value, a@, b_value, b@));
        crate::encoding::lemma_le_bytes_len(a_value as nat, 8);
        crate::encoding::lemma_le_bytes_len(b_value as nat, 8);
        crate::encoding::lemma_le_bytes_len(0, 8);
    }
    bytes
}

/// Assembles the recipe of the template from the two hashes that it carries.
pub fn assemble_recipe(
    sequences_hash: [u8; 32],
    outputs_hash: [u8; 32],
    input_index: u32,
) -> (recipe: TemplateRecipe)
    ensures
        recipe@ == two_party_recipe_of(sequences_hash@, outputs_hash@, input_index),
{
    TemplateRecipe {
        version: TEMPLATE_VERSION,
        lock_time: LOCK_TIME_ZERO,
        input_count: 2,
        script_sigs_hash: None,
        sequences_hash,
        output_count: 3,
        outputs_hash,
        input_index,
    }
}

/// Computes the template hash from the components alone: the hash over the
/// two zero sequence numbers, the hash over the three outputs written out
/// byte by byte, the counts, and no hash over unlocking scripts. The 84
/// bytes of the recipe are hashed twice.
pub fn ctv_from_components(
    a_value: u64,
    a: [u8; 32],
    b_value: u64,
    b: [u8; 32],
    input_index: u32,
) -> (hash: TemplateHash)
    ensures
        hash@ == two_party_recipe(a_value, a@, b_value, b@, input_index).template_hash(),
{
    let sequences = [SEQUENCE_ZERO, SEQUENCE_ZERO];
    let sequences_hash = hash_sequences(sequences.as_slice());
    proof {
        lemma_two_zero_sequences();
        assert(sequences@ =~= seq![SEQUENCE_ZERO, SEQUENCE_ZERO]);
    }
    let outputs = write_outputs(a_value, &a, b_value, &b);
    let outputs_hash = sha256(outputs.as_slice());
    let recipe = assemble_recipe(sequences_hash, outputs_hash, input_index);
    hash_from_components(&recipe)
}

/// Computes the template hash from the transaction: builds the two inputs
/// and the three outputs and reduces the whole to its hash, SHA-256 applied
/// twice to the preimage of its recipe. The result is the hash that
/// [`ctv_from_components`] computes from the same arguments.
pub fn ctv_from_transaction(
    a_value: u64,
    a: [u8; 32],
    b_value: u64,
    b: [u8; 32],
    input_index: u32,
) -> (hash: TemplateHash)
    ensures
        hash@ == transaction_recipe(
            two_party_transaction(a_value, a@, b_value, b@),
            input_index,
        ).template_hash(),
        hash@ == two_party_recipe(a_value, a@, b_value, b@, input_index).template_hash(),
{
    let transaction = build_transaction(a_value, &a, b_value, &b);
    proof {
        lemma_two_party_paths_agree(a_value, a, b_value, b, input_index);
    }
    hash_from_transaction(&transaction, input_index)
}

} // verus!
