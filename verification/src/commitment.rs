//! The byte strings behind the sub-commitments of a template.

use vstd::prelude::*;
use crate::encoding::{length_prefixed, push_length_prefixed, push_u64_le, u32_le, u64_le};
use crate::transaction::{input_models, output_models, InputModel, OutputModel, TxInput, TxOutput};
use crate::trusted::{sequences_sha256, sha256, sha256_digest};

verus! {

/// The sequence numbers in order, four little-endian bytes each.
pub open spec fn sequences_bytes(sequences: Seq<u32>) -> Seq<u8>
    decreases sequences.len(),
{
    if sequences.len() == 0 {
        Seq::empty()
    } else {
        sequences_bytes(sequences.drop_last()) + u32_le(sequences.last())
    }
}

/// Appending a sequence number appends its four bytes.
pub proof fn lemma_sequences_bytes_push(sequences: Seq<u32>, number: u32)
    ensures
        sequences_bytes(sequences.push(number)) == sequences_bytes(sequences) + u32_le(number),
{
    assert(sequences.push(number).drop_last() =~= sequences);
}

/// One output as it is serialized: the amount in eight little-endian bytes,
/// then the script behind its length prefix.
pub open spec fn output_bytes(output: OutputModel) -> Seq<u8> {
    u64_le(output.value) + length_prefixed(output.script_pubkey)
}

/// The serialized outputs, concatenated in order.
pub open spec fn outputs_bytes(outputs: Seq<OutputModel>) -> Seq<u8>
    decreases outputs.len(),
{
    if outputs.len() == 0 {
        Seq::empty()
    } else {
        outputs_bytes(outputs.drop_last()) + output_bytes(outputs.last())
    }
}

/// Appending an output appends its serialization.
pub proof fn lemma_outputs_bytes_push(outputs: Seq<OutputModel>, output: OutputModel)
    ensures
        outputs_bytes(outputs.push(output)) == outputs_bytes(outputs) + output_bytes(output),
{
    assert(outputs.push(output).drop_last() =~= outputs);
}

/// The unlocking scripts in order, each behind its length prefix.
pub open spec fn script_sigs_bytes(inputs: Seq<InputModel>) -> Seq<u8>
    decreases inputs.len(),
{
    if inputs.len() == 0 {
        Seq::empty()
    } else {
        script_sigs_bytes(inputs.drop_last()) + length_prefixed(inputs.last().script_sig)
    }
}

/// Whether any input carries an unlocking script.
pub open spec fn any_script_sig(inputs: Seq<InputModel>) -> bool {
    exists|i: int| 0 <= i < inputs.len() && (#[trigger] inputs[i]).script_sig.len() > 0
}

/// The sequence numbers of a run of inputs.
pub open spec fn sequences_of(inputs: Seq<InputModel>) -> Seq<u32> {
    Seq::new(inputs.len(), |i: int| inputs[i].sequence)
}

/// Hashes the sequence numbers of the inputs, in order, into the
/// sub-commitment that a template carries for them.
pub fn hash_sequences(sequences: &[u32]) -> (digest: [u8; 32])
    ensures
        digest@ == sha256_digest(sequences_bytes(sequences@)),
{
    sequences_sha256(sequences)
}

/// Appends one serialized output.
pub fn serialize_output(buf: &mut Vec<u8>, output: &TxOutput)
    ensures
        final(buf)@ == old(buf)@ + output_bytes(output@),
{
    let ghost before = buf@;
    push_u64_le(buf, output.value);
    push_length_prefixed(buf, output.script_pubkey.as_slice());
    assert(buf@ =~= before + output_bytes(output@));
}

/// Serializes the outputs, one after the other.
pub fn serialize_outputs(outputs: &[TxOutput]) -> (bytes: Vec<u8>)
    ensures
        bytes@ == outputs_bytes(output_models(outputs@)),
{
    let mut bytes: Vec<u8> = Vec::new();
    let mut at: usize = 0;
    while at < outputs.len()
        invariant
            at <= outputs@.len(),
            bytes@ == outputs_bytes(output_models(outputs@.take(at as int))),
        decreases outputs@.len() - at,
    {
        serialize_output(&mut bytes, &outputs[at]);
        proof {
            let done = output_models(outputs@.take(at + 1));
            assert(done.drop_last() =~= output_models(outputs@.take(at as int)));
            assert(done.last() == outputs@[at as int]@);
        }
        at = at + 1;
    }
    assert(outputs@.take(at as int) =~= outputs@);
    bytes
}

/// Hashes the serialized outputs, in order, into the sub-commitment that a
/// template carries for them.
pub fn hash_outputs(outputs: &[TxOutput]) -> (digest: [u8; 32])
    ensures
        digest@ == sha256_digest(outputs_bytes(output_models(outputs@))),
{
    let bytes = serialize_outputs(outputs);
    sha256(bytes.as_slice())
}

/// Tells whether any input carries an unlocking script.
pub fn has_script_sig(inputs: &[TxInput]) -> (found: bool)
    ensures
        found == any_script_sig(input_models(inputs@)),
{
    let mut at: usize = 0;
    while at < inputs.len()
        invariant
            at <= inputs@.len(),
            forall|i: int| 0 <= i < at ==> (#[trigger] inputs@[i]).script_sig@.len() == 0,
        decreases inputs@.len() - at,
    {
        if inputs[at].script_sig.len() > 0 {
            assert(input_models(inputs@)[at as int].script_sig.len() > 0);
            return true;
        }
        at = at + 1;
    }
    assert forall|i: int| 0 <= i < input_models(inputs@).len() implies (#[trigger] input_models(
        inputs@,
    )[i]).script_sig.len() == 0 by {
        assert(inputs@[i].script_sig@.len() == 0);
    }
    false
}

/// Serializes the unlocking scripts, each behind its length prefix.
pub fn serialize_script_sigs(inputs: &[TxInput]) -> (bytes: Vec<u8>)
    ensures
        bytes@ == script_sigs_bytes(input_models(inputs@)),
{
    let mut bytes: Vec<u8> = Vec::new();
    let mut at: usize = 0;
    while at < inputs.len()
        invariant
            at <= inputs@.len(),
            bytes@ == script_sigs_bytes(input_models(inputs@.take(at as int))),
        decreases inputs@.len() - at,
    {
        push_length_prefixed(&mut bytes, inputs[at].script_sig.as_slice());
        proof {
            let done = input_models(inputs@.take(at + 1));
            assert(done.drop_last() =~= input_models(inputs@.take(at as int)));
            assert(done.last() == inputs@[at as int]@);
        }
        at = at + 1;
    }
    assert(inputs@.take(at as int) =~= inputs@);
    bytes
}

/// Hashes the unlocking scripts into the sub-commitment that a template
/// carries for them; there is none where every script is empty.
pub fn hash_script_sigs(inputs: &[TxInput]) -> (digest: Option<[u8; 32]>)
    ensures
        digest is Some == any_script_sig(input_models(inputs@)),
        digest matches Some(hash) ==> hash@ == sha256_digest(
            script_sigs_bytes(input_models(inputs@)),
        ),
{
    if has_script_sig(inputs) {
        let bytes = serialize_script_sigs(inputs);
        Some(sha256(bytes.as_slice()))
    } else {
        None
    }
}

/// Collects the sequence numbers of the inputs, in order.
pub fn sequence_numbers(inputs: &[TxInput]) -> (numbers: Vec<u32>)
    ensures
        numbers@ == sequences_of(input_models(inputs@)),
{
    let mut numbers: Vec<u32> = Vec::new();
    let mut at: usize = 0;
    while at < inputs.len()
        invariant
            at <= inputs@.len(),
            numbers@ == sequences_of(input_models(inputs@.take(at as int))),
        decreases inputs@.len() - at,
    {
        numbers.push(inputs[at].sequence);
        assert(numbers@ =~= sequences_of(input_models(inputs@.take(at + 1))));
        at = at + 1;
    }
    assert(inputs@.take(at as int) =~= inputs@);
    numbers
}

} // verus!
