//! What holds of the encodings and of the hashes built on them.
//!
//! SHA-256 itself is not modelled, so nothing here can say that two digests
//! differ. What is proved instead is that the hashed byte strings differ:
//! two such hashes can then only be equal if SHA-256 collides, on those
//! strings or, for a template hash, on the inner digests.
//!
//! That the two calculators of the two-party template agree is proved
//! beside them, in [`crate::two_party`].

use vstd::prelude::*;
use crate::commitment::{output_bytes, outputs_bytes, sequences_bytes};
use crate::encoding::{
    i32_le, le_value, lemma_le_bytes_injective, lemma_le_bytes_len, lemma_le_round_trip,
    lemma_length_prefixed_unique, lemma_radix_values, length_prefixed, radix, twos_complement,
    u32_le, u64_le,
};
use crate::hash::TemplateHash;
use crate::recipe::{transaction_recipe, RecipeModel, TemplateRecipe};
use crate::transaction::{output_models, OutputModel, TxOutput, TxTemplate};
use crate::trusted::sha256_digest;
use crate::two_party::two_party_recipe;

verus! {

/// Two different byte strings with the same SHA-256 digest.
pub open spec fn sha256_collision(first: Seq<u8>, second: Seq<u8>) -> bool {
    first != second && sha256_digest(first) == sha256_digest(second)
}

/// Every amount, zero and the largest included, takes exactly eight bytes,
/// and the bytes give the amount back: nothing is cut off and no sign
/// creeps in.
pub proof fn lemma_amount_takes_eight_bytes(value: u64)
    ensures
        u64_le(value).len() == 8,
        le_value(u64_le(value)) == value,
{
    lemma_radix_values();
    lemma_le_bytes_len(value as nat, 8);
    lemma_le_round_trip(value as nat, 8);
}

/// Different 32-bit numbers have different encodings.
pub proof fn lemma_u32_le_injective(first: u32, second: u32)
    requires
        u32_le(first) == u32_le(second),
    ensures
        first == second,
{
    lemma_radix_values();
    lemma_le_bytes_injective(first as nat, second as nat, 4);
}

/// The sequence numbers take four bytes each.
pub proof fn lemma_sequences_bytes_len(sequences: Seq<u32>)
    ensures
        sequences_bytes(sequences).len() == 4 * sequences.len(),
    decreases sequences.len(),
{
    if sequences.len() > 0 {
        lemma_sequences_bytes_len(sequences.drop_last());
        lemma_le_bytes_len(sequences.last() as nat, 4);
    }
}

/// Lists of sequence numbers that serialize alike are the same list: the
/// bytes fix every number and its place.
pub proof fn lemma_sequences_bytes_injective(first: Seq<u32>, second: Seq<u32>)
    requires
        sequences_bytes(first) == sequences_bytes(second),
    ensures
        first == second,
    decreases first.len(),
{
    lemma_sequences_bytes_len(first);
    lemma_sequences_bytes_len(second);
    if first.len() > 0 {
        let head = sequences_bytes(first.drop_last());
        let other_head = sequences_bytes(second.drop_last());
        let all = sequences_bytes(first);
        lemma_sequences_bytes_len(first.drop_last());
        lemma_sequences_bytes_len(second.drop_last());
        lemma_le_bytes_len(first.last() as nat, 4);
        lemma_le_bytes_len(second.last() as nat, 4);
        assert(all.subrange(0, head.len() as int) =~= head);
        assert(all.subrange(0, head.len() as int) =~= other_head);
        assert(all.subrange(head.len() as int, all.len() as int) =~= u32_le(first.last()));
        assert(all.subrange(head.len() as int, all.len() as int) =~= u32_le(second.last()));
        lemma_u32_le_injective(first.last(), second.last());
        lemma_sequences_bytes_injective(first.drop_last(), second.drop_last());
        assert(first =~= first.drop_last().push(first.last()));
        assert(second =~= second.drop_last().push(second.last()));
    } else {
        assert(first =~= second);
    }
}

/// Swapping two different sequence numbers changes the bytes that are
/// hashed, so the two sub-commitments are equal only if SHA-256 collides.
pub proof fn lemma_sequences_order_sensitive(s0: u32, s1: u32)
    requires
        s0 != s1,
    ensures
        sequences_bytes(seq![s0, s1]) != sequences_bytes(seq![s1, s0]),
        sha256_digest(sequences_bytes(seq![s0, s1])) == sha256_digest(
            sequences_bytes(seq![s1, s0]),
        ) ==> sha256_collision(sequences_bytes(seq![s0, s1]), sequences_bytes(seq![s1, s0])),
{
    if sequences_bytes(seq![s0, s1]) == sequences_bytes(seq![s1, s0]) {
        lemma_sequences_bytes_injective(seq![s0, s1], seq![s1, s0]);
        assert(seq![s0, s1][0] == seq![s1, s0][0]);
    }
}

/// A serialized output can be read back off the front of a byte string:
/// where two outputs, each followed by more bytes, give the same string, they
/// are the same output and so is what follows.
pub proof fn lemma_output_bytes_unique(
    first: OutputModel,
    after_first: Seq<u8>,
    second: OutputModel,
    after_second: Seq<u8>,
)
    requires
        first.script_pubkey.len() < radix(8),
        second.script_pubkey.len() < radix(8),
        output_bytes(first) + after_first == output_bytes(second) + after_second,
    ensures
        first == second,
        after_first == after_second,
{
    lemma_radix_values();
    lemma_le_bytes_len(first.value as nat, 8);
    lemma_le_bytes_len(second.value as nat, 8);
    let all = output_bytes(first) + after_first;
    assert(all.subrange(0, 8) =~= u64_le(first.value));
    assert(all.subrange(0, 8) =~= u64_le(second.value));
    lemma_le_bytes_injective(first.value as nat, second.value as nat, 8);
    let rest = all.subrange(8, all.len() as int);
    assert(rest =~= length_prefixed(first.script_pubkey) + after_first);
    assert(rest =~= length_prefixed(second.script_pubkey) + after_second);
    lemma_length_prefixed_unique(
        first.script_pubkey,
        after_first,
        second.script_pubkey,
        after_second,
    );
}

/// The serialized outputs start with the first output.
pub proof fn lemma_outputs_bytes_front(outputs: Seq<OutputModel>)
    requires
        outputs.len() > 0,
    ensures
        outputs_bytes(outputs) == output_bytes(outputs[0]) + outputs_bytes(outputs.skip(1)),
    decreases outputs.len(),
{
    let tail = outputs.skip(1);
    if outputs.len() == 1 {
        assert(outputs.drop_last() =~= Seq::<OutputModel>::empty());
        assert(tail =~= Seq::<OutputModel>::empty());
        assert(outputs_bytes(outputs) =~= output_bytes(outputs[0]) + outputs_bytes(tail));
    } else {
        let init = outputs.drop_last();
        lemma_outputs_bytes_front(init);
        assert(init.skip(1) =~= tail.drop_last());
        assert(tail.last() == outputs.last());
        assert(outputs_bytes(outputs) =~= output_bytes(outputs[0]) + outputs_bytes(tail));
    }
}

/// Whether every script is short enough for its length to fit eight bytes,
/// as every script held in memory is.
pub open spec fn scripts_fit(outputs: Seq<OutputModel>) -> bool {
    forall|i: int| 0 <= i < outputs.len() ==> (#[trigger] outputs[i]).script_pubkey.len() < radix(8)
}

/// Lists of outputs that serialize alike are the same list: the bytes fix
/// every amount, every script and the order.
pub proof fn lemma_outputs_bytes_injective(first: Seq<OutputModel>, second: Seq<OutputModel>)
    requires
        scripts_fit(first),
        scripts_fit(second),
        outputs_bytes(first) == outputs_bytes(second),
    ensures
        first == second,
    decreases first.len(),
{
    if first.len() == 0 {
        if second.len() > 0 {
            lemma_outputs_bytes_front(second);
            lemma_le_bytes_len(second[0].value as nat, 8);
        }
        assert(first =~= second);
    } else {
        lemma_outputs_bytes_front(first);
        if second.len() == 0 {
            lemma_le_bytes_len(first[0].value as nat, 8);
        } else {
            lemma_outputs_bytes_front(second);
            assert(first[0].script_pubkey.len() < radix(8));
            assert(second[0].script_pubkey.len() < radix(8));
            lemma_output_bytes_unique(
                first[0],
                outputs_bytes(first.skip(1)),
                second[0],
                outputs_bytes(second.skip(1)),
            );
            assert forall|i: int| 0 <= i < first.skip(1).len() implies (#[trigger] first.skip(
                1,
            )[i]).script_pubkey.len() < radix(8) by {
                assert(first.skip(1)[i] == first[i + 1]);
            }
            assert forall|i: int| 0 <= i < second.skip(1).len() implies (#[trigger] second.skip(
                1,
            )[i]).script_pubkey.len() < radix(8) by {
                assert(second.skip(1)[i] == second[i + 1]);
            }
            lemma_outputs_bytes_injective(first.skip(1), second.skip(1));
            assert(first =~= seq![first[0]] + first.skip(1));
            assert(second =~= seq![second[0]] + second.skip(1));
        }
    }
}

/// Outputs held in memory serialize alike only if they are the same
/// outputs in the same order: swapping, dropping or changing one changes
/// the bytes that are hashed into their sub-commitment.
pub proof fn lemma_outputs_determined(first: Seq<TxOutput>, second: Seq<TxOutput>)
    requires
        outputs_bytes(output_models(first)) == outputs_bytes(output_models(second)),
    ensures
        output_models(first) == output_models(second),
{
    lemma_radix_values();
    assert forall|i: int| 0 <= i < first.len() implies (#[trigger] output_models(
        first,
    )[i]).script_pubkey.len() < radix(8) by {
        assert(first[i].script_pubkey@.len() == first[i].script_pubkey.len());
    }
    assert forall|i: int| 0 <= i < second.len() implies (#[trigger] output_models(
        second,
    )[i]).script_pubkey.len() < radix(8) by {
        assert(second[i].script_pubkey@.len() == second[i].script_pubkey.len());
    }
    lemma_outputs_bytes_injective(output_models(first), output_models(second));
}

/// The length of what is hashed: five numbers of four bytes and two hashes
/// of 32, and 32 more where the hash over the unlocking scripts is present.
pub proof fn lemma_preimage_len(recipe: TemplateRecipe)
    ensures
        recipe.script_sigs_hash is None ==> recipe@.preimage().len() == 84,
        recipe.script_sigs_hash is Some ==> recipe@.preimage().len() == 116,
{
    lemma_le_bytes_len(twos_complement(recipe.version), 4);
    lemma_le_bytes_len(recipe.lock_time as nat, 4);
    lemma_le_bytes_len(recipe.input_count as nat, 4);
    lemma_le_bytes_len(recipe.output_count as nat, 4);
    lemma_le_bytes_len(recipe.input_index as nat, 4);
}

/// Different signed 32-bit numbers have different encodings.
pub proof fn lemma_i32_le_injective(first: i32, second: i32)
    requires
        i32_le(first) == i32_le(second),
    ensures
        first == second,
{
    lemma_radix_values();
    lemma_le_bytes_injective(twos_complement(first), twos_complement(second), 4);
}

/// The encoding of a recipe gives the recipe back: two recipes that are
/// hashed from the same bytes agree in every field, the presence of the hash
/// over the unlocking scripts included. So whatever is changed in a recipe,
/// other bytes are hashed.
pub proof fn lemma_preimage_injective(first: TemplateRecipe, second: TemplateRecipe)
    requires
        first@.preimage() == second@.preimage(),
    ensures
        first@ == second@,
{
    lemma_preimage_len(first);
    lemma_preimage_len(second);
    let (a, b) = (first@, second@);
    let bytes = a.preimage();
    lemma_le_bytes_len(twos_complement(a.version), 4);
    lemma_le_bytes_len(twos_complement(b.version), 4);
    lemma_le_bytes_len(a.lock_time as nat, 4);
    lemma_le_bytes_len(b.lock_time as nat, 4);
    lemma_le_bytes_len(a.input_count as nat, 4);
    lemma_le_bytes_len(b.input_count as nat, 4);
    lemma_le_bytes_len(a.output_count as nat, 4);
    lemma_le_bytes_len(b.output_count as nat, 4);
    lemma_le_bytes_len(a.input_index as nat, 4);
    lemma_le_bytes_len(b.input_index as nat, 4);
    let skip = a.script_sigs_part().len() as int;
    assert(skip == b.script_sigs_part().len());

    assert(bytes.subrange(0, 4) =~= i32_le(a.version));
    assert(bytes.subrange(0, 4) =~= i32_le(b.version));
    lemma_i32_le_injective(a.version, b.version);

    assert(bytes.subrange(4, 8) =~= u32_le(a.lock_time));
    assert(bytes.subrange(4, 8) =~= u32_le(b.lock_time));
    lemma_u32_le_injective(a.lock_time, b.lock_time);

    assert(bytes.subrange(8, 12) =~= u32_le(a.input_count));
    assert(bytes.subrange(8, 12) =~= u32_le(b.input_count));
    lemma_u32_le_injective(a.input_count, b.input_count);

    assert(bytes.subrange(12, 12 + skip) =~= a.script_sigs_part());
    assert(bytes.subrange(12, 12 + skip) =~= b.script_sigs_part());
    assert(a.script_sigs_hash == b.script_sigs_hash);

    assert(bytes.subrange(12 + skip, 44 + skip) =~= a.sequences_hash);
    assert(bytes.subrange(12 + skip, 44 + skip) =~= b.sequences_hash);

    assert(bytes.subrange(44 + skip, 48 + skip) =~= u32_le(a.output_count));
    assert(bytes.subrange(44 + skip, 48 + skip) =~= u32_le(b.output_count));
    lemma_u32_le_injective(a.output_count, b.output_count);

    assert(bytes.subrange(48 + skip, 80 + skip) =~= a.outputs_hash);
    assert(bytes.subrange(48 + skip, 80 + skip) =~= b.outputs_hash);

    assert(bytes.subrange(80 + skip, 84 + skip) =~= u32_le(a.input_index));
    assert(bytes.subrange(80 + skip, 84 + skip) =~= u32_le(b.input_index));
    lemma_u32_le_injective(a.input_index, b.input_index);
}

/// Whether two recipes can have the same template hash only by a collision
/// of SHA-256: on their preimages, or on their inner digests.
pub open spec fn equal_only_by_collision(first: RecipeModel, second: RecipeModel) -> bool {
    first.template_hash() == second.template_hash() ==> sha256_collision(
        first.preimage(),
        second.preimage(),
    ) || sha256_collision(first.digest(), second.digest())
}

/// Recipes that differ in any field are hashed from different bytes, and
/// have the same template hash only if SHA-256 collides, in its first
/// application or in its second.
pub proof fn lemma_different_recipes_different_hash(first: TemplateRecipe, second: TemplateRecipe)
    requires
        first@ != second@,
    ensures
        first@.preimage() != second@.preimage(),
        equal_only_by_collision(first@, second@),
{
    if first@.preimage() == second@.preimage() {
        lemma_preimage_injective(first, second);
    }
}

/// Changing the input index alone changes the bytes that are hashed, so the
/// two template hashes are equal only if SHA-256 collides.
pub proof fn lemma_index_sensitive(recipe: RecipeModel, other_index: u32)
    requires
        recipe.input_index != other_index,
    ensures
        recipe.preimage() != (RecipeModel { input_index: other_index, ..recipe }).preimage(),
        equal_only_by_collision(recipe, RecipeModel { input_index: other_index, ..recipe }),
{
    let other = RecipeModel { input_index: other_index, ..recipe };
    let head = i32_le(recipe.version) + u32_le(recipe.lock_time) + u32_le(recipe.input_count)
        + recipe.script_sigs_part() + recipe.sequences_hash + u32_le(recipe.output_count)
        + recipe.outputs_hash;
    let all = recipe.preimage();
    let other_all = other.preimage();
    assert(all == head + u32_le(recipe.input_index));
    assert(other_all == head + u32_le(other_index));
    if all == other_all {
        lemma_le_bytes_len(recipe.input_index as nat, 4);
        lemma_le_bytes_len(other_index as nat, 4);
        assert(all.subrange(head.len() as int, all.len() as int) =~= u32_le(recipe.input_index));
        assert(all.subrange(head.len() as int, all.len() as int) =~= u32_le(other_index));
        lemma_u32_le_injective(recipe.input_index, other_index);
    }
}

/// A recipe that carries a non-empty hash over the unlocking scripts is
/// hashed from other bytes than the same recipe without one: the field is
/// left out, not filled with zeros. The two template hashes are equal only
/// if SHA-256 collides.
pub proof fn lemma_script_sigs_presence_sensitive(recipe: RecipeModel, hash: Seq<u8>)
    requires
        hash.len() > 0,
    ensures
        (RecipeModel { script_sigs_hash: Some(hash), ..recipe }).preimage() != (RecipeModel {
            script_sigs_hash: None,
            ..recipe
        }).preimage(),
        (RecipeModel { script_sigs_hash: Some(hash), ..recipe }).preimage().len() == (RecipeModel {
            script_sigs_hash: None,
            ..recipe
        }).preimage().len() + hash.len(),
        equal_only_by_collision(
            RecipeModel { script_sigs_hash: Some(hash), ..recipe },
            RecipeModel { script_sigs_hash: None, ..recipe },
        ),
{
    let with = RecipeModel { script_sigs_hash: Some(hash), ..recipe };
    let without = RecipeModel { script_sigs_hash: None, ..recipe };
    assert(with.script_sigs_part().len() == hash.len());
    assert(without.script_sigs_part().len() == 0);
    assert(with.preimage().len() == without.preimage().len() + hash.len());
}

/// Hashing the same recipe twice gives the same bytes: the contract of
/// `hash_from_components` leaves room for one result only.
pub proof fn lemma_components_hash_determined(
    recipe: TemplateRecipe,
    first: TemplateHash,
    second: TemplateHash,
)
    requires
        first@ == recipe@.template_hash(),
        second@ == recipe@.template_hash(),
    ensures
        first == second,
{
    first.lemma_ext_equal(second);
}

/// Hashing the same transaction at the same index twice gives the same
/// bytes: the contract of `hash_from_transaction` leaves room for one result
/// only.
pub proof fn lemma_transaction_hash_determined(
    tx: TxTemplate,
    input_index: u32,
    first: TemplateHash,
    second: TemplateHash,
)
    requires
        first@ == transaction_recipe(tx@, input_index).template_hash(),
        second@ == transaction_recipe(tx@, input_index).template_hash(),
    ensures
        first == second,
{
    first.lemma_ext_equal(second);
}

/// The two-party template has one hash for given amounts, keys and index,
/// whichever of the two calculators computed it and however often.
pub proof fn lemma_two_party_hash_determined(
    a_value: u64,
    a: [u8; 32],
    b_value: u64,
    b: [u8; 32],
    input_index: u32,
    first: TemplateHash,
    second: TemplateHash,
)
    requires
        first@ == two_party_recipe(a_value, a@, b_value, b@, input_index).template_hash(),
        second@ == two_party_recipe(a_value, a@, b_value, b@, input_index).template_hash(),
    ensures
        first == second,
{
    first.lemma_ext_equal(second);
}

/// Hashing the same sequence numbers twice gives the same 32 bytes.
pub proof fn lemma_sequences_hash_determined(
    sequences: Seq<u32>,
    first: [u8; 32],
    second: [u8; 32],
)
    requires
        first@ == sha256_digest(sequences_bytes(sequences)),
        second@ == sha256_digest(sequences_bytes(sequences)),
    ensures
        first == second,
{
    assert(first =~= second);
}

/// Hashing the same outputs twice gives the same 32 bytes.
pub proof fn lemma_outputs_hash_determined(
    outputs: Seq<TxOutput>,
    first: [u8; 32],
    second: [u8; 32],
)
    requires
        first@ == sha256_digest(outputs_bytes(output_models(outputs))),
        second@ == sha256_digest(outputs_bytes(output_models(outputs))),
    ensures
        first == second,
{
    assert(first =~= second);
}

} // verus!
