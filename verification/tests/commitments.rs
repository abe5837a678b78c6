use bitcoin::{Amount, ScriptBuf};
use ctv_template::commitment::{serialize_output, serialize_outputs};
use ctv_template::script::{anchor_script_pubkey, taproot_script_pubkey};
use ctv_template::{hash_outputs, hash_sequences, TxOutput};

fn hex(text: &str) -> Vec<u8> {
    (0..text.len() / 2).map(|at| u8::from_str_radix(&text[2 * at..2 * at + 2], 16).unwrap()).collect()
}

fn sha256(data: &[u8]) -> [u8; 32] {
    let digest: bitcoin::hashes::sha256::Hash = bitcoin::hashes::Hash::hash(data);
    bitcoin::hashes::Hash::to_byte_array(digest)
}

fn outside_output(output: &TxOutput) -> bitcoin::TxOut {
    bitcoin::TxOut {
        value: Amount::from_sat(output.value),
        script_pubkey: ScriptBuf::from_bytes(output.script_pubkey.clone()),
    }
}

fn sample_outputs() -> Vec<TxOutput> {
    vec![
        TxOutput { value: 42_000, script_pubkey: taproot_script_pubkey(&[1u8; 32]) },
        TxOutput { value: 999_999, script_pubkey: taproot_script_pubkey(&[2u8; 32]) },
        TxOutput { value: 0, script_pubkey: anchor_script_pubkey() },
    ]
}

#[test]
fn no_sequences_hash_to_the_digest_of_nothing() {
    assert_eq!(
        hash_sequences(&[]).to_vec(),
        hex("e3b0c44298fc1c149afbf4c8996fb92427ae41e4649b934ca495991b7852b855"),
    );
}

#[test]
fn two_zero_sequences_hash_to_the_digest_of_eight_zero_bytes() {
    assert_eq!(
        hash_sequences(&[0, 0]).to_vec(),
        hex("af5570f5a1810b7af78caf4bc70a660f0df51e42baf91d4de5b2328de0e83dfc"),
    );
    assert_eq!(hash_sequences(&[0, 0]), sha256(&[0u8; 8]));
}

#[test]
fn sequences_are_hashed_as_little_endian_words() {
    assert_eq!(hash_sequences(&[1, 2]), sha256(&[1, 0, 0, 0, 2, 0, 0, 0]));
    assert_eq!(
        hash_sequences(&[0xffff_fffe, 0x0102_0304, 7]),
        sha256(&[0xfe, 0xff, 0xff, 0xff, 4, 3, 2, 1, 7, 0, 0, 0]),
    );
    assert_eq!(
        hash_sequences(&[1, 2]).to_vec(),
        hex("34fb5c825de7ca4aea6e712f19d439c1da0c92c37b423936c5f618545ca4fa1f"),
    );
}

#[test]
fn sequence_hash_is_the_one_bip119_computes() {
    let numbers = [0u32, 1, 0xffff_fffd, 0xffff_fffe, u32::MAX, 144];
    let outside = bip119::hash_sequences(numbers.iter().map(|number| bitcoin::Sequence(*number)));
    assert_eq!(hash_sequences(&numbers), bitcoin::hashes::Hash::to_byte_array(outside));
}

#[test]
fn the_order_of_sequences_changes_the_hash() {
    assert_ne!(hash_sequences(&[1, 2]), hash_sequences(&[2, 1]));
    assert_ne!(hash_sequences(&[0, u32::MAX]), hash_sequences(&[u32::MAX, 0]));
    assert_eq!(
        hash_sequences(&[2, 1]).to_vec(),
        hex("7b2ed67587fcbc411fcb4b71b1cef1ef6cd9edf948148414cf5f0ab21362b9aa"),
    );
    assert_eq!(hash_sequences(&[5, 5]), hash_sequences(&[5, 5]));
}

#[test]
fn sequence_hash_depends_on_how_many_there_are() {
    assert_ne!(hash_sequences(&[]), hash_sequences(&[0]));
    assert_ne!(hash_sequences(&[0]), hash_sequences(&[0, 0]));
}

#[test]
fn an_output_is_amount_then_prefixed_script() {
    let mut bytes = vec![0xeeu8];
    serialize_output(&mut bytes, &TxOutput { value: 5_000, script_pubkey: vec![0x6a] });
    assert_eq!(bytes, vec![0xee, 0x88, 0x13, 0, 0, 0, 0, 0, 0, 1, 0x6a]);
}

#[test]
fn an_output_with_an_empty_script_has_a_zero_prefix() {
    let mut bytes = Vec::new();
    serialize_output(&mut bytes, &TxOutput { value: u64::MAX, script_pubkey: Vec::new() });
    assert_eq!(bytes, vec![0xff, 0xff, 0xff, 0xff, 0xff, 0xff, 0xff, 0xff, 0]);
}

#[test]
fn boundary_amounts_take_eight_bytes_in_an_output() {
    for value in [0u64, u64::MAX] {
        let output = TxOutput { value, script_pubkey: anchor_script_pubkey() };
        let bytes = serialize_outputs(&[output]);
        assert_eq!(bytes.len(), 8 + 1 + 4);
        assert_eq!(&bytes[..8], &value.to_le_bytes()[..]);
        assert_eq!(&bytes[8..], &[4, 0x51, 0x02, 0x4e, 0x73][..]);
    }
}

#[test]
fn a_long_script_gets_a_three_byte_prefix() {
    let output = TxOutput { value: 1, script_pubkey: vec![0x51; 300] };
    let bytes = serialize_outputs(&[output.clone()]);
    assert_eq!(bytes.len(), 8 + 3 + 300);
    assert_eq!(&bytes[8..11], &[0xfd, 0x2c, 0x01][..]);
    assert_eq!(bytes, bitcoin::consensus::serialize(&outside_output(&output)));
}

#[test]
fn outputs_serialize_as_bitcoin_serializes_them() {
    let outputs = sample_outputs();
    let mut expected = Vec::new();
    for output in &outputs {
        expected.extend(bitcoin::consensus::serialize(&outside_output(output)));
    }
    assert_eq!(serialize_outputs(&outputs), expected);
    assert_eq!(
        serialize_outputs(&outputs),
        hex("10a400000000000022512001010101010101010101010101010101010101010101010101010101010101013f420f0000000000225120020202020202020202020202020202020202020202020202020202020202020200000000000000000451024e73"),
    );
}

#[test]
fn no_outputs_serialize_to_nothing() {
    assert_eq!(serialize_outputs(&[]), Vec::<u8>::new());
    assert_eq!(
        hash_outputs(&[]).to_vec(),
        hex("e3b0c44298fc1c149afbf4c8996fb92427ae41e4649b934ca495991b7852b855"),
    );
}

#[test]
fn outputs_hash_is_the_digest_of_their_bytes() {
    let outputs = sample_outputs();
    assert_eq!(hash_outputs(&outputs), sha256(&serialize_outputs(&outputs)));
    assert_eq!(
        hash_outputs(&outputs).to_vec(),
        hex("2baec4be0b3a8eebe543becb0c556f12fd2b72488fcf5de5451e0d2aab75d30b"),
    );
}

#[test]
fn outputs_hash_is_the_one_bip119_computes() {
    let outputs = sample_outputs();
    let outside: Vec<bitcoin::TxOut> = outputs.iter().map(outside_output).collect();
    assert_eq!(
        hash_outputs(&outputs),
        bitcoin::hashes::Hash::to_byte_array(bip119::hash_outputs(&outside)),
    );
}

#[test]
fn the_order_of_outputs_changes_the_hash() {
    let mut outputs = sample_outputs();
    let forward = hash_outputs(&outputs);
    outputs.swap(0, 1);
    assert_ne!(forward, hash_outputs(&outputs));
}
