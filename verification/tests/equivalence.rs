use bitcoin::secp256k1::{rand, Secp256k1};
use bitcoin::Amount;
use ctv_template::hash::TemplateHash;
use ctv_template::{ctv_from_components, ctv_from_transaction};

fn sha256(data: &[u8]) -> [u8; 32] {
    let digest: bitcoin::hashes::sha256::Hash = bitcoin::hashes::Hash::hash(data);
    bitcoin::hashes::Hash::to_byte_array(digest)
}

fn hex32(text: &str) -> [u8; 32] {
    let mut bytes = [0u8; 32];
    for (at, byte) in bytes.iter_mut().enumerate() {
        *byte = u8::from_str_radix(&text[2 * at..2 * at + 2], 16).unwrap();
    }
    bytes
}

#[test]
fn test_equivalence() {
    let secp = Secp256k1::new();

    let (_ska, pka) = secp.generate_keypair(&mut rand::thread_rng());
    let (_skb, pkb) = secp.generate_keypair(&mut rand::thread_rng());

    let (pka, _) = pka.x_only_public_key();
    let (pkb, _) = pkb.x_only_public_key();

    let a_value = Amount::from_sat(42_000);
    let b_value = Amount::from_sat(999_999);

    for input_index in [0, 1] {
        assert_eq!(
            ctv_from_transaction(
                a_value.to_sat(),
                pka.serialize(),
                b_value.to_sat(),
                pkb.serialize(),
                input_index
            ),
            ctv_from_components(
                a_value.to_sat(),
                pka.serialize(),
                b_value.to_sat(),
                pkb.serialize(),
                input_index
            ),
        );
    }
}

#[test]
fn both_paths_agree_on_fixed_keys_and_any_index() {
    let a = [1u8; 32];
    let b = [2u8; 32];
    for input_index in [0, 1, 2, 7, 0x8000_0000, u32::MAX] {
        assert_eq!(
            ctv_from_transaction(42_000, a, 999_999, b, input_index),
            ctv_from_components(42_000, a, 999_999, b, input_index),
        );
    }
}

#[test]
fn both_paths_agree_on_boundary_amounts() {
    let a = [0u8; 32];
    let b = [0xffu8; 32];
    for (a_value, b_value) in [(0, 0), (0, u64::MAX), (u64::MAX, 0), (u64::MAX, u64::MAX), (1, 2_100_000_000_000_000)] {
        for input_index in [0, 1] {
            assert_eq!(
                ctv_from_transaction(a_value, a, b_value, b, input_index),
                ctv_from_components(a_value, a, b_value, b, input_index),
            );
        }
    }
}

#[test]
fn components_path_gives_the_known_hashes() {
    let a = [1u8; 32];
    let b = [2u8; 32];
    assert_eq!(
        ctv_from_components(42_000, a, 999_999, b, 0).to_byte_array(),
        hex32("4ebee26238347fa12282b7cafe246bc53c7d7d46623d0ac529fa0092defdb5f7"),
    );
    assert_eq!(
        ctv_from_components(42_000, a, 999_999, b, 1).to_byte_array(),
        hex32("a40fe27c8abf7e5078fb0d89d06d749d34105a014f6184c0a4dd04f583441a6a"),
    );
    assert_eq!(
        ctv_from_components(42_000, a, 999_999, b, u32::MAX).to_byte_array(),
        hex32("37d3d06fb8844b91ca9c480716ef8821e9cd28e0abaf2214787596f009af6303"),
    );
}

#[test]
fn transaction_path_gives_the_known_hashes() {
    let a = [1u8; 32];
    let b = [2u8; 32];
    assert_eq!(
        ctv_from_transaction(42_000, a, 999_999, b, 0).to_byte_array(),
        hex32("4ebee26238347fa12282b7cafe246bc53c7d7d46623d0ac529fa0092defdb5f7"),
    );
    assert_eq!(
        ctv_from_transaction(42_000, a, 999_999, b, 1).to_byte_array(),
        hex32("a40fe27c8abf7e5078fb0d89d06d749d34105a014f6184c0a4dd04f583441a6a"),
    );
}

#[test]
fn repeated_calls_give_identical_bytes() {
    let a = [7u8; 32];
    let b = [9u8; 32];
    let first = ctv_from_components(5, a, 6, b, 1);
    let second = ctv_from_components(5, a, 6, b, 1);
    assert_eq!(first.to_byte_array(), second.to_byte_array());
    let third = ctv_from_transaction(5, a, 6, b, 1);
    let fourth = ctv_from_transaction(5, a, 6, b, 1);
    assert_eq!(third.to_byte_array(), fourth.to_byte_array());
}

#[test]
fn the_input_index_changes_the_hash() {
    let a = [1u8; 32];
    let b = [2u8; 32];
    assert_ne!(
        ctv_from_components(42_000, a, 999_999, b, 0),
        ctv_from_components(42_000, a, 999_999, b, 1),
    );
    assert_ne!(
        ctv_from_transaction(42_000, a, 999_999, b, 0),
        ctv_from_transaction(42_000, a, 999_999, b, 1),
    );
}

#[test]
fn amounts_and_keys_change_the_hash() {
    let a = [1u8; 32];
    let b = [2u8; 32];
    let base = ctv_from_components(42_000, a, 999_999, b, 0);
    assert_ne!(base, ctv_from_components(42_001, a, 999_999, b, 0));
    assert_ne!(base, ctv_from_components(42_000, a, 999_998, b, 0));
    assert_ne!(base, ctv_from_components(42_000, b, 999_999, a, 0));
    assert_ne!(base, ctv_from_components(999_999, a, 42_000, b, 0));
}

#[test]
fn template_hash_keeps_its_bytes_and_compares_by_them() {
    let mut bytes = [0u8; 32];
    for (at, byte) in bytes.iter_mut().enumerate() {
        *byte = at as u8;
    }
    let hash = TemplateHash::from_byte_array(bytes);
    assert_eq!(hash.to_byte_array(), bytes);
    assert_eq!(hash, TemplateHash::from_byte_array(bytes));
    let mut other = bytes;
    other[31] ^= 1;
    assert_ne!(hash, TemplateHash::from_byte_array(other));
    let mut early = bytes;
    early[0] ^= 0x80;
    assert_ne!(hash, TemplateHash::from_byte_array(early));
}

fn generator_key() -> [u8; 32] {
    hex32("79be667ef9dcbbac55a06295ce870b07029bfcdb2dce28d959f2815b16f81798")
}

fn doubled_generator_key() -> [u8; 32] {
    hex32("c6047f9441ed7d6d3045406e95c07cb85c778e4b8cef3ca7abac09b95c709ee5")
}

#[test]
fn components_path_with_a_zero_amount() {
    assert_eq!(
        ctv_from_components(0, generator_key(), 999_999, doubled_generator_key(), 0).to_byte_array(),
        hex32("c1184d27c394458136aec054e6946e516129650784500095f23b3e3158eecbcc"),
    );
}

#[test]
fn components_path_with_the_largest_amount() {
    assert_eq!(
        ctv_from_components(42_000, generator_key(), u64::MAX, doubled_generator_key(), 0)
            .to_byte_array(),
        hex32("8e97bed041b486cdf6f443141bf071695656dc72736d7420c9cb1f97c0733c93"),
    );
}

#[test]
fn transaction_path_at_the_second_input() {
    assert_eq!(
        ctv_from_transaction(42_000, generator_key(), 999_999, doubled_generator_key(), 1)
            .to_byte_array(),
        hex32("b7fa44666d0ee406b376a41a14e2e25e689a42e7eb787936d04140a7770a5478"),
    );
    assert_eq!(
        ctv_from_transaction(42_000, generator_key(), 999_999, doubled_generator_key(), 0)
            .to_byte_array(),
        hex32("2e095c244d38656c365eff8907e059bae7f7c2893efa27184c28e775d68d602c"),
    );
}

#[test]
fn transaction_path_with_both_boundary_amounts() {
    let hash = ctv_from_transaction(0, generator_key(), u64::MAX, doubled_generator_key(), 0);
    assert_eq!(
        hash.to_byte_array(),
        hex32("fe0c30f5e28839966970278826d43af3c3a6038035963465ca27b7390edf5381"),
    );
    assert_eq!(hash, ctv_from_components(0, generator_key(), u64::MAX, doubled_generator_key(), 0));
}

#[test]
fn the_template_hash_is_a_hash_of_a_hash() {
    let a = generator_key();
    let b = doubled_generator_key();
    let mut preimage = vec![3u8, 0, 0, 0, 0, 0, 0, 0, 2, 0, 0, 0];
    preimage.extend(sha256(&[0u8; 8]));
    preimage.extend([3u8, 0, 0, 0]);
    let mut outputs = vec![0x10u8, 0xa4, 0, 0, 0, 0, 0, 0, 0x22, 0x51, 0x20];
    outputs.extend(a);
    outputs.extend([0x3fu8, 0x42, 0x0f, 0, 0, 0, 0, 0, 0x22, 0x51, 0x20]);
    outputs.extend(b);
    outputs.extend([0u8, 0, 0, 0, 0, 0, 0, 0, 4, 0x51, 0x02, 0x4e, 0x73]);
    assert_eq!(outputs.len(), 99);
    preimage.extend(sha256(&outputs));
    preimage.extend([1u8, 0, 0, 0]);
    assert_eq!(preimage.len(), 84);
    let once = sha256(&preimage);
    let twice = sha256(&once);
    assert_eq!(ctv_from_components(42_000, a, 999_999, b, 1).to_byte_array(), twice);
    assert_eq!(ctv_from_transaction(42_000, a, 999_999, b, 1).to_byte_array(), twice);
    assert_ne!(ctv_from_components(42_000, a, 999_999, b, 1).to_byte_array(), once);
}
