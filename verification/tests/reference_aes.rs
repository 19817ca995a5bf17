//! The reference cipher against the published AES-128 test vectors.

use aes_circuit::aes::{
    add_round_key, decrypt_bytes, derive_keys, encrypt_block, encrypt_bytes, inv_mix_columns,
    inv_shift_rows, inv_substitute_bytes, mix_columns, rcon, shift_rows, substitute_bytes, xtime,
};
use aes_circuit::sbox::{inv_sbox, sbox};

fn nist_key() -> Vec<u8> {
    vec![
        0x00, 0x01, 0x02, 0x03, 0x04, 0x05, 0x06, 0x07, 0x08, 0x09, 0x0a, 0x0b, 0x0c, 0x0d, 0x0e,
        0x0f,
    ]
}

fn nist_plaintext() -> Vec<u8> {
    vec![
        0x00, 0x11, 0x22, 0x33, 0x44, 0x55, 0x66, 0x77, 0x88, 0x99, 0xaa, 0xbb, 0xcc, 0xdd, 0xee,
        0xff,
    ]
}

fn nist_ciphertext() -> Vec<u8> {
    vec![
        0x69, 0xc4, 0xe0, 0xd8, 0x6a, 0x7b, 0x04, 0x30, 0xd8, 0xcd, 0xb7, 0x80, 0x70, 0xb4, 0xc5,
        0x5a,
    ]
}

fn fips_example_key() -> Vec<u8> {
    vec![
        0x2b, 0x7e, 0x15, 0x16, 0x28, 0xae, 0xd2, 0xa6, 0xab, 0xf7, 0x15, 0x88, 0x09, 0xcf, 0x4f,
        0x3c,
    ]
}

#[test]
fn sbox_known_entries() {
    assert_eq!(sbox(0x00), 0x63);
    assert_eq!(sbox(0x53), 0xed);
    assert_eq!(inv_sbox(0xed), 0x53);
    assert_eq!(inv_sbox(0x63), 0x00);
}

#[test]
fn sbox_round_trips_every_byte() {
    for b in 0..=255u8 {
        assert_eq!(inv_sbox(sbox(b)), b);
        assert_eq!(sbox(inv_sbox(b)), b);
    }
}

#[test]
fn xtime_known_values() {
    assert_eq!(xtime(0x01), 0x02);
    assert_eq!(xtime(0x80), 0x1b);
    assert_eq!(xtime(0x57), 0xae);
}

#[test]
fn rcon_sequence() {
    let expected = [0x01u8, 0x02, 0x04, 0x08, 0x10, 0x20, 0x40, 0x80, 0x1b, 0x36];
    for (i, e) in expected.iter().enumerate() {
        assert_eq!(rcon(i + 1), *e);
    }
}

#[test]
fn zero_key_first_round_key() {
    let zero_key = vec![0u8; 16];
    let keys = derive_keys(&zero_key);
    assert_eq!(keys.len(), 11);
    assert_eq!(keys[0], zero_key);
    let expected_rk1 = vec![
        0x62, 0x63, 0x63, 0x63, 0x62, 0x63, 0x63, 0x63, 0x62, 0x63, 0x63, 0x63, 0x62, 0x63, 0x63,
        0x63,
    ];
    assert_eq!(keys[1], expected_rk1);
}

#[test]
fn fips_example_last_round_key() {
    let keys = derive_keys(&fips_example_key());
    let expected_rk10 = vec![
        0xd0, 0x14, 0xf9, 0xa8, 0xc9, 0xee, 0x25, 0x89, 0xe1, 0x3f, 0x0c, 0xc8, 0xb6, 0x63, 0x0c,
        0xa6,
    ];
    assert_eq!(keys[10], expected_rk10);
}

#[test]
fn nist_single_block_vector() {
    let ct = encrypt_bytes(&nist_plaintext(), &nist_key());
    assert_eq!(ct, nist_ciphertext());
}

#[test]
fn fips_example_block_vector() {
    let pt = vec![
        0x32, 0x43, 0xf6, 0xa8, 0x88, 0x5a, 0x30, 0x8d, 0x31, 0x31, 0x98, 0xa2, 0xe0, 0x37, 0x07,
        0x34,
    ];
    let expected = vec![
        0x39, 0x25, 0x84, 0x1d, 0x02, 0xdc, 0x09, 0xfb, 0xdc, 0x11, 0x85, 0x97, 0x19, 0x6a, 0x0b,
        0x32,
    ];
    assert_eq!(encrypt_bytes(&pt, &fips_example_key()), expected);
}

#[test]
fn decrypt_undoes_encrypt() {
    let key = fips_example_key();
    let message: Vec<u8> = (0..32u8).map(|b| b.wrapping_mul(7).wrapping_add(3)).collect();
    let ct = encrypt_bytes(&message, &key);
    assert_eq!(decrypt_bytes(&ct, &key), message);
}

#[test]
fn decrypt_known_vector() {
    let pt = decrypt_bytes(&nist_ciphertext(), &nist_key());
    assert_eq!(pt, nist_plaintext());
}

#[test]
fn two_blocks_encrypt_independently() {
    let key = nist_key();
    let mut message = nist_plaintext();
    message.extend_from_slice(&nist_plaintext());
    let ct = encrypt_bytes(&message, &key);
    let block_ct = encrypt_block(&nist_plaintext(), &key);
    let mut expected = block_ct.clone();
    expected.extend_from_slice(&block_ct);
    assert_eq!(ct, expected);
    assert_eq!(ct.len(), 32);
}

#[test]
fn empty_message_encrypts_to_empty() {
    let ct = encrypt_bytes(&Vec::new(), &nist_key());
    assert!(ct.is_empty());
}

#[test]
fn round_transformations_invert() {
    let state: Vec<u8> = (0..16u8).map(|b| b.wrapping_mul(17).wrapping_add(5)).collect();
    assert_eq!(inv_shift_rows(&shift_rows(&state)), state);
    assert_eq!(inv_substitute_bytes(&substitute_bytes(&state)), state);
    assert_eq!(inv_mix_columns(&mix_columns(&state)), state);
    let key = fips_example_key();
    assert_eq!(add_round_key(&add_round_key(&state, &key), &key), state);
}

#[test]
fn mix_columns_known_column() {
    let mut state = vec![0xdb, 0x13, 0x53, 0x45];
    state.extend_from_slice(&[0xf2, 0x0a, 0x22, 0x5c]);
    state.extend_from_slice(&[0x01, 0x01, 0x01, 0x01]);
    state.extend_from_slice(&[0xc6, 0xc6, 0xc6, 0xc6]);
    let mixed = mix_columns(&state);
    assert_eq!(&mixed[0..4], &[0x8e, 0x4d, 0xa1, 0xbc]);
    assert_eq!(&mixed[4..8], &[0x9f, 0xdc, 0x58, 0x9d]);
    assert_eq!(&mixed[8..12], &[0x01, 0x01, 0x01, 0x01]);
    assert_eq!(&mixed[12..16], &[0xc6, 0xc6, 0xc6, 0xc6]);
}
