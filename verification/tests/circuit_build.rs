//! The arithmetized cipher: building a real constraint system and checking
//! the values it computes against the reference cipher.

use aes_circuit::aes::encrypt_bytes;
use aes_circuit::{encrypt, synthesize_constraints, AesError};

fn nist_key() -> Vec<u8> {
    vec![
        0x00, 0x01, 0x02, 0x03, 0x04, 0x05, 0x06, 0x07, 0x08, 0x09, 0x0a, 0x0b, 0x0c, 0x0d, 0x0e,
        0x0f,
    ]
}

fn nist_plaintext() -> Vec<u8> {
    vec![
        0x00, 0x11, 0x22, 0x33, 0x44, 0x55, 0x66, 0x77, 0x88, 0x99, 0xaa, 0xbb, 0xcc, 0xdd, 0xee,
        0xff,
    ]
}

#[test]
fn circuit_computes_reference_ciphertext() {
    let (ciphertext, _cs) = encrypt(&nist_plaintext(), &nist_key()).unwrap();
    let expected = vec![
        0x69, 0xc4, 0xe0, 0xd8, 0x6a, 0x7b, 0x04, 0x30, 0xd8, 0xcd, 0xb7, 0x80, 0x70, 0xb4, 0xc5,
        0x5a,
    ];
    assert_eq!(ciphertext, expected);
    assert_eq!(ciphertext, encrypt_bytes(&nist_plaintext(), &nist_key()));
}

#[test]
fn unaligned_message_is_rejected() {
    let msg = vec![0u8; 15];
    assert!(matches!(encrypt(&msg, &nist_key()), Err(AesError::LengthMismatch)));
}

#[test]
fn empty_message_is_rejected() {
    assert!(matches!(encrypt(&Vec::new(), &nist_key()), Err(AesError::LengthMismatch)));
}

#[test]
fn short_key_is_rejected() {
    let key = vec![0u8; 15];
    assert!(matches!(encrypt(&nist_plaintext(), &key), Err(AesError::LengthMismatch)));
}

#[test]
fn setup_rejects_bad_lengths() {
    assert!(matches!(synthesize_constraints(0), Err(AesError::LengthMismatch)));
    assert!(matches!(synthesize_constraints(17), Err(AesError::LengthMismatch)));
}

#[test]
fn setup_accepts_one_block_length() {
    assert!(synthesize_constraints(16).is_ok());
}
