//! Proving AES-128 encryption in zero knowledge: the cipher arithmetized as
//! a rank-1 constraint system.
//!
//! [`aes`] holds the reference cipher — a mathematical model as spec
//! functions and a verified executable implementation. [`aes_circuit`] holds
//! the arithmetization: the same cipher expressed over circuit byte
//! variables, verified to compute the reference cipher's values while wiring
//! the corresponding constraints. [`gadgets`] is the trusted boundary to the
//! constraint-system runtime. The functions below assemble one circuit
//! instance per call and hand its single-owner handle to the caller, who
//! passes it to a SNARK backend for key synthesis or proof generation.

pub mod aes;
pub mod aes_circuit;
pub mod gadgets;
pub mod sbox;

use crate::aes::spec_encrypt;
use crate::aes_circuit::{encrypt_and_generate_constraints, values_of};
use crate::gadgets::{byte_value, new_constraint_system, new_witness_byte, ByteVar, SystemRef};
use vstd::prelude::*;

verus! {

/// What can go wrong while building a circuit instance.
#[derive(Clone, Copy, Debug, PartialEq, Eq, Structural)]
pub enum AesError {
    /// The gadget layer failed to allocate a variable or read a value back.
    Allocation,
    /// The message is not a positive multiple of 16 bytes, or the key is not
    /// 16 bytes.
    LengthMismatch,
}

/// Allocate every byte of `bytes` as a private witness on `cs`.
fn allocate_witness_bytes(cs: &SystemRef, bytes: &Vec<u8>) -> (r: Result<Vec<ByteVar>, AesError>)
    ensures
        r is Ok ==> values_of(r->Ok_0@) == bytes@,
        r is Err ==> r->Err_0 == AesError::Allocation,
{
    let mut out: Vec<ByteVar> = Vec::new();
    let mut i: usize = 0;
    while i < bytes.len()
        invariant
            i <= bytes@.len(),
            out@.len() == i,
            forall|j: int| 0 <= j < i ==> byte_value(#[trigger] out@[j]) == bytes@[j],
        decreases bytes@.len() - i,
    {
        let v = match new_witness_byte(cs, bytes[i]) {
            Ok(v) => v,
            Err(_) => {
                return Err(AesError::Allocation);
            },
        };
        out.push(v);
        i += 1;
    }
    assert(values_of(out@) =~= bytes@);
    Ok(out)
}

/// Build one encryption circuit: witness the message and the 16-byte secret
/// key, constrain the full AES-128 computation, and return the computed
/// ciphertext together with the finished constraint-system handle, ready for
/// the proof-system backend.
pub fn encrypt(message: &Vec<u8>, secret_key: &Vec<u8>) -> (r: Result<
    (Vec<u8>, SystemRef),
    AesError,
>)
    ensures
        r is Ok ==> r->Ok_0.0@ == spec_encrypt(message@, secret_key@),
        r is Err && r->Err_0 == AesError::LengthMismatch <==> (message@.len() % 16 != 0
            || message@.len() == 0 || secret_key@.len() != 16),
{
    if message.len() == 0 || message.len() % 16 != 0 || secret_key.len() != 16 {
        return Err(AesError::LengthMismatch);
    }
    let cs = new_constraint_system();
    let message_vars = allocate_witness_bytes(&cs, message)?;
    let key_vars = allocate_witness_bytes(&cs, secret_key)?;
    let ciphertext = encrypt_and_generate_constraints(&message_vars, &key_vars)?;
    Ok((ciphertext, cs))
}

/// Build the circuit that fixes the topology for one message length, with an
/// all-zero default assignment: the constraint shape, not the values, is what
/// a backend's key synthesis consumes.
pub fn synthesize_constraints(plaintext_length: usize) -> (r: Result<SystemRef, AesError>)
    ensures
        r is Err && r->Err_0 == AesError::LengthMismatch <==> (plaintext_length % 16 != 0
            || plaintext_length == 0),
{
    let mut zero_message: Vec<u8> = Vec::new();
    let mut i: usize = 0;
    while i < plaintext_length
        invariant
            i <= plaintext_length,
            zero_message@.len() == i,
        decreases plaintext_length - i,
    {
        zero_message.push(0);
        i += 1;
    }
    let mut zero_key: Vec<u8> = Vec::new();
    let mut j: usize = 0;
    while j < 16
        invariant
            j <= 16,
            zero_key@.len() == j,
        decreases 16 - j,
    {
        zero_key.push(0);
        j += 1;
    }
    match encrypt(&zero_message, &zero_key) {
        Ok((_, cs)) => Ok(cs),
        Err(e) => Err(e),
    }
}

} // verus!
