//! Trusted interface to the R1CS gadget layer.
//!
//! The circuit is built from byte variables and boolean variables of the
//! gadget layer (ark-r1cs-std over the BLS12-381 scalar field), allocated on
//! a shared constraint system (ark-relations). Verus cannot read those types,
//! so each is held in an opaque struct of this crate. Each wrapper below
//! makes exactly one call into the layer; its contract states, over the
//! uninterpreted value maps `byte_value` and `bool_value`, what the layer's
//! source shows about the returned gadget's assigned value.

use ark_bls12_381::Fr;
use ark_r1cs_std::alloc::AllocVar;
use ark_r1cs_std::boolean::Boolean;
use ark_r1cs_std::eq::EqGadget;
use ark_r1cs_std::select::CondSelectGadget;
use ark_r1cs_std::uint8::UInt8;
use ark_r1cs_std::R1CSVar;
use ark_relations::r1cs::{ConstraintSystem, ConstraintSystemRef, SynthesisError};
use vstd::prelude::*;

verus! {

/// A byte variable of the circuit: eight boolean variables read little-endian.
#[verifier::external_body]
pub struct ByteVar {
    pub inner: UInt8<Fr>,
}

/// A boolean variable of the circuit.
#[verifier::external_body]
pub struct BoolVar {
    pub inner: Boolean<Fr>,
}

/// A shared handle to the constraint system being built; the single-owner
/// handle that is later handed to the proof-system backend.
#[verifier::external_body]
pub struct SystemRef {
    pub inner: ConstraintSystemRef<Fr>,
}

/// An error of the gadget layer (a failed allocation or a missing value).
#[verifier::external_body]
pub struct GadgetError {
    pub inner: SynthesisError,
}

/// The byte a byte variable holds: the little-endian reading of the values
/// of its eight boolean variables.
pub uninterp spec fn byte_value(g: ByteVar) -> u8;

/// The truth value a boolean variable holds.
pub uninterp spec fn bool_value(b: BoolVar) -> bool;

/// Relies on ark-relations' `ConstraintSystem::new_ref`: a fresh, empty,
/// shared handle to a constraint system under construction.
#[verifier::external_body]
pub fn new_constraint_system() -> SystemRef {
    SystemRef { inner: ConstraintSystem::<Fr>::new_ref() }
}

/// Relies on `UInt8::new_witness` of ark-r1cs-std: allocates eight witness
/// booleans for the byte's bits, so the returned gadget holds `value`.
#[verifier::external_body]
pub(crate) fn new_witness_byte(cs: &SystemRef, value: u8) -> (r: Result<ByteVar, GadgetError>)
    ensures
        r is Ok ==> byte_value(r->Ok_0) == value,
{
    match UInt8::new_witness(cs.inner.clone(), || Ok(value)) {
        Ok(g) => Ok(ByteVar { inner: g }),
        Err(e) => Err(GadgetError { inner: e }),
    }
}

/// Relies on `UInt8::constant` of ark-r1cs-std: a gadget of constant booleans
/// holding `value`; no variables or constraints are created.
#[verifier::external_body]
pub(crate) fn constant_byte(value: u8) -> (r: ByteVar)
    ensures
        byte_value(r) == value,
{
    ByteVar { inner: UInt8::constant(value) }
}

/// Relies on `UInt8::clone` (derived): the clone holds the same bits, hence
/// the same byte.
#[verifier::external_body]
pub(crate) fn copy_byte(g: &ByteVar) -> (r: ByteVar)
    ensures
        byte_value(r) == byte_value(*g),
{
    ByteVar { inner: g.inner.clone() }
}

/// Relies on `UInt8::xor` of ark-r1cs-std: the result's bits are the XOR
/// gadgets of the operands' bits, so it holds the XOR of their bytes.
#[verifier::external_body]
pub(crate) fn xor_byte(a: &ByteVar, b: &ByteVar) -> (r: Result<ByteVar, GadgetError>)
    ensures
        r is Ok ==> byte_value(r->Ok_0) == byte_value(*a) ^ byte_value(*b),
{
    match a.inner.xor(&b.inner) {
        Ok(g) => Ok(ByteVar { inner: g }),
        Err(e) => Err(GadgetError { inner: e }),
    }
}

/// Relies on `EqGadget::is_eq` for `UInt8`: the returned boolean holds
/// whether the operands' bits, hence their bytes, are equal.
#[verifier::external_body]
pub(crate) fn is_eq_byte(a: &ByteVar, b: &ByteVar) -> (r: Result<BoolVar, GadgetError>)
    ensures
        r is Ok ==> bool_value(r->Ok_0) == (byte_value(*a) == byte_value(*b)),
{
    match a.inner.is_eq(&b.inner) {
        Ok(g) => Ok(BoolVar { inner: g }),
        Err(e) => Err(GadgetError { inner: e }),
    }
}

/// Relies on `CondSelectGadget::conditionally_select` for `UInt8`: the result
/// holds the first operand's byte when the condition holds, else the second's.
#[verifier::external_body]
pub(crate) fn select_byte(cond: &BoolVar, t: &ByteVar, f: &ByteVar) -> (r: Result<
    ByteVar,
    GadgetError,
>)
    ensures
        r is Ok ==> byte_value(r->Ok_0) == (if bool_value(*cond) {
            byte_value(*t)
        } else {
            byte_value(*f)
        }),
{
    match UInt8::conditionally_select(&cond.inner, &t.inner, &f.inner) {
        Ok(g) => Ok(ByteVar { inner: g }),
        Err(e) => Err(GadgetError { inner: e }),
    }
}

/// Relies on `R1CSVar::value` for `UInt8`: when every bit has an assignment,
/// returns the byte they encode.
#[verifier::external_body]
pub(crate) fn byte_gadget_value(g: &ByteVar) -> (r: Result<u8, GadgetError>)
    ensures
        r is Ok ==> r->Ok_0 == byte_value(*g),
{
    match g.inner.value() {
        Ok(v) => Ok(v),
        Err(e) => Err(GadgetError { inner: e }),
    }
}

} // verus!
