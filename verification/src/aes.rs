//! The reference AES-128 block cipher: a mathematical model as spec functions,
//! and a verified executable implementation proved against that model.
//!
//! The state is kept flat: byte `r + 4*c` of a 16-byte block is row `r`,
//! column `c` of the 4x4 AES state, as in the cipher's standard description.

use crate::sbox::{inv_sbox, lemma_sbox_inverse, sbox, spec_inv_sbox, spec_sbox};
use vstd::prelude::*;

verus! {

pub const BLOCK_SIZE: usize = 16;
pub const KEY_SIZE: usize = 16;
pub const ROUND_KEY_COUNT: usize = 11;

// ---------------------------------------------------------------------------
// GF(2^8) arithmetic
// ---------------------------------------------------------------------------

/// Doubling in GF(2^8) modulo the AES polynomial x^8 + x^4 + x^3 + x + 1.
#[verifier::opaque]
pub closed spec fn spec_xtime(b: u8) -> u8 {
    (b << 1u8) ^ (if b & 0x80 == 0x80 { 0x1b } else { 0 })
}

/// Multiplication by 2 in GF(2^8).
#[verifier::opaque]
pub closed spec fn spec_mul2(b: u8) -> u8 {
    spec_xtime(b)
}

/// Multiplication by 3 in GF(2^8).
#[verifier::opaque]
pub closed spec fn spec_mul3(b: u8) -> u8 {
    spec_xtime(b) ^ b
}

/// Multiplication by 9 in GF(2^8).
#[verifier::opaque]
pub closed spec fn spec_mul9(b: u8) -> u8 {
    spec_xtime(spec_xtime(spec_xtime(b))) ^ b
}

/// Multiplication by 11 in GF(2^8).
#[verifier::opaque]
pub closed spec fn spec_mul11(b: u8) -> u8 {
    spec_xtime(spec_xtime(spec_xtime(b))) ^ spec_xtime(b) ^ b
}

/// Multiplication by 13 in GF(2^8).
#[verifier::opaque]
pub closed spec fn spec_mul13(b: u8) -> u8 {
    spec_xtime(spec_xtime(spec_xtime(b))) ^ spec_xtime(spec_xtime(b)) ^ b
}

/// Multiplication by 14 in GF(2^8).
#[verifier::opaque]
pub closed spec fn spec_mul14(b: u8) -> u8 {
    spec_xtime(spec_xtime(spec_xtime(b))) ^ spec_xtime(spec_xtime(b)) ^ spec_xtime(b)
}

/// How the MixColumns coefficients read in terms of doubling.
pub proof fn lemma_mul_defs(b: u8)
    ensures
        spec_mul2(b) == spec_xtime(b),
        spec_mul3(b) == spec_xtime(b) ^ b,
{
    reveal(spec_mul2);
    reveal(spec_mul3);
}

pub fn xtime(b: u8) -> (r: u8)
    ensures
        r == spec_xtime(b),
{
    proof {
        reveal(spec_xtime);
    }
    (b << 1u8) ^ (if b & 0x80 == 0x80 { 0x1b } else { 0 })
}

// ---------------------------------------------------------------------------
// The four state transformations
// ---------------------------------------------------------------------------

/// SubBytes: every state byte through the S-box.
pub open spec fn spec_sub_bytes(state: Seq<u8>) -> Seq<u8> {
    state.map_values(|b: u8| spec_sbox(b))
}

/// Inverse of SubBytes.
pub open spec fn spec_inv_sub_bytes(state: Seq<u8>) -> Seq<u8> {
    state.map_values(|b: u8| spec_inv_sbox(b))
}

/// ShiftRows: row r of the 4x4 state rotated left by r positions.
pub open spec fn spec_shift_rows(s: Seq<u8>) -> Seq<u8> {
    seq![
        s[0], s[5], s[10], s[15],
        s[4], s[9], s[14], s[3],
        s[8], s[13], s[2], s[7],
        s[12], s[1], s[6], s[11],
    ]
}

/// Inverse of ShiftRows: row r rotated right by r positions.
pub open spec fn spec_inv_shift_rows(s: Seq<u8>) -> Seq<u8> {
    seq![
        s[0], s[13], s[10], s[7],
        s[4], s[1], s[14], s[11],
        s[8], s[5], s[2], s[15],
        s[12], s[9], s[6], s[3],
    ]
}

/// MixColumns on the column at `base`: the fixed GF(2^8) circulant
/// matrix (2 3 1 1) applied to the four column bytes.
pub open spec fn spec_mix_column(s: Seq<u8>, base: int) -> Seq<u8> {
    let a0 = s[base];
    let a1 = s[base + 1];
    let a2 = s[base + 2];
    let a3 = s[base + 3];
    seq![
        spec_mul2(a0) ^ spec_mul3(a1) ^ a2 ^ a3,
        a0 ^ spec_mul2(a1) ^ spec_mul3(a2) ^ a3,
        a0 ^ a1 ^ spec_mul2(a2) ^ spec_mul3(a3),
        spec_mul3(a0) ^ a1 ^ a2 ^ spec_mul2(a3),
    ]
}

/// MixColumns over the whole 16-byte state.
pub open spec fn spec_mix_columns(s: Seq<u8>) -> Seq<u8> {
    spec_mix_column(s, 0) + spec_mix_column(s, 4) + spec_mix_column(s, 8) + spec_mix_column(
        s,
        12,
    )
}

/// Inverse of MixColumns on one column: the circulant matrix (14 11 13 9).
pub open spec fn spec_inv_mix_column(s: Seq<u8>, base: int) -> Seq<u8> {
    let a0 = s[base];
    let a1 = s[base + 1];
    let a2 = s[base + 2];
    let a3 = s[base + 3];
    seq![
        spec_mul14(a0) ^ spec_mul11(a1) ^ spec_mul13(a2) ^ spec_mul9(a3),
        spec_mul9(a0) ^ spec_mul14(a1) ^ spec_mul11(a2) ^ spec_mul13(a3),
        spec_mul13(a0) ^ spec_mul9(a1) ^ spec_mul14(a2) ^ spec_mul11(a3),
        spec_mul11(a0) ^ spec_mul13(a1) ^ spec_mul9(a2) ^ spec_mul14(a3),
    ]
}

/// Inverse of MixColumns over the whole state.
pub open spec fn spec_inv_mix_columns(s: Seq<u8>) -> Seq<u8> {
    spec_inv_mix_column(s, 0) + spec_inv_mix_column(s, 4) + spec_inv_mix_column(s, 8)
        + spec_inv_mix_column(s, 12)
}

/// AddRoundKey: byte-wise XOR of state and round key.
pub open spec fn spec_add_round_key(state: Seq<u8>, key: Seq<u8>) -> Seq<u8> {
    Seq::new(state.len(), |i: int| state[i] ^ key[i])
}

// ---------------------------------------------------------------------------
// Key schedule
// ---------------------------------------------------------------------------

/// The AES round constant for round i: 1 for round 1, doubled each round.
pub open spec fn spec_rcon(i: int) -> u8
    decreases i,
{
    if i <= 1 {
        1
    } else {
        spec_xtime(spec_rcon(i - 1))
    }
}

/// One step of the AES-128 key expansion: the next 16-byte round key from
/// the previous one and the round constant `rc`.
pub open spec fn spec_next_round_key(prev: Seq<u8>, rc: u8) -> Seq<u8> {
    let t0 = spec_sbox(prev[13]) ^ rc;
    let t1 = spec_sbox(prev[14]);
    let t2 = spec_sbox(prev[15]);
    let t3 = spec_sbox(prev[12]);
    let b0 = prev[0] ^ t0;
    let b1 = prev[1] ^ t1;
    let b2 = prev[2] ^ t2;
    let b3 = prev[3] ^ t3;
    let b4 = prev[4] ^ b0;
    let b5 = prev[5] ^ b1;
    let b6 = prev[6] ^ b2;
    let b7 = prev[7] ^ b3;
    let b8 = prev[8] ^ b4;
    let b9 = prev[9] ^ b5;
    let b10 = prev[10] ^ b6;
    let b11 = prev[11] ^ b7;
    let b12 = prev[12] ^ b8;
    let b13 = prev[13] ^ b9;
    let b14 = prev[14] ^ b10;
    let b15 = prev[15] ^ b11;
    seq![b0, b1, b2, b3, b4, b5, b6, b7, b8, b9, b10, b11, b12, b13, b14, b15]
}

/// Round key i of the AES-128 key expansion; round key 0 is the cipher key.
pub open spec fn spec_round_key(key: Seq<u8>, i: int) -> Seq<u8>
    decreases i,
{
    if i <= 0 {
        key
    } else {
        spec_next_round_key(spec_round_key(key, i - 1), spec_rcon(i))
    }
}

/// Every round key of a 16-byte cipher key has 16 bytes.
pub proof fn lemma_round_key_len(key: Seq<u8>, i: int)
    requires
        key.len() == 16,
    ensures
        spec_round_key(key, i).len() == 16,
    decreases i,
{
    if i > 0 {
        lemma_round_key_len(key, i - 1);
    }
}

// ---------------------------------------------------------------------------
// The round pipeline
// ---------------------------------------------------------------------------

/// One AES encryption round: SubBytes, ShiftRows, MixColumns (omitted on the
/// last round), AddRoundKey.
pub open spec fn spec_round(state: Seq<u8>, rk: Seq<u8>, last: bool) -> Seq<u8> {
    if last {
        spec_add_round_key(spec_shift_rows(spec_sub_bytes(state)), rk)
    } else {
        spec_add_round_key(spec_mix_columns(spec_shift_rows(spec_sub_bytes(state))), rk)
    }
}

/// The state after rounds 1..=r applied to `state`, with round keys derived
/// from `key`; round 10 is the final round without MixColumns.
pub open spec fn spec_rounds(state: Seq<u8>, key: Seq<u8>, r: int) -> Seq<u8>
    decreases r,
{
    if r <= 0 {
        state
    } else {
        spec_round(spec_rounds(state, key, r - 1), spec_round_key(key, r), r == 10)
    }
}

/// AES-128 encryption of one 16-byte block.
pub open spec fn spec_encrypt_block(block: Seq<u8>, key: Seq<u8>) -> Seq<u8> {
    spec_rounds(spec_add_round_key(block, key), key, 10)
}

/// The inverse of one encryption round.
pub open spec fn spec_inv_round(state: Seq<u8>, rk: Seq<u8>, last: bool) -> Seq<u8> {
    if last {
        spec_inv_sub_bytes(spec_inv_shift_rows(spec_add_round_key(state, rk)))
    } else {
        spec_inv_sub_bytes(spec_inv_shift_rows(spec_inv_mix_columns(spec_add_round_key(state, rk))))
    }
}

/// The state after undoing the last r rounds: undoing starts at round 10,
/// so after r steps rounds 11-r ..= 10 are undone.
pub open spec fn spec_inv_rounds(state: Seq<u8>, key: Seq<u8>, r: int) -> Seq<u8>
    decreases r,
{
    if r <= 0 {
        state
    } else {
        spec_inv_round(spec_inv_rounds(state, key, r - 1), spec_round_key(key, 11 - r), r == 1)
    }
}

/// AES-128 decryption of one 16-byte block.
pub open spec fn spec_decrypt_block(block: Seq<u8>, key: Seq<u8>) -> Seq<u8> {
    spec_add_round_key(spec_inv_rounds(block, key, 10), key)
}

// ---------------------------------------------------------------------------
// Whole messages: consecutive 16-byte blocks, each encrypted independently
// ---------------------------------------------------------------------------

/// AES-128 over a whole message: each 16-byte block is encrypted on its own,
/// with no chaining between blocks.
pub open spec fn spec_encrypt(message: Seq<u8>, key: Seq<u8>) -> Seq<u8> {
    Seq::new(
        message.len(),
        |i: int| spec_encrypt_block(message.subrange(i / 16 * 16, i / 16 * 16 + 16), key)[i % 16],
    )
}

/// Block-wise AES-128 decryption of a whole ciphertext.
pub open spec fn spec_decrypt(ciphertext: Seq<u8>, key: Seq<u8>) -> Seq<u8> {
    Seq::new(
        ciphertext.len(),
        |i: int| spec_decrypt_block(ciphertext.subrange(i / 16 * 16, i / 16 * 16 + 16), key)[
            i % 16
        ],
    )
}

// ---------------------------------------------------------------------------
// Verified executable implementation
// ---------------------------------------------------------------------------

/// SubBytes over a state of any length.
pub fn substitute_bytes(state: &Vec<u8>) -> (r: Vec<u8>)
    ensures
        r@ == spec_sub_bytes(state@),
{
    let mut r: Vec<u8> = Vec::new();
    let mut i: usize = 0;
    while i < state.len()
        invariant
            i <= state@.len(),
            r@.len() == i,
            forall|j: int| 0 <= j < i ==> r@[j] == spec_sbox(state@[j]),
        decreases state@.len() - i,
    {
        r.push(sbox(state[i]));
        i += 1;
    }
    assert(r@ =~= spec_sub_bytes(state@));
    r
}

/// Inverse SubBytes over a state of any length.
pub fn inv_substitute_bytes(state: &Vec<u8>) -> (r: Vec<u8>)
    ensures
        r@ == spec_inv_sub_bytes(state@),
{
    let mut r: Vec<u8> = Vec::new();
    let mut i: usize = 0;
    while i < state.len()
        invariant
            i <= state@.len(),
            r@.len() == i,
            forall|j: int| 0 <= j < i ==> r@[j] == spec_inv_sbox(state@[j]),
        decreases state@.len() - i,
    {
        r.push(inv_sbox(state[i]));
        i += 1;
    }
    assert(r@ =~= spec_inv_sub_bytes(state@));
    r
}

/// ShiftRows on one 16-byte block.
pub fn shift_rows(s: &Vec<u8>) -> (r: Vec<u8>)
    requires
        s@.len() == 16,
    ensures
        r@ == spec_shift_rows(s@),
{
    let mut r: Vec<u8> = Vec::new();
    r.push(s[0]);
    r.push(s[5]);
    r.push(s[10]);
    r.push(s[15]);
    r.push(s[4]);
    r.push(s[9]);
    r.push(s[14]);
    r.push(s[3]);
    r.push(s[8]);
    r.push(s[13]);
    r.push(s[2]);
    r.push(s[7]);
    r.push(s[12]);
    r.push(s[1]);
    r.push(s[6]);
    r.push(s[11]);
    assert(r@ =~= spec_shift_rows(s@));
    r
}

/// Inverse ShiftRows on one 16-byte block.
pub fn inv_shift_rows(s: &Vec<u8>) -> (r: Vec<u8>)
    requires
        s@.len() == 16,
    ensures
        r@ == spec_inv_shift_rows(s@),
{
    let mut r: Vec<u8> = Vec::new();
    r.push(s[0]);
    r.push(s[13]);
    r.push(s[10]);
    r.push(s[7]);
    r.push(s[4]);
    r.push(s[1]);
    r.push(s[14]);
    r.push(s[11]);
    r.push(s[8]);
    r.push(s[5]);
    r.push(s[2]);
    r.push(s[15]);
    r.push(s[12]);
    r.push(s[9]);
    r.push(s[6]);
    r.push(s[3]);
    assert(r@ =~= spec_inv_shift_rows(s@));
    r
}

/// MixColumns on one 16-byte block.
pub fn mix_columns(s: &Vec<u8>) -> (r: Vec<u8>)
    requires
        s@.len() == 16,
    ensures
        r@ == spec_mix_columns(s@),
{
    let mut r: Vec<u8> = Vec::new();
    let mut c: usize = 0;
    while c < 4
        invariant
            c <= 4,
            s@.len() == 16,
            r@.len() == 4 * c,
            r@ == spec_mix_columns_upto(s@, c as int),
        decreases 4 - c,
    {
        let a0 = s[4 * c];
        let a1 = s[4 * c + 1];
        let a2 = s[4 * c + 2];
        let a3 = s[4 * c + 3];
        proof {
            reveal(spec_mul2);
            reveal(spec_mul3);
        }
        r.push(xtime(a0) ^ (xtime(a1) ^ a1) ^ a2 ^ a3);
        r.push(a0 ^ xtime(a1) ^ (xtime(a2) ^ a2) ^ a3);
        r.push(a0 ^ a1 ^ xtime(a2) ^ (xtime(a3) ^ a3));
        r.push((xtime(a0) ^ a0) ^ a1 ^ a2 ^ xtime(a3));
        assert(r@ =~= spec_mix_columns_upto(s@, c as int) + spec_mix_column(s@, 4 * c as int));
        c += 1;
    }
    proof {
        reveal_with_fuel(spec_mix_columns_upto, 5);
    }
    assert(r@ =~= spec_mix_columns(s@));
    r
}

/// MixColumns restricted to the first c columns, as a loop's way-point.
pub open spec fn spec_mix_columns_upto(s: Seq<u8>, c: int) -> Seq<u8>
    decreases c,
{
    if c <= 0 {
        Seq::empty()
    } else {
        spec_mix_columns_upto(s, c - 1) + spec_mix_column(s, 4 * (c - 1))
    }
}

/// Inverse MixColumns on one 16-byte block.
pub fn inv_mix_columns(s: &Vec<u8>) -> (r: Vec<u8>)
    requires
        s@.len() == 16,
    ensures
        r@ == spec_inv_mix_columns(s@),
{
    let mut r: Vec<u8> = Vec::new();
    let mut c: usize = 0;
    while c < 4
        invariant
            c <= 4,
            s@.len() == 16,
            r@.len() == 4 * c,
            r@ == spec_inv_mix_columns_upto(s@, c as int),
        decreases 4 - c,
    {
        let a0 = s[4 * c];
        let a1 = s[4 * c + 1];
        let a2 = s[4 * c + 2];
        let a3 = s[4 * c + 3];
        proof {
            reveal(spec_mul9);
            reveal(spec_mul11);
            reveal(spec_mul13);
            reveal(spec_mul14);
        }
        let m2_0 = xtime(a0);
        let m4_0 = xtime(m2_0);
        let m8_0 = xtime(m4_0);
        let m2_1 = xtime(a1);
        let m4_1 = xtime(m2_1);
        let m8_1 = xtime(m4_1);
        let m2_2 = xtime(a2);
        let m4_2 = xtime(m2_2);
        let m8_2 = xtime(m4_2);
        let m2_3 = xtime(a3);
        let m4_3 = xtime(m2_3);
        let m8_3 = xtime(m4_3);
        let e0 = m8_0 ^ m4_0 ^ m2_0;
        let b0 = m8_0 ^ m2_0 ^ a0;
        let d0 = m8_0 ^ m4_0 ^ a0;
        let n0 = m8_0 ^ a0;
        let e1 = m8_1 ^ m4_1 ^ m2_1;
        let b1 = m8_1 ^ m2_1 ^ a1;
        let d1 = m8_1 ^ m4_1 ^ a1;
        let n1 = m8_1 ^ a1;
        let e2 = m8_2 ^ m4_2 ^ m2_2;
        let b2 = m8_2 ^ m2_2 ^ a2;
        let d2 = m8_2 ^ m4_2 ^ a2;
        let n2 = m8_2 ^ a2;
        let e3 = m8_3 ^ m4_3 ^ m2_3;
        let b3 = m8_3 ^ m2_3 ^ a3;
        let d3 = m8_3 ^ m4_3 ^ a3;
        let n3 = m8_3 ^ a3;
        r.push(e0 ^ b1 ^ d2 ^ n3);
        r.push(n0 ^ e1 ^ b2 ^ d3);
        r.push(d0 ^ n1 ^ e2 ^ b3);
        r.push(b0 ^ d1 ^ n2 ^ e3);
        assert(r@ =~= spec_inv_mix_columns_upto(s@, c as int) + spec_inv_mix_column(
            s@,
            4 * c as int,
        ));
        c += 1;
    }
    proof {
        reveal_with_fuel(spec_inv_mix_columns_upto, 5);
    }
    assert(r@ =~= spec_inv_mix_columns(s@));
    r
}

/// Inverse MixColumns restricted to the first c columns.
pub open spec fn spec_inv_mix_columns_upto(s: Seq<u8>, c: int) -> Seq<u8>
    decreases c,
{
    if c <= 0 {
        Seq::empty()
    } else {
        spec_inv_mix_columns_upto(s, c - 1) + spec_inv_mix_column(s, 4 * (c - 1))
    }
}

/// AddRoundKey: XOR the state with a round key of the same length.
pub fn add_round_key(state: &Vec<u8>, key: &Vec<u8>) -> (r: Vec<u8>)
    requires
        state@.len() == key@.len(),
    ensures
        r@ == spec_add_round_key(state@, key@),
{
    let mut r: Vec<u8> = Vec::new();
    let mut i: usize = 0;
    while i < state.len()
        invariant
            i <= state@.len(),
            state@.len() == key@.len(),
            r@.len() == i,
            forall|j: int| 0 <= j < i ==> r@[j] == (state@[j] ^ key@[j]),
        decreases state@.len() - i,
    {
        r.push(state[i] ^ key[i]);
        i += 1;
    }
    assert(r@ =~= spec_add_round_key(state@, key@));
    r
}

/// The round constant of round i.
pub fn rcon(i: usize) -> (r: u8)
    requires
        1 <= i <= 10,
    ensures
        r == spec_rcon(i as int),
{
    let mut r: u8 = 1;
    let mut j: usize = 1;
    while j < i
        invariant
            1 <= j <= i,
            r == spec_rcon(j as int),
        decreases i - j,
    {
        r = xtime(r);
        j += 1;
    }
    r
}

/// The AES-128 key expansion: the 11 round keys of a 16-byte cipher key.
pub fn derive_keys(secret_key: &Vec<u8>) -> (r: Vec<Vec<u8>>)
    requires
        secret_key@.len() == 16,
    ensures
        r@.len() == 11,
        forall|i: int| 0 <= i < 11 ==> #[trigger] r@[i]@ == spec_round_key(secret_key@, i),
{
    let mut r: Vec<Vec<u8>> = Vec::new();
    r.push(secret_key.clone());
    let mut i: usize = 1;
    while i <= 10
        invariant
            1 <= i <= 11,
            secret_key@.len() == 16,
            r@.len() == i,
            forall|j: int| 0 <= j < i ==> #[trigger] r@[j]@ == spec_round_key(secret_key@, j),
        decreases 11 - i,
    {
        proof {
            lemma_round_key_len(secret_key@, i - 1 as int);
        }
        let prev = &r[i - 1];
        let rc = rcon(i);
        let t0 = sbox(prev[13]) ^ rc;
        let t1 = sbox(prev[14]);
        let t2 = sbox(prev[15]);
        let t3 = sbox(prev[12]);
        let mut next: Vec<u8> = Vec::new();
        next.push(prev[0] ^ t0);
        next.push(prev[1] ^ t1);
        next.push(prev[2] ^ t2);
        next.push(prev[3] ^ t3);
        next.push(prev[4] ^ next[0]);
        next.push(prev[5] ^ next[1]);
        next.push(prev[6] ^ next[2]);
        next.push(prev[7] ^ next[3]);
        next.push(prev[8] ^ next[4]);
        next.push(prev[9] ^ next[5]);
        next.push(prev[10] ^ next[6]);
        next.push(prev[11] ^ next[7]);
        next.push(prev[12] ^ next[8]);
        next.push(prev[13] ^ next[9]);
        next.push(prev[14] ^ next[10]);
        next.push(prev[15] ^ next[11]);
        assert(next@ =~= spec_next_round_key(r@[i - 1 as int]@, spec_rcon(i as int)));
        r.push(next);
        i += 1;
    }
    r
}

/// AES-128 encryption of one 16-byte block with a 16-byte key.
pub fn encrypt_block(block: &Vec<u8>, secret_key: &Vec<u8>) -> (r: Vec<u8>)
    requires
        block@.len() == 16,
        secret_key@.len() == 16,
    ensures
        r@ == spec_encrypt_block(block@, secret_key@),
{
    let round_keys = derive_keys(secret_key);
    let mut state = add_round_key(block, secret_key);
    let mut round: usize = 1;
    while round <= 10
        invariant
            1 <= round <= 11,
            block@.len() == 16,
            secret_key@.len() == 16,
            round_keys@.len() == 11,
            forall|i: int| 0 <= i < 11 ==> #[trigger] round_keys@[i]@ == spec_round_key(
                secret_key@,
                i,
            ),
            state@ == spec_rounds(spec_add_round_key(block@, secret_key@), secret_key@, round - 1),
            state@.len() == 16,
        decreases 11 - round,
    {
        proof {
            lemma_round_key_len(secret_key@, round as int);
        }
        let after_sub = substitute_bytes(&state);
        let after_shift = shift_rows(&after_sub);
        if round < 10 {
            let after_mix = mix_columns(&after_shift);
            state = add_round_key(&after_mix, &round_keys[round]);
        } else {
            state = add_round_key(&after_shift, &round_keys[round]);
        }
        round += 1;
    }
    state
}

/// One inverse round: AddRoundKey, then undo MixColumns (except for the
/// round that never mixed), ShiftRows and SubBytes.
#[verifier::spinoff_prover]
pub fn inv_round_step(state: &Vec<u8>, rk: &Vec<u8>, last: bool) -> (r: Vec<u8>)
    requires
        state@.len() == 16,
        rk@.len() == 16,
    ensures
        r@ == spec_inv_round(state@, rk@, last),
        r@.len() == 16,
{
    let keyed = add_round_key(state, rk);
    if last {
        inv_substitute_bytes(&inv_shift_rows(&keyed))
    } else {
        inv_substitute_bytes(&inv_shift_rows(&inv_mix_columns(&keyed)))
    }
}

/// AES-128 decryption of one 16-byte block with a 16-byte key.
#[verifier::spinoff_prover]
pub fn decrypt_block(block: &Vec<u8>, secret_key: &Vec<u8>) -> (r: Vec<u8>)
    requires
        block@.len() == 16,
        secret_key@.len() == 16,
    ensures
        r@ == spec_decrypt_block(block@, secret_key@),
        r@.len() == 16,
{
    let round_keys = derive_keys(secret_key);
    let mut state = block.clone();
    let mut j: usize = 0;
    while j < 10
        invariant
            j <= 10,
            block@.len() == 16,
            secret_key@.len() == 16,
            round_keys@.len() == 11,
            forall|i: int| 0 <= i < 11 ==> #[trigger] round_keys@[i]@ == spec_round_key(
                secret_key@,
                i,
            ),
            state@ == spec_inv_rounds(block@, secret_key@, j as int),
            state@.len() == 16,
        decreases 10 - j,
    {
        let round = 10 - j;
        proof {
            lemma_round_key_len(secret_key@, round as int);
        }
        state = inv_round_step(&state, &round_keys[round], round == 10);
        j += 1;
    }
    add_round_key(&state, secret_key)
}

/// Block-wise AES-128 encryption of a message whose length is a multiple
/// of 16 bytes; each block is encrypted independently.
pub fn encrypt_bytes(message: &Vec<u8>, secret_key: &Vec<u8>) -> (r: Vec<u8>)
    requires
        message@.len() % 16 == 0,
        secret_key@.len() == 16,
    ensures
        r@ == spec_encrypt(message@, secret_key@),
{
    let mut r: Vec<u8> = Vec::new();
    let n = message.len();
    let mut off: usize = 0;
    while off < n
        invariant
            off <= message@.len(),
            n == message@.len(),
            message@.len() <= usize::MAX,
            off % 16 == 0,
            message@.len() % 16 == 0,
            secret_key@.len() == 16,
            r@.len() == off,
            forall|j: int| 0 <= j < off ==> r@[j] == spec_encrypt(message@, secret_key@)[j],
        decreases message@.len() - off,
    {
        proof {
            assert(off + 16 <= message@.len()) by (nonlinear_arith)
                requires
                    off % 16 == 0,
                    message@.len() % 16 == 0,
                    off < message@.len(),
                    0 <= off,
            ;
        }
        let mut block: Vec<u8> = Vec::new();
        let mut j: usize = 0;
        while j < 16
            invariant
                j <= 16,
                off + 16 <= message@.len(),
                message@.len() <= usize::MAX,
                block@.len() == j,
                forall|t: int| 0 <= t < j ==> block@[t] == message@[off + t],
            decreases 16 - j,
        {
            block.push(message[off + j]);
            j += 1;
        }
        assert(block@ =~= message@.subrange(off as int, off as int + 16));
        let cblock = encrypt_block(&block, secret_key);
        let mut j2: usize = 0;
        while j2 < 16
            invariant
                j2 <= 16,
                off + 16 <= message@.len(),
                cblock@ == spec_encrypt_block(
                    message@.subrange(off as int, off as int + 16),
                    secret_key@,
                ),
                cblock@.len() == 16,
                r@.len() == off + j2,
                off % 16 == 0,
                message@.len() % 16 == 0,
                secret_key@.len() == 16,
                forall|j: int| 0 <= j < off ==> r@[j] == spec_encrypt(message@, secret_key@)[j],
                forall|t: int| off <= t < off + j2 ==> r@[t] == cblock@[t - off],
            decreases 16 - j2,
        {
            r.push(cblock[j2]);
            j2 += 1;
        }
        proof {
            lemma_block_of_encrypt(message@, secret_key@, off as int);
        }
        off += 16;
    }
    assert(r@ =~= spec_encrypt(message@, secret_key@));
    r
}

/// Block-wise AES-128 decryption of a ciphertext whose length is a multiple
/// of 16 bytes.
pub fn decrypt_bytes(ciphertext: &Vec<u8>, secret_key: &Vec<u8>) -> (r: Vec<u8>)
    requires
        ciphertext@.len() % 16 == 0,
        secret_key@.len() == 16,
    ensures
        r@ == spec_decrypt(ciphertext@, secret_key@),
{
    let mut r: Vec<u8> = Vec::new();
    let n = ciphertext.len();
    let mut off: usize = 0;
    while off < n
        invariant
            off <= ciphertext@.len(),
            n == ciphertext@.len(),
            ciphertext@.len() <= usize::MAX,
            off % 16 == 0,
            ciphertext@.len() % 16 == 0,
            secret_key@.len() == 16,
            r@.len() == off,
            forall|j: int| 0 <= j < off ==> r@[j] == spec_decrypt(ciphertext@, secret_key@)[j],
        decreases ciphertext@.len() - off,
    {
        proof {
            assert(off + 16 <= ciphertext@.len()) by (nonlinear_arith)
                requires
                    off % 16 == 0,
                    ciphertext@.len() % 16 == 0,
                    off < ciphertext@.len(),
                    0 <= off,
            ;
        }
        let mut block: Vec<u8> = Vec::new();
        let mut j: usize = 0;
        while j < 16
            invariant
                j <= 16,
                off + 16 <= ciphertext@.len(),
                ciphertext@.len() <= usize::MAX,
                block@.len() == j,
                forall|t: int| 0 <= t < j ==> block@[t] == ciphertext@[off + t],
            decreases 16 - j,
        {
            block.push(ciphertext[off + j]);
            j += 1;
        }
        assert(block@ =~= ciphertext@.subrange(off as int, off as int + 16));
        let pblock = decrypt_block(&block, secret_key);
        let mut j2: usize = 0;
        while j2 < 16
            invariant
                j2 <= 16,
                off + 16 <= ciphertext@.len(),
                pblock@ == spec_decrypt_block(
                    ciphertext@.subrange(off as int, off as int + 16),
                    secret_key@,
                ),
                pblock@.len() == 16,
                r@.len() == off + j2,
                off % 16 == 0,
                ciphertext@.len() % 16 == 0,
                secret_key@.len() == 16,
                forall|j: int| 0 <= j < off ==> r@[j] == spec_decrypt(ciphertext@, secret_key@)[j],
                forall|t: int| off <= t < off + j2 ==> r@[t] == pblock@[t - off],
            decreases 16 - j2,
        {
            r.push(pblock[j2]);
            j2 += 1;
        }
        proof {
            lemma_block_of_decrypt(ciphertext@, secret_key@, off as int);
        }
        off += 16;
    }
    assert(r@ =~= spec_decrypt(ciphertext@, secret_key@));
    r
}

/// Blocks are encrypted independently: the ciphertext of a concatenation of
/// aligned messages is the concatenation of their ciphertexts, with no
/// chaining between blocks.
pub proof fn lemma_multi_block_independent(m1: Seq<u8>, m2: Seq<u8>, key: Seq<u8>)
    requires
        m1.len() % 16 == 0,
        m2.len() % 16 == 0,
    ensures
        spec_encrypt(m1 + m2, key) == spec_encrypt(m1, key) + spec_encrypt(m2, key),
{
    let lhs = spec_encrypt(m1 + m2, key);
    let rhs = spec_encrypt(m1, key) + spec_encrypt(m2, key);
    assert forall|i: int| 0 <= i < lhs.len() implies lhs[i] == rhs[i] by {
        if i < m1.len() {
            assert(0 <= i / 16 * 16 && i / 16 * 16 <= i && i < i / 16 * 16 + 16 && i / 16 * 16
                + 16 <= m1.len() && i % 16 == i - i / 16 * 16) by (nonlinear_arith)
                requires
                    0 <= i < m1.len(),
                    m1.len() % 16 == 0,
            ;
            assert((m1 + m2).subrange(i / 16 * 16, i / 16 * 16 + 16) =~= m1.subrange(
                i / 16 * 16,
                i / 16 * 16 + 16,
            ));
        } else {
            let j = i - m1.len();
            assert(0 <= j / 16 * 16 && j / 16 * 16 <= j && j < j / 16 * 16 + 16 && j / 16 * 16
                + 16 <= m2.len() && j % 16 == j - j / 16 * 16 && i / 16 * 16 == m1.len() + j / 16
                * 16 && i % 16 == j % 16) by (nonlinear_arith)
                requires
                    0 <= j < m2.len(),
                    i == m1.len() + j,
                    m1.len() % 16 == 0,
                    m2.len() % 16 == 0,
            ;
            assert((m1 + m2).subrange(i / 16 * 16, i / 16 * 16 + 16) =~= m2.subrange(
                j / 16 * 16,
                j / 16 * 16 + 16,
            ));
        }
    }
    assert(lhs =~= rhs);
}

/// Indices of one aligned block of a message read the block's own encryption.
pub proof fn lemma_block_of_encrypt(message: Seq<u8>, key: Seq<u8>, off: int)
    requires
        0 <= off,
        off % 16 == 0,
        off + 16 <= message.len(),
    ensures
        forall|t: int| off <= t < off + 16 ==> spec_encrypt(message, key)[t] == spec_encrypt_block(
            message.subrange(off, off + 16),
            key,
        )[t - off],
{
    assert forall|t: int| off <= t < off + 16 implies spec_encrypt(message, key)[t]
        == spec_encrypt_block(message.subrange(off, off + 16), key)[t - off] by {
        assert(t / 16 * 16 == off && t % 16 == t - off) by (nonlinear_arith)
            requires
                off % 16 == 0,
                off <= t < off + 16,
                0 <= off,
        ;
    }
}

/// Indices of one aligned block of a ciphertext read the block's own decryption.
pub proof fn lemma_block_of_decrypt(ciphertext: Seq<u8>, key: Seq<u8>, off: int)
    requires
        0 <= off,
        off % 16 == 0,
        off + 16 <= ciphertext.len(),
    ensures
        forall|t: int| off <= t < off + 16 ==> spec_decrypt(ciphertext, key)[t]
            == spec_decrypt_block(ciphertext.subrange(off, off + 16), key)[t - off],
{
    assert forall|t: int| off <= t < off + 16 implies spec_decrypt(ciphertext, key)[t]
        == spec_decrypt_block(ciphertext.subrange(off, off + 16), key)[t - off] by {
        assert(t / 16 * 16 == off && t % 16 == t - off) by (nonlinear_arith)
            requires
                off % 16 == 0,
                off <= t < off + 16,
                0 <= off,
        ;
    }
}

/// The inverse MixColumns matrix undoes the MixColumns matrix on one column:
/// the circulant (14 11 13 9) times the circulant (2 3 1 1) is the identity
/// in GF(2^8). `m0..m3` are the mixed column of the bytes `a0..a3`.
#[verifier::rlimit(100)]
#[verifier::spinoff_prover]
pub proof fn lemma_mix_column_inverse(a0: u8, a1: u8, a2: u8, a3: u8, m0: u8, m1: u8, m2: u8, m3: u8)
    requires
        m0 == spec_mul2(a0) ^ spec_mul3(a1) ^ a2 ^ a3,
        m1 == a0 ^ spec_mul2(a1) ^ spec_mul3(a2) ^ a3,
        m2 == a0 ^ a1 ^ spec_mul2(a2) ^ spec_mul3(a3),
        m3 == spec_mul3(a0) ^ a1 ^ a2 ^ spec_mul2(a3),
    ensures
        spec_mul14(m0) ^ spec_mul11(m1) ^ spec_mul13(m2) ^ spec_mul9(m3) == a0,
        spec_mul9(m0) ^ spec_mul14(m1) ^ spec_mul11(m2) ^ spec_mul13(m3) == a1,
        spec_mul13(m0) ^ spec_mul9(m1) ^ spec_mul14(m2) ^ spec_mul11(m3) == a2,
        spec_mul11(m0) ^ spec_mul13(m1) ^ spec_mul9(m2) ^ spec_mul14(m3) == a3,
{
    reveal(spec_xtime);
    reveal(spec_mul2);
    reveal(spec_mul3);
    reveal(spec_mul9);
    reveal(spec_mul11);
    reveal(spec_mul13);
    reveal(spec_mul14);
    assert(((((((((((((((m0) << 1u8) ^ (if (m0) & 0x80 == 0x80 { 0x1b } else { 0 }))) << 1u8) ^ (if ((((m0) << 1u8) ^ (if (m0) & 0x80 == 0x80 { 0x1b } else { 0 }))) & 0x80 == 0x80 { 0x1b } else { 0 }))) << 1u8) ^ (if (((((((m0) << 1u8) ^ (if (m0) & 0x80 == 0x80 { 0x1b } else { 0 }))) << 1u8) ^ (if ((((m0) << 1u8) ^ (if (m0) & 0x80 == 0x80 { 0x1b } else { 0 }))) & 0x80 == 0x80 { 0x1b } else { 0 }))) & 0x80 == 0x80 { 0x1b } else { 0 })) ^ ((((((m0) << 1u8) ^ (if (m0) & 0x80 == 0x80 { 0x1b } else { 0 }))) << 1u8) ^ (if ((((m0) << 1u8) ^ (if (m0) & 0x80 == 0x80 { 0x1b } else { 0 }))) & 0x80 == 0x80 { 0x1b } else { 0 }))) ^ (((m0) << 1u8) ^ (if (m0) & 0x80 == 0x80 { 0x1b } else { 0 }))) ^ (((((((((((m1) << 1u8) ^ (if (m1) & 0x80 == 0x80 { 0x1b } else { 0 }))) << 1u8) ^ (if ((((m1) << 1u8) ^ (if (m1) & 0x80 == 0x80 { 0x1b } else { 0 }))) & 0x80 == 0x80 { 0x1b } else { 0 }))) << 1u8) ^ (if (((((((m1) << 1u8) ^ (if (m1) & 0x80 == 0x80 { 0x1b } else { 0 }))) << 1u8) ^ (if ((((m1) << 1u8) ^ (if (m1) & 0x80 == 0x80 { 0x1b } else { 0 }))) & 0x80 == 0x80 { 0x1b } else { 0 }))) & 0x80 == 0x80 { 0x1b } else { 0 })) ^ (((m1) << 1u8) ^ (if (m1) & 0x80 == 0x80 { 0x1b } else { 0 }))) ^ (m1))) ^ (((((((((((m2) << 1u8) ^ (if (m2) & 0x80 == 0x80 { 0x1b } else { 0 }))) << 1u8) ^ (if ((((m2) << 1u8) ^ (if (m2) & 0x80 == 0x80 { 0x1b } else { 0 }))) & 0x80 == 0x80 { 0x1b } else { 0 }))) << 1u8) ^ (if (((((((m2) << 1u8) ^ (if (m2) & 0x80 == 0x80 { 0x1b } else { 0 }))) << 1u8) ^ (if ((((m2) << 1u8) ^ (if (m2) & 0x80 == 0x80 { 0x1b } else { 0 }))) & 0x80 == 0x80 { 0x1b } else { 0 }))) & 0x80 == 0x80 { 0x1b } else { 0 })) ^ ((((((m2) << 1u8) ^ (if (m2) & 0x80 == 0x80 { 0x1b } else { 0 }))) << 1u8) ^ (if ((((m2) << 1u8) ^ (if (m2) & 0x80 == 0x80 { 0x1b } else { 0 }))) & 0x80 == 0x80 { 0x1b } else { 0 }))) ^ (m2))) ^ ((((((((((m3) << 1u8) ^ (if (m3) & 0x80 == 0x80 { 0x1b } else { 0 }))) << 1u8) ^ (if ((((m3) << 1u8) ^ (if (m3) & 0x80 == 0x80 { 0x1b } else { 0 }))) & 0x80 == 0x80 { 0x1b } else { 0 }))) << 1u8) ^ (if (((((((m3) << 1u8) ^ (if (m3) & 0x80 == 0x80 { 0x1b } else { 0 }))) << 1u8) ^ (if ((((m3) << 1u8) ^ (if (m3) & 0x80 == 0x80 { 0x1b } else { 0 }))) & 0x80 == 0x80 { 0x1b } else { 0 }))) & 0x80 == 0x80 { 0x1b } else { 0 })) ^ (m3))) == a0) by (bit_vector)
        requires
            m0 == ((((((a0) << 1u8) ^ (if (a0) & 0x80 == 0x80 { 0x1b } else { 0 })) ^ ((((a1) << 1u8) ^ (if (a1) & 0x80 == 0x80 { 0x1b } else { 0 })) ^ (a1))) ^ (a2)) ^ (a3)),
            m1 == ((((a0) ^ (((a1) << 1u8) ^ (if (a1) & 0x80 == 0x80 { 0x1b } else { 0 }))) ^ ((((a2) << 1u8) ^ (if (a2) & 0x80 == 0x80 { 0x1b } else { 0 })) ^ (a2))) ^ (a3)),
            m2 == ((((a0) ^ (a1)) ^ (((a2) << 1u8) ^ (if (a2) & 0x80 == 0x80 { 0x1b } else { 0 }))) ^ ((((a3) << 1u8) ^ (if (a3) & 0x80 == 0x80 { 0x1b } else { 0 })) ^ (a3))),
            m3 == (((((((a0) << 1u8) ^ (if (a0) & 0x80 == 0x80 { 0x1b } else { 0 })) ^ (a0)) ^ (a1)) ^ (a2)) ^ (((a3) << 1u8) ^ (if (a3) & 0x80 == 0x80 { 0x1b } else { 0 }))),
    ;
    assert((((((((((((((m0) << 1u8) ^ (if (m0) & 0x80 == 0x80 { 0x1b } else { 0 }))) << 1u8) ^ (if ((((m0) << 1u8) ^ (if (m0) & 0x80 == 0x80 { 0x1b } else { 0 }))) & 0x80 == 0x80 { 0x1b } else { 0 }))) << 1u8) ^ (if (((((((m0) << 1u8) ^ (if (m0) & 0x80 == 0x80 { 0x1b } else { 0 }))) << 1u8) ^ (if ((((m0) << 1u8) ^ (if (m0) & 0x80 == 0x80 { 0x1b } else { 0 }))) & 0x80 == 0x80 { 0x1b } else { 0 }))) & 0x80 == 0x80 { 0x1b } else { 0 })) ^ (m0)) ^ (((((((((((m1) << 1u8) ^ (if (m1) & 0x80 == 0x80 { 0x1b } else { 0 }))) << 1u8) ^ (if ((((m1) << 1u8) ^ (if (m1) & 0x80 == 0x80 { 0x1b } else { 0 }))) & 0x80 == 0x80 { 0x1b } else { 0 }))) << 1u8) ^ (if (((((((m1) << 1u8) ^ (if (m1) & 0x80 == 0x80 { 0x1b } else { 0 }))) << 1u8) ^ (if ((((m1) << 1u8) ^ (if (m1) & 0x80 == 0x80 { 0x1b } else { 0 }))) & 0x80 == 0x80 { 0x1b } else { 0 }))) & 0x80 == 0x80 { 0x1b } else { 0 })) ^ ((((((m1) << 1u8) ^ (if (m1) & 0x80 == 0x80 { 0x1b } else { 0 }))) << 1u8) ^ (if ((((m1) << 1u8) ^ (if (m1) & 0x80 == 0x80 { 0x1b } else { 0 }))) & 0x80 == 0x80 { 0x1b } else { 0 }))) ^ (((m1) << 1u8) ^ (if (m1) & 0x80 == 0x80 { 0x1b } else { 0 })))) ^ (((((((((((m2) << 1u8) ^ (if (m2) & 0x80 == 0x80 { 0x1b } else { 0 }))) << 1u8) ^ (if ((((m2) << 1u8) ^ (if (m2) & 0x80 == 0x80 { 0x1b } else { 0 }))) & 0x80 == 0x80 { 0x1b } else { 0 }))) << 1u8) ^ (if (((((((m2) << 1u8) ^ (if (m2) & 0x80 == 0x80 { 0x1b } else { 0 }))) << 1u8) ^ (if ((((m2) << 1u8) ^ (if (m2) & 0x80 == 0x80 { 0x1b } else { 0 }))) & 0x80 == 0x80 { 0x1b } else { 0 }))) & 0x80 == 0x80 { 0x1b } else { 0 })) ^ (((m2) << 1u8) ^ (if (m2) & 0x80 == 0x80 { 0x1b } else { 0 }))) ^ (m2))) ^ (((((((((((m3) << 1u8) ^ (if (m3) & 0x80 == 0x80 { 0x1b } else { 0 }))) << 1u8) ^ (if ((((m3) << 1u8) ^ (if (m3) & 0x80 == 0x80 { 0x1b } else { 0 }))) & 0x80 == 0x80 { 0x1b } else { 0 }))) << 1u8) ^ (if (((((((m3) << 1u8) ^ (if (m3) & 0x80 == 0x80 { 0x1b } else { 0 }))) << 1u8) ^ (if ((((m3) << 1u8) ^ (if (m3) & 0x80 == 0x80 { 0x1b } else { 0 }))) & 0x80 == 0x80 { 0x1b } else { 0 }))) & 0x80 == 0x80 { 0x1b } else { 0 })) ^ ((((((m3) << 1u8) ^ (if (m3) & 0x80 == 0x80 { 0x1b } else { 0 }))) << 1u8) ^ (if ((((m3) << 1u8) ^ (if (m3) & 0x80 == 0x80 { 0x1b } else { 0 }))) & 0x80 == 0x80 { 0x1b } else { 0 }))) ^ (m3))) == a1) by (bit_vector)
        requires
            m0 == ((((((a0) << 1u8) ^ (if (a0) & 0x80 == 0x80 { 0x1b } else { 0 })) ^ ((((a1) << 1u8) ^ (if (a1) & 0x80 == 0x80 { 0x1b } else { 0 })) ^ (a1))) ^ (a2)) ^ (a3)),
            m1 == ((((a0) ^ (((a1) << 1u8) ^ (if (a1) & 0x80 == 0x80 { 0x1b } else { 0 }))) ^ ((((a2) << 1u8) ^ (if (a2) & 0x80 == 0x80 { 0x1b } else { 0 })) ^ (a2))) ^ (a3)),
            m2 == ((((a0) ^ (a1)) ^ (((a2) << 1u8) ^ (if (a2) & 0x80 == 0x80 { 0x1b } else { 0 }))) ^ ((((a3) << 1u8) ^ (if (a3) & 0x80 == 0x80 { 0x1b } else { 0 })) ^ (a3))),
            m3 == (((((((a0) << 1u8) ^ (if (a0) & 0x80 == 0x80 { 0x1b } else { 0 })) ^ (a0)) ^ (a1)) ^ (a2)) ^ (((a3) << 1u8) ^ (if (a3) & 0x80 == 0x80 { 0x1b } else { 0 }))),
    ;
    assert(((((((((((((((m0) << 1u8) ^ (if (m0) & 0x80 == 0x80 { 0x1b } else { 0 }))) << 1u8) ^ (if ((((m0) << 1u8) ^ (if (m0) & 0x80 == 0x80 { 0x1b } else { 0 }))) & 0x80 == 0x80 { 0x1b } else { 0 }))) << 1u8) ^ (if (((((((m0) << 1u8) ^ (if (m0) & 0x80 == 0x80 { 0x1b } else { 0 }))) << 1u8) ^ (if ((((m0) << 1u8) ^ (if (m0) & 0x80 == 0x80 { 0x1b } else { 0 }))) & 0x80 == 0x80 { 0x1b } else { 0 }))) & 0x80 == 0x80 { 0x1b } else { 0 })) ^ ((((((m0) << 1u8) ^ (if (m0) & 0x80 == 0x80 { 0x1b } else { 0 }))) << 1u8) ^ (if ((((m0) << 1u8) ^ (if (m0) & 0x80 == 0x80 { 0x1b } else { 0 }))) & 0x80 == 0x80 { 0x1b } else { 0 }))) ^ (m0)) ^ ((((((((((m1) << 1u8) ^ (if (m1) & 0x80 == 0x80 { 0x1b } else { 0 }))) << 1u8) ^ (if ((((m1) << 1u8) ^ (if (m1) & 0x80 == 0x80 { 0x1b } else { 0 }))) & 0x80 == 0x80 { 0x1b } else { 0 }))) << 1u8) ^ (if (((((((m1) << 1u8) ^ (if (m1) & 0x80 == 0x80 { 0x1b } else { 0 }))) << 1u8) ^ (if ((((m1) << 1u8) ^ (if (m1) & 0x80 == 0x80 { 0x1b } else { 0 }))) & 0x80 == 0x80 { 0x1b } else { 0 }))) & 0x80 == 0x80 { 0x1b } else { 0 })) ^ (m1))) ^ (((((((((((m2) << 1u8) ^ (if (m2) & 0x80 == 0x80 { 0x1b } else { 0 }))) << 1u8) ^ (if ((((m2) << 1u8) ^ (if (m2) & 0x80 == 0x80 { 0x1b } else { 0 }))) & 0x80 == 0x80 { 0x1b } else { 0 }))) << 1u8) ^ (if (((((((m2) << 1u8) ^ (if (m2) & 0x80 == 0x80 { 0x1b } else { 0 }))) << 1u8) ^ (if ((((m2) << 1u8) ^ (if (m2) & 0x80 == 0x80 { 0x1b } else { 0 }))) & 0x80 == 0x80 { 0x1b } else { 0 }))) & 0x80 == 0x80 { 0x1b } else { 0 })) ^ ((((((m2) << 1u8) ^ (if (m2) & 0x80 == 0x80 { 0x1b } else { 0 }))) << 1u8) ^ (if ((((m2) << 1u8) ^ (if (m2) & 0x80 == 0x80 { 0x1b } else { 0 }))) & 0x80 == 0x80 { 0x1b } else { 0 }))) ^ (((m2) << 1u8) ^ (if (m2) & 0x80 == 0x80 { 0x1b } else { 0 })))) ^ (((((((((((m3) << 1u8) ^ (if (m3) & 0x80 == 0x80 { 0x1b } else { 0 }))) << 1u8) ^ (if ((((m3) << 1u8) ^ (if (m3) & 0x80 == 0x80 { 0x1b } else { 0 }))) & 0x80 == 0x80 { 0x1b } else { 0 }))) << 1u8) ^ (if (((((((m3) << 1u8) ^ (if (m3) & 0x80 == 0x80 { 0x1b } else { 0 }))) << 1u8) ^ (if ((((m3) << 1u8) ^ (if (m3) & 0x80 == 0x80 { 0x1b } else { 0 }))) & 0x80 == 0x80 { 0x1b } else { 0 }))) & 0x80 == 0x80 { 0x1b } else { 0 })) ^ (((m3) << 1u8) ^ (if (m3) & 0x80 == 0x80 { 0x1b } else { 0 }))) ^ (m3))) == a2) by (bit_vector)
        requires
            m0 == ((((((a0) << 1u8) ^ (if (a0) & 0x80 == 0x80 { 0x1b } else { 0 })) ^ ((((a1) << 1u8) ^ (if (a1) & 0x80 == 0x80 { 0x1b } else { 0 })) ^ (a1))) ^ (a2)) ^ (a3)),
            m1 == ((((a0) ^ (((a1) << 1u8) ^ (if (a1) & 0x80 == 0x80 { 0x1b } else { 0 }))) ^ ((((a2) << 1u8) ^ (if (a2) & 0x80 == 0x80 { 0x1b } else { 0 })) ^ (a2))) ^ (a3)),
            m2 == ((((a0) ^ (a1)) ^ (((a2) << 1u8) ^ (if (a2) & 0x80 == 0x80 { 0x1b } else { 0 }))) ^ ((((a3) << 1u8) ^ (if (a3) & 0x80 == 0x80 { 0x1b } else { 0 })) ^ (a3))),
            m3 == (((((((a0) << 1u8) ^ (if (a0) & 0x80 == 0x80 { 0x1b } else { 0 })) ^ (a0)) ^ (a1)) ^ (a2)) ^ (((a3) << 1u8) ^ (if (a3) & 0x80 == 0x80 { 0x1b } else { 0 }))),
    ;
    assert(((((((((((((((m0) << 1u8) ^ (if (m0) & 0x80 == 0x80 { 0x1b } else { 0 }))) << 1u8) ^ (if ((((m0) << 1u8) ^ (if (m0) & 0x80 == 0x80 { 0x1b } else { 0 }))) & 0x80 == 0x80 { 0x1b } else { 0 }))) << 1u8) ^ (if (((((((m0) << 1u8) ^ (if (m0) & 0x80 == 0x80 { 0x1b } else { 0 }))) << 1u8) ^ (if ((((m0) << 1u8) ^ (if (m0) & 0x80 == 0x80 { 0x1b } else { 0 }))) & 0x80 == 0x80 { 0x1b } else { 0 }))) & 0x80 == 0x80 { 0x1b } else { 0 })) ^ (((m0) << 1u8) ^ (if (m0) & 0x80 == 0x80 { 0x1b } else { 0 }))) ^ (m0)) ^ (((((((((((m1) << 1u8) ^ (if (m1) & 0x80 == 0x80 { 0x1b } else { 0 }))) << 1u8) ^ (if ((((m1) << 1u8) ^ (if (m1) & 0x80 == 0x80 { 0x1b } else { 0 }))) & 0x80 == 0x80 { 0x1b } else { 0 }))) << 1u8) ^ (if (((((((m1) << 1u8) ^ (if (m1) & 0x80 == 0x80 { 0x1b } else { 0 }))) << 1u8) ^ (if ((((m1) << 1u8) ^ (if (m1) & 0x80 == 0x80 { 0x1b } else { 0 }))) & 0x80 == 0x80 { 0x1b } else { 0 }))) & 0x80 == 0x80 { 0x1b } else { 0 })) ^ ((((((m1) << 1u8) ^ (if (m1) & 0x80 == 0x80 { 0x1b } else { 0 }))) << 1u8) ^ (if ((((m1) << 1u8) ^ (if (m1) & 0x80 == 0x80 { 0x1b } else { 0 }))) & 0x80 == 0x80 { 0x1b } else { 0 }))) ^ (m1))) ^ ((((((((((m2) << 1u8) ^ (if (m2) & 0x80 == 0x80 { 0x1b } else { 0 }))) << 1u8) ^ (if ((((m2) << 1u8) ^ (if (m2) & 0x80 == 0x80 { 0x1b } else { 0 }))) & 0x80 == 0x80 { 0x1b } else { 0 }))) << 1u8) ^ (if (((((((m2) << 1u8) ^ (if (m2) & 0x80 == 0x80 { 0x1b } else { 0 }))) << 1u8) ^ (if ((((m2) << 1u8) ^ (if (m2) & 0x80 == 0x80 { 0x1b } else { 0 }))) & 0x80 == 0x80 { 0x1b } else { 0 }))) & 0x80 == 0x80 { 0x1b } else { 0 })) ^ (m2))) ^ (((((((((((m3) << 1u8) ^ (if (m3) & 0x80 == 0x80 { 0x1b } else { 0 }))) << 1u8) ^ (if ((((m3) << 1u8) ^ (if (m3) & 0x80 == 0x80 { 0x1b } else { 0 }))) & 0x80 == 0x80 { 0x1b } else { 0 }))) << 1u8) ^ (if (((((((m3) << 1u8) ^ (if (m3) & 0x80 == 0x80 { 0x1b } else { 0 }))) << 1u8) ^ (if ((((m3) << 1u8) ^ (if (m3) & 0x80 == 0x80 { 0x1b } else { 0 }))) & 0x80 == 0x80 { 0x1b } else { 0 }))) & 0x80 == 0x80 { 0x1b } else { 0 })) ^ ((((((m3) << 1u8) ^ (if (m3) & 0x80 == 0x80 { 0x1b } else { 0 }))) << 1u8) ^ (if ((((m3) << 1u8) ^ (if (m3) & 0x80 == 0x80 { 0x1b } else { 0 }))) & 0x80 == 0x80 { 0x1b } else { 0 }))) ^ (((m3) << 1u8) ^ (if (m3) & 0x80 == 0x80 { 0x1b } else { 0 })))) == a3) by (bit_vector)
        requires
            m0 == ((((((a0) << 1u8) ^ (if (a0) & 0x80 == 0x80 { 0x1b } else { 0 })) ^ ((((a1) << 1u8) ^ (if (a1) & 0x80 == 0x80 { 0x1b } else { 0 })) ^ (a1))) ^ (a2)) ^ (a3)),
            m1 == ((((a0) ^ (((a1) << 1u8) ^ (if (a1) & 0x80 == 0x80 { 0x1b } else { 0 }))) ^ ((((a2) << 1u8) ^ (if (a2) & 0x80 == 0x80 { 0x1b } else { 0 })) ^ (a2))) ^ (a3)),
            m2 == ((((a0) ^ (a1)) ^ (((a2) << 1u8) ^ (if (a2) & 0x80 == 0x80 { 0x1b } else { 0 }))) ^ ((((a3) << 1u8) ^ (if (a3) & 0x80 == 0x80 { 0x1b } else { 0 })) ^ (a3))),
            m3 == (((((((a0) << 1u8) ^ (if (a0) & 0x80 == 0x80 { 0x1b } else { 0 })) ^ (a0)) ^ (a1)) ^ (a2)) ^ (((a3) << 1u8) ^ (if (a3) & 0x80 == 0x80 { 0x1b } else { 0 }))),
    ;
}

/// Adding the same round key twice gives the state back: XOR is involutive.
pub proof fn lemma_add_round_key_involutive(s: Seq<u8>, k: Seq<u8>)
    ensures
        spec_add_round_key(spec_add_round_key(s, k), k) == s,
{
    assert(forall|x: u8, y: u8| ((x ^ y) ^ y) == x) by (bit_vector);
    assert(spec_add_round_key(spec_add_round_key(s, k), k) =~= s);
}

/// The inverse row rotation undoes ShiftRows.
pub proof fn lemma_shift_rows_inverse(s: Seq<u8>)
    requires
        s.len() == 16,
    ensures
        spec_inv_shift_rows(spec_shift_rows(s)) == s,
{
    assert(spec_inv_shift_rows(spec_shift_rows(s)) =~= s);
}

/// The inverse substitution box undoes SubBytes on every state byte.
pub proof fn lemma_sub_bytes_inverse(s: Seq<u8>)
    ensures
        spec_inv_sub_bytes(spec_sub_bytes(s)) == s,
{
    assert forall|i: int| 0 <= i < s.len() implies spec_inv_sub_bytes(spec_sub_bytes(s))[i]
        == s[i] by {
        lemma_sbox_inverse(s[i]);
    }
    assert(spec_inv_sub_bytes(spec_sub_bytes(s)) =~= s);
}

/// The inverse transform undoes MixColumns on the whole state.
pub proof fn lemma_mix_columns_inverse(s: Seq<u8>)
    requires
        s.len() == 16,
    ensures
        spec_inv_mix_columns(spec_mix_columns(s)) == s,
{
    let t = spec_mix_columns(s);
    lemma_mix_column_inverse(s[0], s[1], s[2], s[3], t[0], t[1], t[2], t[3]);
    lemma_mix_column_inverse(s[4], s[5], s[6], s[7], t[4], t[5], t[6], t[7]);
    lemma_mix_column_inverse(s[8], s[9], s[10], s[11], t[8], t[9], t[10], t[11]);
    lemma_mix_column_inverse(s[12], s[13], s[14], s[15], t[12], t[13], t[14], t[15]);
    assert(spec_inv_mix_columns(t) =~= s);
}

/// Every encryption round yields a 16-byte state.
pub proof fn lemma_round_len(state: Seq<u8>, rk: Seq<u8>, last: bool)
    ensures
        spec_round(state, rk, last).len() == 16,
{
}

/// The round pipeline keeps the 16-byte state length.
pub proof fn lemma_rounds_len(state: Seq<u8>, key: Seq<u8>, r: int)
    requires
        state.len() == 16,
    ensures
        spec_rounds(state, key, r).len() == 16,
    decreases r,
{
    if r > 0 {
        lemma_rounds_len(state, key, r - 1);
        lemma_round_len(spec_rounds(state, key, r - 1), spec_round_key(key, r), r == 10);
    }
}

/// The inverse round undoes one encryption round.
pub proof fn lemma_round_inverse(state: Seq<u8>, rk: Seq<u8>, last: bool)
    requires
        state.len() == 16,
    ensures
        spec_inv_round(spec_round(state, rk, last), rk, last) == state,
{
    let sb = spec_sub_bytes(state);
    let sh = spec_shift_rows(sb);
    lemma_sub_bytes_inverse(state);
    lemma_shift_rows_inverse(sb);
    if last {
        lemma_add_round_key_involutive(sh, rk);
    } else {
        let mx = spec_mix_columns(sh);
        lemma_add_round_key_involutive(mx, rk);
        lemma_mix_columns_inverse(sh);
    }
}

/// Undoing j rounds of the full pipeline leaves the first 10 - j rounds.
pub proof fn lemma_rounds_inverse(s: Seq<u8>, key: Seq<u8>, j: int)
    requires
        s.len() == 16,
        0 <= j <= 10,
    ensures
        spec_inv_rounds(spec_rounds(s, key, 10), key, j) == spec_rounds(s, key, 10 - j),
    decreases j,
{
    if j > 0 {
        lemma_rounds_inverse(s, key, j - 1);
        lemma_rounds_len(s, key, 10 - j);
        lemma_round_inverse(
            spec_rounds(s, key, 10 - j),
            spec_round_key(key, 11 - j),
            (11 - j) == 10,
        );
    }
}

/// Decryption of one block undoes its encryption under the same key.
pub proof fn lemma_decrypt_block_inverse(block: Seq<u8>, key: Seq<u8>)
    requires
        block.len() == 16,
    ensures
        spec_decrypt_block(spec_encrypt_block(block, key), key) == block,
{
    let s0 = spec_add_round_key(block, key);
    lemma_rounds_inverse(s0, key, 10);
    lemma_add_round_key_involutive(block, key);
}

/// Decryption undoes encryption: for every 16-byte-aligned message and any
/// key, decrypting the ciphertext under the same key gives the message back.
pub proof fn lemma_decrypt_encrypt(message: Seq<u8>, key: Seq<u8>)
    requires
        message.len() % 16 == 0,
    ensures
        spec_decrypt(spec_encrypt(message, key), key) == message,
{
    let e = spec_encrypt(message, key);
    assert forall|i: int| 0 <= i < message.len() implies spec_decrypt(e, key)[i]
        == message[i] by {
        let off = i / 16 * 16;
        assert(0 <= off && off <= i && i < off + 16 && off + 16 <= message.len() && off % 16 == 0
            && i % 16 == i - off) by (nonlinear_arith)
            requires
                0 <= i < message.len(),
                message.len() % 16 == 0,
                off == i / 16 * 16,
        ;
        lemma_block_of_encrypt(message, key, off);
        let block = message.subrange(off, off + 16);
        lemma_rounds_len(spec_add_round_key(block, key), key, 10);
        assert(e.subrange(off, off + 16) =~= spec_encrypt_block(block, key));
        lemma_decrypt_block_inverse(block, key);
        assert(spec_decrypt(e, key)[i] == spec_decrypt_block(e.subrange(off, off + 16), key)[i
            - off]);
        assert(spec_decrypt_block(e.subrange(off, off + 16), key) == block);
        assert(block[i - off] == message[i]);
    }
    assert(spec_decrypt(e, key) =~= message);
}

} // verus!
