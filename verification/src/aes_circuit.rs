//! The arithmetization of AES-128: the cipher's operations re-expressed over
//! circuit byte variables, proved to compute, at the value level, exactly the
//! reference cipher of [`crate::aes`].
//!
//! Every operation here both wires constraints into the shared constraint
//! system (through the trusted gadget layer) and is verified to carry the
//! right byte values: the value each produced variable holds is pinned to the
//! corresponding spec function of the reference cipher.

use crate::aes::{
    lemma_block_of_encrypt, lemma_mul_defs, lemma_round_key_len, rcon, spec_add_round_key,
    spec_encrypt, spec_encrypt_block, spec_mix_column, spec_mix_columns, spec_mix_columns_upto,
    spec_next_round_key, spec_rcon, spec_round_key, spec_rounds, spec_shift_rows,
    spec_sub_bytes, spec_xtime, xtime,
};
use crate::gadgets::{
    byte_gadget_value, byte_value, constant_byte, copy_byte, is_eq_byte, select_byte, xor_byte,
    ByteVar,
};
use crate::sbox::{sbox, spec_sbox};
use crate::AesError;
use vstd::prelude::*;

verus! {

/// The bytes a row of circuit variables holds.
pub open spec fn values_of(s: Seq<ByteVar>) -> Seq<u8> {
    s.map_values(|g: ByteVar| byte_value(g))
}

/// An in-circuit lookup table: 256 constant byte variables, one per input
/// byte. Built once per circuit instance and shared by every substitution.
pub struct LookupTable {
    pub entries: Vec<ByteVar>,
}

/// The table holds the AES substitution box.
pub open spec fn is_sbox_table(t: LookupTable) -> bool {
    t.entries@.len() == 256 && forall|i: int|
        0 <= i < 256 ==> byte_value(#[trigger] t.entries@[i]) == spec_sbox(i as u8)
}

/// The table holds GF(2^8) doubling.
pub open spec fn is_xtime_table(t: LookupTable) -> bool {
    t.entries@.len() == 256 && forall|i: int|
        0 <= i < 256 ==> byte_value(#[trigger] t.entries@[i]) == spec_xtime(i as u8)
}

impl LookupTable {
    /// Lay a 256-entry byte table out as constant circuit variables.
    pub fn from_table(table: &Vec<u8>) -> (r: LookupTable)
        requires
            table@.len() == 256,
        ensures
            r.entries@.len() == 256,
            forall|i: int| 0 <= i < 256 ==> byte_value(#[trigger] r.entries@[i]) == table@[i],
    {
        let mut entries: Vec<ByteVar> = Vec::new();
        let mut i: usize = 0;
        while i < 256
            invariant
                i <= 256,
                table@.len() == 256,
                entries@.len() == i,
                forall|j: int| 0 <= j < i ==> byte_value(#[trigger] entries@[j]) == table@[j],
            decreases 256 - i,
        {
            entries.push(constant_byte(table[i]));
            i += 1;
        }
        LookupTable { entries }
    }

    /// Look a byte variable up in the table, in circuit: a chain of equality
    /// and selection gadgets over all 256 entries, so that the produced
    /// variable is constrained to the entry the input byte names.
    pub fn lookup(&self, b: &ByteVar) -> (r: Result<ByteVar, AesError>)
        requires
            self.entries@.len() == 256,
        ensures
            r is Ok ==> byte_value(r->Ok_0) == byte_value(self.entries@[byte_value(*b) as int]),
            r is Err ==> r->Err_0 == AesError::Allocation,
    {
        let mut acc = constant_byte(0);
        let mut j: usize = 0;
        while j < 256
            invariant
                j <= 256,
                self.entries@.len() == 256,
                byte_value(acc) == (if (byte_value(*b) as int) < j {
                    byte_value(self.entries@[byte_value(*b) as int])
                } else {
                    0u8
                }),
            decreases 256 - j,
        {
            let key = constant_byte(j as u8);
            let cond = match is_eq_byte(b, &key) {
                Ok(c) => c,
                Err(_) => {
                    return Err(AesError::Allocation);
                },
            };
            acc = match select_byte(&cond, &self.entries[j], &acc) {
                Ok(v) => v,
                Err(_) => {
                    return Err(AesError::Allocation);
                },
            };
            j += 1;
        }
        Ok(acc)
    }
}

/// The substitution-box lookup gadget.
pub fn sbox_table() -> (r: LookupTable)
    ensures
        is_sbox_table(r),
{
    let mut table: Vec<u8> = Vec::new();
    let mut i: usize = 0;
    while i < 256
        invariant
            i <= 256,
            table@.len() == i,
            forall|j: int| 0 <= j < i ==> table@[j] == spec_sbox(j as u8),
        decreases 256 - i,
    {
        table.push(sbox(i as u8));
        i += 1;
    }
    LookupTable::from_table(&table)
}

/// The doubling lookup gadget used by MixColumns.
pub fn xtime_table() -> (r: LookupTable)
    ensures
        is_xtime_table(r),
{
    let mut table: Vec<u8> = Vec::new();
    let mut i: usize = 0;
    while i < 256
        invariant
            i <= 256,
            table@.len() == i,
            forall|j: int| 0 <= j < i ==> table@[j] == spec_xtime(j as u8),
        decreases 256 - i,
    {
        table.push(xtime(i as u8));
        i += 1;
    }
    LookupTable::from_table(&table)
}

/// SubBytes in circuit: every state byte through the lookup gadget.
pub fn substitute_bytes(state: &Vec<ByteVar>, sbox_tbl: &LookupTable) -> (r: Result<
    Vec<ByteVar>,
    AesError,
>)
    requires
        is_sbox_table(*sbox_tbl),
    ensures
        r is Ok ==> values_of(r->Ok_0@) == spec_sub_bytes(values_of(state@)),
        r is Ok ==> r->Ok_0@.len() == state@.len(),
        r is Err ==> r->Err_0 == AesError::Allocation,
{
    let mut out: Vec<ByteVar> = Vec::new();
    let mut i: usize = 0;
    while i < state.len()
        invariant
            i <= state@.len(),
            is_sbox_table(*sbox_tbl),
            out@.len() == i,
            forall|j: int|
                0 <= j < i ==> byte_value(#[trigger] out@[j]) == spec_sbox(byte_value(state@[j])),
        decreases state@.len() - i,
    {
        let s = match sbox_tbl.lookup(&state[i]) {
            Ok(v) => v,
            Err(e) => {
                return Err(e);
            },
        };
        out.push(s);
        i += 1;
    }
    assert(values_of(out@) =~= spec_sub_bytes(values_of(state@)));
    Ok(out)
}

/// ShiftRows in circuit: pure re-wiring of the 16 byte variables.
pub fn shift_rows(state: &Vec<ByteVar>) -> (r: Vec<ByteVar>)
    requires
        state@.len() == 16,
    ensures
        values_of(r@) == spec_shift_rows(values_of(state@)),
        r@.len() == 16,
{
    let mut out: Vec<ByteVar> = Vec::new();
    out.push(copy_byte(&state[0]));
    out.push(copy_byte(&state[5]));
    out.push(copy_byte(&state[10]));
    out.push(copy_byte(&state[15]));
    out.push(copy_byte(&state[4]));
    out.push(copy_byte(&state[9]));
    out.push(copy_byte(&state[14]));
    out.push(copy_byte(&state[3]));
    out.push(copy_byte(&state[8]));
    out.push(copy_byte(&state[13]));
    out.push(copy_byte(&state[2]));
    out.push(copy_byte(&state[7]));
    out.push(copy_byte(&state[12]));
    out.push(copy_byte(&state[1]));
    out.push(copy_byte(&state[6]));
    out.push(copy_byte(&state[11]));
    assert(values_of(out@) =~= spec_shift_rows(values_of(state@)));
    out
}

/// MixColumns in circuit: each column through the fixed GF(2^8) transform,
/// with doubling done by the lookup gadget and field addition by XOR gadgets.
pub fn mix_columns(state: &Vec<ByteVar>, xt_tbl: &LookupTable) -> (r: Result<
    Vec<ByteVar>,
    AesError,
>)
    requires
        state@.len() == 16,
        is_xtime_table(*xt_tbl),
    ensures
        r is Ok ==> values_of(r->Ok_0@) == spec_mix_columns(values_of(state@)),
        r is Ok ==> r->Ok_0@.len() == 16,
        r is Err ==> r->Err_0 == AesError::Allocation,
{
    let mut out: Vec<ByteVar> = Vec::new();
    let mut c: usize = 0;
    while c < 4
        invariant
            c <= 4,
            state@.len() == 16,
            is_xtime_table(*xt_tbl),
            out@.len() == 4 * c,
            values_of(out@) == spec_mix_columns_upto(values_of(state@), c as int),
        decreases 4 - c,
    {
        let a0 = &state[4 * c];
        let a1 = &state[4 * c + 1];
        let a2 = &state[4 * c + 2];
        let a3 = &state[4 * c + 3];
        let d0 = match xt_tbl.lookup(a0) {
            Ok(v) => v,
            Err(e) => {
                return Err(e);
            },
        };
        let d1 = match xt_tbl.lookup(a1) {
            Ok(v) => v,
            Err(e) => {
                return Err(e);
            },
        };
        let d2 = match xt_tbl.lookup(a2) {
            Ok(v) => v,
            Err(e) => {
                return Err(e);
            },
        };
        let d3 = match xt_tbl.lookup(a3) {
            Ok(v) => v,
            Err(e) => {
                return Err(e);
            },
        };
        let t0 = match gadget_xor4(&d0, &xor_pair(&d1, a1)?, a2, a3) {
            Ok(v) => v,
            Err(e) => {
                return Err(e);
            },
        };
        let t1 = match gadget_xor4(a0, &d1, &xor_pair(&d2, a2)?, a3) {
            Ok(v) => v,
            Err(e) => {
                return Err(e);
            },
        };
        let t2 = match gadget_xor4(a0, a1, &d2, &xor_pair(&d3, a3)?) {
            Ok(v) => v,
            Err(e) => {
                return Err(e);
            },
        };
        let t3 = match gadget_xor4(&xor_pair(&d0, a0)?, a1, a2, &d3) {
            Ok(v) => v,
            Err(e) => {
                return Err(e);
            },
        };
        out.push(t0);
        out.push(t1);
        out.push(t2);
        out.push(t3);
        proof {
            lemma_mul_defs(byte_value(state@[4 * c]));
            lemma_mul_defs(byte_value(state@[4 * c + 1]));
            lemma_mul_defs(byte_value(state@[4 * c + 2]));
            lemma_mul_defs(byte_value(state@[4 * c + 3]));
        }
        assert(values_of(out@) =~= spec_mix_columns_upto(values_of(state@), c as int)
            + spec_mix_column(values_of(state@), 4 * c as int));
        c += 1;
    }
    proof {
        reveal_with_fuel(spec_mix_columns_upto, 5);
    }
    assert(values_of(out@) =~= spec_mix_columns(values_of(state@)));
    Ok(out)
}

/// XOR of two byte variables, with the gadget error mapped to the library's.
fn xor_pair(a: &ByteVar, b: &ByteVar) -> (r: Result<ByteVar, AesError>)
    ensures
        r is Ok ==> byte_value(r->Ok_0) == byte_value(*a) ^ byte_value(*b),
        r is Err ==> r->Err_0 == AesError::Allocation,
{
    match xor_byte(a, b) {
        Ok(v) => Ok(v),
        Err(_) => Err(AesError::Allocation),
    }
}

/// XOR of four byte variables.
fn gadget_xor4(a: &ByteVar, b: &ByteVar, c: &ByteVar, d: &ByteVar) -> (r: Result<
    ByteVar,
    AesError,
>)
    ensures
        r is Ok ==> byte_value(r->Ok_0) == byte_value(*a) ^ byte_value(*b) ^ byte_value(*c)
            ^ byte_value(*d),
        r is Err ==> r->Err_0 == AesError::Allocation,
{
    let ab = xor_pair(a, b)?;
    let abc = xor_pair(&ab, c)?;
    xor_pair(&abc, d)
}

/// AddRoundKey in circuit: byte-wise XOR of state and round key variables.
pub fn add_round_key(state: &Vec<ByteVar>, round_key: &Vec<ByteVar>) -> (r: Result<
    Vec<ByteVar>,
    AesError,
>)
    requires
        state@.len() == round_key@.len(),
    ensures
        r is Ok ==> values_of(r->Ok_0@) == spec_add_round_key(
            values_of(state@),
            values_of(round_key@),
        ),
        r is Ok ==> r->Ok_0@.len() == state@.len(),
        r is Err ==> r->Err_0 == AesError::Allocation,
{
    let mut out: Vec<ByteVar> = Vec::new();
    let mut i: usize = 0;
    while i < state.len()
        invariant
            i <= state@.len(),
            state@.len() == round_key@.len(),
            out@.len() == i,
            forall|j: int|
                0 <= j < i ==> byte_value(#[trigger] out@[j]) == (byte_value(state@[j])
                    ^ byte_value(round_key@[j])),
        decreases state@.len() - i,
    {
        let x = xor_pair(&state[i], &round_key[i])?;
        out.push(x);
        i += 1;
    }
    assert(values_of(out@) =~= spec_add_round_key(values_of(state@), values_of(round_key@)));
    Ok(out)
}

/// The key schedule in circuit: the 11 round keys of the witnessed secret
/// key, every expansion step expressed as substitution and XOR constraints.
pub fn derive_keys(secret_key: &Vec<ByteVar>, sbox_tbl: &LookupTable) -> (r: Result<
    Vec<Vec<ByteVar>>,
    AesError,
>)
    requires
        secret_key@.len() == 16,
        is_sbox_table(*sbox_tbl),
    ensures
        r is Ok ==> {
            &&& r->Ok_0@.len() == 11
            &&& forall|i: int|
                0 <= i < 11 ==> values_of(#[trigger] r->Ok_0@[i]@) == spec_round_key(
                    values_of(secret_key@),
                    i,
                )
            &&& forall|i: int| 0 <= i < 11 ==> (#[trigger] r->Ok_0@[i]@).len() == 16
        },
        r is Err ==> r->Err_0 == AesError::Allocation,
{
    let mut keys: Vec<Vec<ByteVar>> = Vec::new();
    let mut first: Vec<ByteVar> = Vec::new();
    let mut i0: usize = 0;
    while i0 < 16
        invariant
            i0 <= 16,
            secret_key@.len() == 16,
            first@.len() == i0,
            forall|j: int|
                0 <= j < i0 ==> byte_value(#[trigger] first@[j]) == byte_value(secret_key@[j]),
        decreases 16 - i0,
    {
        first.push(copy_byte(&secret_key[i0]));
        i0 += 1;
    }
    assert(values_of(first@) =~= values_of(secret_key@));
    keys.push(first);
    let mut i: usize = 1;
    while i <= 10
        invariant
            1 <= i <= 11,
            secret_key@.len() == 16,
            is_sbox_table(*sbox_tbl),
            keys@.len() == i,
            forall|j: int|
                0 <= j < i ==> values_of(#[trigger] keys@[j]@) == spec_round_key(
                    values_of(secret_key@),
                    j,
                ),
            forall|j: int| 0 <= j < i ==> (#[trigger] keys@[j]@).len() == 16,
        decreases 11 - i,
    {
        proof {
            lemma_round_key_len(values_of(secret_key@), i - 1 as int);
        }
        let rc = constant_byte(rcon(i));
        let s13 = sbox_tbl.lookup(&keys[i - 1][13])?;
        let s14 = sbox_tbl.lookup(&keys[i - 1][14])?;
        let s15 = sbox_tbl.lookup(&keys[i - 1][15])?;
        let s12 = sbox_tbl.lookup(&keys[i - 1][12])?;
        let t0 = xor_pair(&s13, &rc)?;
        let mut next: Vec<ByteVar> = Vec::new();
        let prev = &keys[i - 1];
        next.push(xor_pair(&prev[0], &t0)?);
        next.push(xor_pair(&prev[1], &s14)?);
        next.push(xor_pair(&prev[2], &s15)?);
        next.push(xor_pair(&prev[3], &s12)?);
        let n0 = xor_pair(&prev[4], &next[0])?;
        next.push(n0);
        let n1 = xor_pair(&prev[5], &next[1])?;
        next.push(n1);
        let n2 = xor_pair(&prev[6], &next[2])?;
        next.push(n2);
        let n3 = xor_pair(&prev[7], &next[3])?;
        next.push(n3);
        let n4 = xor_pair(&prev[8], &next[4])?;
        next.push(n4);
        let n5 = xor_pair(&prev[9], &next[5])?;
        next.push(n5);
        let n6 = xor_pair(&prev[10], &next[6])?;
        next.push(n6);
        let n7 = xor_pair(&prev[11], &next[7])?;
        next.push(n7);
        let n8 = xor_pair(&prev[12], &next[8])?;
        next.push(n8);
        let n9 = xor_pair(&prev[13], &next[9])?;
        next.push(n9);
        let n10 = xor_pair(&prev[14], &next[10])?;
        next.push(n10);
        let n11 = xor_pair(&prev[15], &next[11])?;
        next.push(n11);
        assert(values_of(next@) =~= spec_next_round_key(
            values_of(keys@[i - 1 as int]@),
            spec_rcon(i as int),
        ));
        keys.push(next);
        i += 1;
    }
    Ok(keys)
}

/// One block through the in-circuit round pipeline.
pub fn encrypt_block_vars(
    block: &Vec<ByteVar>,
    secret_key: &Vec<ByteVar>,
    round_keys: &Vec<Vec<ByteVar>>,
    sbox_tbl: &LookupTable,
    xt_tbl: &LookupTable,
) -> (r: Result<Vec<ByteVar>, AesError>)
    requires
        block@.len() == 16,
        secret_key@.len() == 16,
        round_keys@.len() == 11,
        forall|i: int|
            0 <= i < 11 ==> values_of(#[trigger] round_keys@[i]@) == spec_round_key(
                values_of(secret_key@),
                i,
            ),
        forall|i: int| 0 <= i < 11 ==> (#[trigger] round_keys@[i]@).len() == 16,
        is_sbox_table(*sbox_tbl),
        is_xtime_table(*xt_tbl),
    ensures
        r is Ok ==> values_of(r->Ok_0@) == spec_encrypt_block(
            values_of(block@),
            values_of(secret_key@),
        ),
        r is Ok ==> r->Ok_0@.len() == 16,
        r is Err ==> r->Err_0 == AesError::Allocation,
{
    let mut state = add_round_key(block, secret_key)?;
    let mut round: usize = 1;
    while round <= 10
        invariant
            1 <= round <= 11,
            block@.len() == 16,
            secret_key@.len() == 16,
            round_keys@.len() == 11,
            forall|i: int|
                0 <= i < 11 ==> values_of(#[trigger] round_keys@[i]@) == spec_round_key(
                    values_of(secret_key@),
                    i,
                ),
            forall|i: int| 0 <= i < 11 ==> (#[trigger] round_keys@[i]@).len() == 16,
            is_sbox_table(*sbox_tbl),
            is_xtime_table(*xt_tbl),
            values_of(state@) == spec_rounds(
                spec_add_round_key(values_of(block@), values_of(secret_key@)),
                values_of(secret_key@),
                round - 1,
            ),
            state@.len() == 16,
        decreases 11 - round,
    {
        proof {
            lemma_round_key_len(values_of(secret_key@), round as int);
        }
        let after_sub = substitute_bytes(&state, sbox_tbl)?;
        let after_shift = shift_rows(&after_sub);
        if round < 10 {
            let after_mix = mix_columns(&after_shift, xt_tbl)?;
            state = add_round_key(&after_mix, &round_keys[round])?;
        } else {
            state = add_round_key(&after_shift, &round_keys[round])?;
        }
        round += 1;
    }
    Ok(state)
}

/// The circuit assembler: wires the witnessed message and key through the key
/// schedule and the round pipeline, block by block, and reads the computed
/// ciphertext bytes back out of the circuit.
pub fn encrypt_and_generate_constraints(message: &Vec<ByteVar>, secret_key: &Vec<ByteVar>) -> (r:
    Result<Vec<u8>, AesError>)
    ensures
        r is Ok ==> {
            &&& message@.len() % 16 == 0
            &&& message@.len() > 0
            &&& secret_key@.len() == 16
            &&& r->Ok_0@ == spec_encrypt(values_of(message@), values_of(secret_key@))
        },
        r is Err && r->Err_0 == AesError::LengthMismatch <==> (message@.len() % 16 != 0
            || message@.len() == 0 || secret_key@.len() != 16),
{
    if message.len() == 0 || message.len() % 16 != 0 || secret_key.len() != 16 {
        return Err(AesError::LengthMismatch);
    }
    let sbox_tbl = sbox_table();
    let xt_tbl = xtime_table();
    let round_keys = derive_keys(secret_key, &sbox_tbl)?;
    let ghost messagev = values_of(message@);
    let ghost keyv = values_of(secret_key@);
    let mut ciphertext: Vec<u8> = Vec::new();
    let n = message.len();
    let mut off: usize = 0;
    while off < n
        invariant
            off <= message@.len(),
            n == message@.len(),
            message@.len() <= usize::MAX,
            off % 16 == 0,
            message@.len() % 16 == 0,
            message@.len() > 0,
            secret_key@.len() == 16,
            round_keys@.len() == 11,
            forall|i: int|
                0 <= i < 11 ==> values_of(#[trigger] round_keys@[i]@) == spec_round_key(keyv, i),
            forall|i: int| 0 <= i < 11 ==> (#[trigger] round_keys@[i]@).len() == 16,
            is_sbox_table(sbox_tbl),
            is_xtime_table(xt_tbl),
            messagev == values_of(message@),
            keyv == values_of(secret_key@),
            ciphertext@.len() == off,
            forall|j: int| 0 <= j < off ==> ciphertext@[j] == spec_encrypt(messagev, keyv)[j],
        decreases message@.len() - off,
    {
        proof {
            assert(off + 16 <= message@.len()) by (nonlinear_arith)
                requires
                    off % 16 == 0,
                    message@.len() % 16 == 0,
                    off < message@.len(),
                    0 <= off,
            ;
        }
        let mut block: Vec<ByteVar> = Vec::new();
        let mut j: usize = 0;
        while j < 16
            invariant
                j <= 16,
                off + 16 <= message@.len(),
                message@.len() <= usize::MAX,
                block@.len() == j,
                forall|t: int|
                    0 <= t < j ==> byte_value(#[trigger] block@[t]) == byte_value(
                        message@[off + t],
                    ),
            decreases 16 - j,
        {
            block.push(copy_byte(&message[off + j]));
            j += 1;
        }
        assert(values_of(block@) =~= messagev.subrange(off as int, off as int + 16));
        let cblock = encrypt_block_vars(&block, secret_key, &round_keys, &sbox_tbl, &xt_tbl)?;
        let mut j2: usize = 0;
        while j2 < 16
            invariant
                j2 <= 16,
                off + 16 <= message@.len(),
                message@.len() <= usize::MAX,
                message@.len() % 16 == 0,
                message@.len() > 0,
                secret_key@.len() == 16,
                values_of(cblock@) == spec_encrypt_block(
                    messagev.subrange(off as int, off as int + 16),
                    keyv,
                ),
                cblock@.len() == 16,
                ciphertext@.len() == off + j2,
                forall|j: int| 0 <= j < off ==> ciphertext@[j] == spec_encrypt(messagev, keyv)[j],
                forall|t: int|
                    off <= t < off + j2 ==> ciphertext@[t] == values_of(cblock@)[t - off],
            decreases 16 - j2,
        {
            let b = match byte_gadget_value(&cblock[j2]) {
                Ok(v) => v,
                Err(_) => {
                    return Err(AesError::Allocation);
                },
            };
            ciphertext.push(b);
            j2 += 1;
        }
        proof {
            lemma_block_of_encrypt(messagev, keyv, off as int);
        }
        off += 16;
    }
    assert(ciphertext@ =~= spec_encrypt(messagev, keyv));
    Ok(ciphertext)
}

} // verus!
