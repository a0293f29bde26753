//! The inverse of MixColumns, an auxiliary transform used to validate the
//! GF(2^8) arithmetic: applying the inverse matrix to a mixed column gives
//! the original column back.

use vstd::prelude::*;
use crate::gf::{gf_mul, gmul};
use crate::transforms::{mix_column_byte, mix_columns_spec};

verus! {

/// One byte of the inverse MixColumns image: the row of the inverse matrix
/// [[14,11,13,9],[9,14,11,13],[13,9,14,11],[11,13,9,14]] selected by the
/// byte's row, multiplied into its column over GF(2^8).
pub open spec fn inv_mix_column_byte(s: Seq<u8>, i: int) -> u8 {
    let c = i / 4;
    let r = i % 4;
    let s0 = s[4 * c];
    let s1 = s[4 * c + 1];
    let s2 = s[4 * c + 2];
    let s3 = s[4 * c + 3];
    if r == 0 {
        gf_mul(0x0e, s0) ^ gf_mul(0x0b, s1) ^ gf_mul(0x0d, s2) ^ gf_mul(0x09, s3)
    } else if r == 1 {
        gf_mul(0x09, s0) ^ gf_mul(0x0e, s1) ^ gf_mul(0x0b, s2) ^ gf_mul(0x0d, s3)
    } else if r == 2 {
        gf_mul(0x0d, s0) ^ gf_mul(0x09, s1) ^ gf_mul(0x0e, s2) ^ gf_mul(0x0b, s3)
    } else {
        gf_mul(0x0b, s0) ^ gf_mul(0x0d, s1) ^ gf_mul(0x09, s2) ^ gf_mul(0x0e, s3)
    }
}

/// Inverse MixColumns: each column independently multiplied by the
/// inverse matrix.
pub open spec fn inv_mix_columns_spec(s: Seq<u8>) -> Seq<u8> {
    Seq::new(16, |i: int| inv_mix_column_byte(s, i))
}

/// Multiplies each state column by the inverse MixColumns matrix.
pub fn inv_mix_columns(state: &mut [u8; 16])
    ensures
        final(state)@ == inv_mix_columns_spec(old(state)@),
{
    let mut tmp = [0u8; 16];
    let mut c: usize = 0;
    while c < 4
        invariant
            c <= 4,
            state@ == old(state)@,
            forall|j: int| 0 <= j < 4 * c ==> tmp@[j] == inv_mix_column_byte(state@, j),
        decreases 4 - c,
    {
        let idx = c * 4;
        let s0 = state[idx];
        let s1 = state[idx + 1];
        let s2 = state[idx + 2];
        let s3 = state[idx + 3];
        tmp[idx] = gmul(0x0e, s0) ^ gmul(0x0b, s1) ^ gmul(0x0d, s2) ^ gmul(0x09, s3);
        tmp[idx + 1] = gmul(0x09, s0) ^ gmul(0x0e, s1) ^ gmul(0x0b, s2) ^ gmul(0x0d, s3);
        tmp[idx + 2] = gmul(0x0d, s0) ^ gmul(0x09, s1) ^ gmul(0x0e, s2) ^ gmul(0x0b, s3);
        tmp[idx + 3] = gmul(0x0b, s0) ^ gmul(0x0d, s1) ^ gmul(0x09, s2) ^ gmul(0x0e, s3);
        c = c + 1;
    }
    *state = tmp;
    assert(state@ =~= inv_mix_columns_spec(old(state)@));
}

/// The contribution of a single input byte `x` to one output byte of the
/// composite of two column matrices: entering through forward coefficients
/// `m0..m3` and leaving through inverse coefficients `e0..e3`.
pub open spec fn composite(
    e0: u8,
    e1: u8,
    e2: u8,
    e3: u8,
    m0: u8,
    m1: u8,
    m2: u8,
    m3: u8,
    x: u8,
) -> u8 {
    ((gf_mul(e0, gf_mul(m0, x)) ^ gf_mul(e1, gf_mul(m1, x))) ^ gf_mul(e2, gf_mul(m2, x))) ^ gf_mul(
        e3,
        gf_mul(m3, x),
    )
}

/// A composite channel is XOR-linear in the input byte.
proof fn lemma_composite_linear(
    e0: u8,
    e1: u8,
    e2: u8,
    e3: u8,
    m0: u8,
    m1: u8,
    m2: u8,
    m3: u8,
    b: u8,
    c: u8,
)
    ensures
        composite(e0, e1, e2, e3, m0, m1, m2, m3, b ^ c) == composite(
            e0,
            e1,
            e2,
            e3,
            m0,
            m1,
            m2,
            m3,
            b,
        ) ^ composite(e0, e1, e2, e3, m0, m1, m2, m3, c),
{
    crate::gf::lemma_gf_mul_linear(m0, b, c);
    crate::gf::lemma_gf_mul_linear(m1, b, c);
    crate::gf::lemma_gf_mul_linear(m2, b, c);
    crate::gf::lemma_gf_mul_linear(m3, b, c);
    crate::gf::lemma_gf_mul_linear(e0, gf_mul(m0, b), gf_mul(m0, c));
    crate::gf::lemma_gf_mul_linear(e1, gf_mul(m1, b), gf_mul(m1, c));
    crate::gf::lemma_gf_mul_linear(e2, gf_mul(m2, b), gf_mul(m2, c));
    crate::gf::lemma_gf_mul_linear(e3, gf_mul(m3, b), gf_mul(m3, c));
    let a0 = gf_mul(e0, gf_mul(m0, b));
    let a1 = gf_mul(e1, gf_mul(m1, b));
    let a2 = gf_mul(e2, gf_mul(m2, b));
    let a3 = gf_mul(e3, gf_mul(m3, b));
    let c0 = gf_mul(e0, gf_mul(m0, c));
    let c1 = gf_mul(e1, gf_mul(m1, c));
    let c2 = gf_mul(e2, gf_mul(m2, c));
    let c3 = gf_mul(e3, gf_mul(m3, c));
    assert((((a0 ^ c0) ^ (a1 ^ c1)) ^ (a2 ^ c2)) ^ (a3 ^ c3) == (((a0 ^ a1) ^ a2) ^ a3) ^ (((c0
        ^ c1) ^ c2) ^ c3)) by (bit_vector);
}

/// A linear channel that fixes zero and every power of two fixes every byte.
proof fn lemma_composite_identity(
    e0: u8,
    e1: u8,
    e2: u8,
    e3: u8,
    m0: u8,
    m1: u8,
    m2: u8,
    m3: u8,
    x: u8,
)
    requires
        composite(e0, e1, e2, e3, m0, m1, m2, m3, 0x00) == 0x00,
        composite(e0, e1, e2, e3, m0, m1, m2, m3, 0x01) == 0x01,
        composite(e0, e1, e2, e3, m0, m1, m2, m3, 0x02) == 0x02,
        composite(e0, e1, e2, e3, m0, m1, m2, m3, 0x04) == 0x04,
        composite(e0, e1, e2, e3, m0, m1, m2, m3, 0x08) == 0x08,
        composite(e0, e1, e2, e3, m0, m1, m2, m3, 0x10) == 0x10,
        composite(e0, e1, e2, e3, m0, m1, m2, m3, 0x20) == 0x20,
        composite(e0, e1, e2, e3, m0, m1, m2, m3, 0x40) == 0x40,
        composite(e0, e1, e2, e3, m0, m1, m2, m3, 0x80) == 0x80,
    ensures
        composite(e0, e1, e2, e3, m0, m1, m2, m3, x) == x,
{
    assert(x == (x & 1) ^ ((x & 2) ^ ((x & 4) ^ ((x & 8) ^ ((x & 0x10) ^ ((x & 0x20) ^ ((x & 0x40)
        ^ (x & 0x80)))))))) by (bit_vector);
    assert((x & 1 == 0 || x & 1 == 1) && (x & 2 == 0 || x & 2 == 2) && (x & 4 == 0 || x & 4 == 4)
        && (x & 8 == 0 || x & 8 == 8) && (x & 0x10 == 0 || x & 0x10 == 0x10) && (x & 0x20 == 0 || x
        & 0x20 == 0x20) && (x & 0x40 == 0 || x & 0x40 == 0x40) && (x & 0x80 == 0 || x & 0x80
        == 0x80)) by (bit_vector);
    lemma_composite_linear(e0, e1, e2, e3, m0, m1, m2, m3, x & 1, (x & 2) ^ ((x & 4) ^ ((x & 8) ^ ((
    x & 0x10) ^ ((x & 0x20) ^ ((x & 0x40) ^ (x & 0x80)))))));
    lemma_composite_linear(e0, e1, e2, e3, m0, m1, m2, m3, x & 2, (x & 4) ^ ((x & 8) ^ ((x & 0x10)
        ^ ((x & 0x20) ^ ((x & 0x40) ^ (x & 0x80))))));
    lemma_composite_linear(e0, e1, e2, e3, m0, m1, m2, m3, x & 4, (x & 8) ^ ((x & 0x10) ^ ((x
        & 0x20) ^ ((x & 0x40) ^ (x & 0x80)))));
    lemma_composite_linear(e0, e1, e2, e3, m0, m1, m2, m3, x & 8, (x & 0x10) ^ ((x & 0x20) ^ ((x
        & 0x40) ^ (x & 0x80))));
    lemma_composite_linear(e0, e1, e2, e3, m0, m1, m2, m3, x & 0x10, (x & 0x20) ^ ((x & 0x40) ^ (x
        & 0x80)));
    lemma_composite_linear(e0, e1, e2, e3, m0, m1, m2, m3, x & 0x20, (x & 0x40) ^ (x & 0x80));
    lemma_composite_linear(e0, e1, e2, e3, m0, m1, m2, m3, x & 0x40, x & 0x80);
}

/// A linear channel that sends zero and every power of two to zero sends
/// every byte to zero.
proof fn lemma_composite_zero(
    e0: u8,
    e1: u8,
    e2: u8,
    e3: u8,
    m0: u8,
    m1: u8,
    m2: u8,
    m3: u8,
    x: u8,
)
    requires
        composite(e0, e1, e2, e3, m0, m1, m2, m3, 0x00) == 0x00,
        composite(e0, e1, e2, e3, m0, m1, m2, m3, 0x01) == 0x00,
        composite(e0, e1, e2, e3, m0, m1, m2, m3, 0x02) == 0x00,
        composite(e0, e1, e2, e3, m0, m1, m2, m3, 0x04) == 0x00,
        composite(e0, e1, e2, e3, m0, m1, m2, m3, 0x08) == 0x00,
        composite(e0, e1, e2, e3, m0, m1, m2, m3, 0x10) == 0x00,
        composite(e0, e1, e2, e3, m0, m1, m2, m3, 0x20) == 0x00,
        composite(e0, e1, e2, e3, m0, m1, m2, m3, 0x40) == 0x00,
        composite(e0, e1, e2, e3, m0, m1, m2, m3, 0x80) == 0x00,
    ensures
        composite(e0, e1, e2, e3, m0, m1, m2, m3, x) == 0x00,
{
    assert(x == (x & 1) ^ ((x & 2) ^ ((x & 4) ^ ((x & 8) ^ ((x & 0x10) ^ ((x & 0x20) ^ ((x & 0x40)
        ^ (x & 0x80)))))))) by (bit_vector);
    assert((x & 1 == 0 || x & 1 == 1) && (x & 2 == 0 || x & 2 == 2) && (x & 4 == 0 || x & 4 == 4)
        && (x & 8 == 0 || x & 8 == 8) && (x & 0x10 == 0 || x & 0x10 == 0x10) && (x & 0x20 == 0 || x
        & 0x20 == 0x20) && (x & 0x40 == 0 || x & 0x40 == 0x40) && (x & 0x80 == 0 || x & 0x80
        == 0x80)) by (bit_vector);
    assert(0u8 ^ 0u8 == 0u8) by (bit_vector);
    lemma_composite_linear(e0, e1, e2, e3, m0, m1, m2, m3, x & 1, (x & 2) ^ ((x & 4) ^ ((x & 8) ^ ((
    x & 0x10) ^ ((x & 0x20) ^ ((x & 0x40) ^ (x & 0x80)))))));
    lemma_composite_linear(e0, e1, e2, e3, m0, m1, m2, m3, x & 2, (x & 4) ^ ((x & 8) ^ ((x & 0x10)
        ^ ((x & 0x20) ^ ((x & 0x40) ^ (x & 0x80))))));
    lemma_composite_linear(e0, e1, e2, e3, m0, m1, m2, m3, x & 4, (x & 8) ^ ((x & 0x10) ^ ((x
        & 0x20) ^ ((x & 0x40) ^ (x & 0x80)))));
    lemma_composite_linear(e0, e1, e2, e3, m0, m1, m2, m3, x & 8, (x & 0x10) ^ ((x & 0x20) ^ ((x
        & 0x40) ^ (x & 0x80))));
    lemma_composite_linear(e0, e1, e2, e3, m0, m1, m2, m3, x & 0x10, (x & 0x20) ^ ((x & 0x40) ^ (x
        & 0x80)));
    lemma_composite_linear(e0, e1, e2, e3, m0, m1, m2, m3, x & 0x20, (x & 0x40) ^ (x & 0x80));
    lemma_composite_linear(e0, e1, e2, e3, m0, m1, m2, m3, x & 0x40, x & 0x80);
}

/// Rotating a channel's four coefficient pairs in step leaves its value
/// unchanged: XOR does not care about the order of the terms.
proof fn lemma_composite_rotate(
    e0: u8,
    e1: u8,
    e2: u8,
    e3: u8,
    m0: u8,
    m1: u8,
    m2: u8,
    m3: u8,
    x: u8,
)
    ensures
        composite(e0, e1, e2, e3, m0, m1, m2, m3, x) == composite(e1, e2, e3, e0, m1, m2, m3, m0, x),
{
    let t0 = gf_mul(e0, gf_mul(m0, x));
    let t1 = gf_mul(e1, gf_mul(m1, x));
    let t2 = gf_mul(e2, gf_mul(m2, x));
    let t3 = gf_mul(e3, gf_mul(m3, x));
    assert(((t0 ^ t1) ^ t2) ^ t3 == ((t1 ^ t2) ^ t3) ^ t0) by (bit_vector);
}

/// The diagonal channel of the inverse matrix against the forward matrix
/// is the identity on bytes.
proof fn lemma_cell_same(x: u8)
    ensures
        composite(0x0e, 0x0b, 0x0d, 0x09, 0x02, 0x01, 0x01, 0x03, x) == x,
{
    assert(composite(0x0e, 0x0b, 0x0d, 0x09, 0x02, 0x01, 0x01, 0x03, 0x00) == 0x00 && composite(
        0x0e, 0x0b, 0x0d, 0x09, 0x02, 0x01, 0x01, 0x03, 0x01) == 0x01 && composite(0x0e, 0x0b,
        0x0d, 0x09, 0x02, 0x01, 0x01, 0x03, 0x02) == 0x02 && composite(0x0e, 0x0b, 0x0d, 0x09,
        0x02, 0x01, 0x01, 0x03, 0x04) == 0x04 && composite(0x0e, 0x0b, 0x0d, 0x09, 0x02, 0x01,
        0x01, 0x03, 0x08) == 0x08 && composite(0x0e, 0x0b, 0x0d, 0x09, 0x02, 0x01, 0x01, 0x03,
        0x10) == 0x10 && composite(0x0e, 0x0b, 0x0d, 0x09, 0x02, 0x01, 0x01, 0x03, 0x20) == 0x20
        && composite(0x0e, 0x0b, 0x0d, 0x09, 0x02, 0x01, 0x01, 0x03, 0x40) == 0x40 && composite(
        0x0e, 0x0b, 0x0d, 0x09, 0x02, 0x01, 0x01, 0x03, 0x80) == 0x80) by (bit_vector);
    lemma_composite_identity(0x0e, 0x0b, 0x0d, 0x09, 0x02, 0x01, 0x01, 0x03, x);
}

/// An off-diagonal channel one column over vanishes on every byte.
proof fn lemma_cell_next1(x: u8)
    ensures
        composite(0x0e, 0x0b, 0x0d, 0x09, 0x03, 0x02, 0x01, 0x01, x) == 0x00,
{
    assert(composite(0x0e, 0x0b, 0x0d, 0x09, 0x03, 0x02, 0x01, 0x01, 0x00) == 0x00 && composite(
        0x0e, 0x0b, 0x0d, 0x09, 0x03, 0x02, 0x01, 0x01, 0x01) == 0x00 && composite(0x0e, 0x0b,
        0x0d, 0x09, 0x03, 0x02, 0x01, 0x01, 0x02) == 0x00 && composite(0x0e, 0x0b, 0x0d, 0x09,
        0x03, 0x02, 0x01, 0x01, 0x04) == 0x00 && composite(0x0e, 0x0b, 0x0d, 0x09, 0x03, 0x02,
        0x01, 0x01, 0x08) == 0x00 && composite(0x0e, 0x0b, 0x0d, 0x09, 0x03, 0x02, 0x01, 0x01,
        0x10) == 0x00 && composite(0x0e, 0x0b, 0x0d, 0x09, 0x03, 0x02, 0x01, 0x01, 0x20) == 0x00
        && composite(0x0e, 0x0b, 0x0d, 0x09, 0x03, 0x02, 0x01, 0x01, 0x40) == 0x00 && composite(
        0x0e, 0x0b, 0x0d, 0x09, 0x03, 0x02, 0x01, 0x01, 0x80) == 0x00) by (bit_vector);
    lemma_composite_zero(0x0e, 0x0b, 0x0d, 0x09, 0x03, 0x02, 0x01, 0x01, x);
}

/// An off-diagonal channel two columns over vanishes on every byte.
proof fn lemma_cell_next2(x: u8)
    ensures
        composite(0x0e, 0x0b, 0x0d, 0x09, 0x01, 0x03, 0x02, 0x01, x) == 0x00,
{
    assert(composite(0x0e, 0x0b, 0x0d, 0x09, 0x01, 0x03, 0x02, 0x01, 0x00) == 0x00 && composite(
        0x0e, 0x0b, 0x0d, 0x09, 0x01, 0x03, 0x02, 0x01, 0x01) == 0x00 && composite(0x0e, 0x0b,
        0x0d, 0x09, 0x01, 0x03, 0x02, 0x01, 0x02) == 0x00 && composite(0x0e, 0x0b, 0x0d, 0x09,
        0x01, 0x03, 0x02, 0x01, 0x04) == 0x00 && composite(0x0e, 0x0b, 0x0d, 0x09, 0x01, 0x03,
        0x02, 0x01, 0x08) == 0x00 && composite(0x0e, 0x0b, 0x0d, 0x09, 0x01, 0x03, 0x02, 0x01,
        0x10) == 0x00 && composite(0x0e, 0x0b, 0x0d, 0x09, 0x01, 0x03, 0x02, 0x01, 0x20) == 0x00
        && composite(0x0e, 0x0b, 0x0d, 0x09, 0x01, 0x03, 0x02, 0x01, 0x40) == 0x00 && composite(
        0x0e, 0x0b, 0x0d, 0x09, 0x01, 0x03, 0x02, 0x01, 0x80) == 0x00) by (bit_vector);
    lemma_composite_zero(0x0e, 0x0b, 0x0d, 0x09, 0x01, 0x03, 0x02, 0x01, x);
}

/// An off-diagonal channel three columns over vanishes on every byte.
proof fn lemma_cell_next3(x: u8)
    ensures
        composite(0x0e, 0x0b, 0x0d, 0x09, 0x01, 0x01, 0x03, 0x02, x) == 0x00,
{
    assert(composite(0x0e, 0x0b, 0x0d, 0x09, 0x01, 0x01, 0x03, 0x02, 0x00) == 0x00 && composite(
        0x0e, 0x0b, 0x0d, 0x09, 0x01, 0x01, 0x03, 0x02, 0x01) == 0x00 && composite(0x0e, 0x0b,
        0x0d, 0x09, 0x01, 0x01, 0x03, 0x02, 0x02) == 0x00 && composite(0x0e, 0x0b, 0x0d, 0x09,
        0x01, 0x01, 0x03, 0x02, 0x04) == 0x00 && composite(0x0e, 0x0b, 0x0d, 0x09, 0x01, 0x01,
        0x03, 0x02, 0x08) == 0x00 && composite(0x0e, 0x0b, 0x0d, 0x09, 0x01, 0x01, 0x03, 0x02,
        0x10) == 0x00 && composite(0x0e, 0x0b, 0x0d, 0x09, 0x01, 0x01, 0x03, 0x02, 0x20) == 0x00
        && composite(0x0e, 0x0b, 0x0d, 0x09, 0x01, 0x01, 0x03, 0x02, 0x40) == 0x00 && composite(
        0x0e, 0x0b, 0x0d, 0x09, 0x01, 0x01, 0x03, 0x02, 0x80) == 0x00) by (bit_vector);
    lemma_composite_zero(0x0e, 0x0b, 0x0d, 0x09, 0x01, 0x01, 0x03, 0x02, x);
}

/// Regrouping a four-by-four XOR of bytes from row-major to column-major.
proof fn lemma_xor_regroup(
    g00: u8, g01: u8, g02: u8, g03: u8,
    g10: u8, g11: u8, g12: u8, g13: u8,
    g20: u8, g21: u8, g22: u8, g23: u8,
    g30: u8, g31: u8, g32: u8, g33: u8,
)
    ensures
        (((((g00 ^ g01) ^ g02) ^ g03) ^ (((g10 ^ g11) ^ g12) ^ g13)) ^ (((g20 ^ g21) ^ g22) ^ g23))
            ^ (((g30 ^ g31) ^ g32) ^ g33) == (((((g00 ^ g10) ^ g20) ^ g30) ^ (((g01 ^ g11) ^ g21)
            ^ g31)) ^ (((g02 ^ g12) ^ g22) ^ g32)) ^ (((g03 ^ g13) ^ g23) ^ g33),
{
    assert((((((g00 ^ g01) ^ g02) ^ g03) ^ (((g10 ^ g11) ^ g12) ^ g13)) ^ (((g20 ^ g21) ^ g22)
        ^ g23)) ^ (((g30 ^ g31) ^ g32) ^ g33) == (((((g00 ^ g10) ^ g20) ^ g30) ^ (((g01 ^ g11)
        ^ g21) ^ g31)) ^ (((g02 ^ g12) ^ g22) ^ g32)) ^ (((g03 ^ g13) ^ g23) ^ g33))
        by (bit_vector);
}

/// XOR with zero terms in each of the four positions.
proof fn lemma_xor_zeros(y: u8)
    ensures
        ((y ^ 0u8) ^ 0u8) ^ 0u8 == y,
        ((0u8 ^ y) ^ 0u8) ^ 0u8 == y,
        ((0u8 ^ 0u8) ^ y) ^ 0u8 == y,
        ((0u8 ^ 0u8) ^ 0u8) ^ y == y,
{
    assert(((y ^ 0u8) ^ 0u8) ^ 0u8 == y && ((0u8 ^ y) ^ 0u8) ^ 0u8 == y && ((0u8 ^ 0u8) ^ y) ^ 0u8
        == y && ((0u8 ^ 0u8) ^ 0u8) ^ y == y) by (bit_vector);
}

/// Applying the inverse MixColumns matrix to a column already multiplied
/// by the forward matrix returns the original column, row by row: the two
/// matrices are inverses over GF(2^8).
pub proof fn lemma_inv_mix_column(s0: u8, s1: u8, s2: u8, s3: u8)
    ensures
        ((gf_mul(0x0e, ((gf_mul(0x02, s0) ^ gf_mul(0x03, s1)) ^ s2) ^ s3) ^ gf_mul(
            0x0b,
            ((s0 ^ gf_mul(0x02, s1)) ^ gf_mul(0x03, s2)) ^ s3,
        )) ^ gf_mul(0x0d, ((s0 ^ s1) ^ gf_mul(0x02, s2)) ^ gf_mul(0x03, s3))) ^ gf_mul(
            0x09,
            ((gf_mul(0x03, s0) ^ s1) ^ s2) ^ gf_mul(0x02, s3),
        ) == s0,
        ((gf_mul(0x09, ((gf_mul(0x02, s0) ^ gf_mul(0x03, s1)) ^ s2) ^ s3) ^ gf_mul(
            0x0e,
            ((s0 ^ gf_mul(0x02, s1)) ^ gf_mul(0x03, s2)) ^ s3,
        )) ^ gf_mul(0x0b, ((s0 ^ s1) ^ gf_mul(0x02, s2)) ^ gf_mul(0x03, s3))) ^ gf_mul(
            0x0d,
            ((gf_mul(0x03, s0) ^ s1) ^ s2) ^ gf_mul(0x02, s3),
        ) == s1,
        ((gf_mul(0x0d, ((gf_mul(0x02, s0) ^ gf_mul(0x03, s1)) ^ s2) ^ s3) ^ gf_mul(
            0x09,
            ((s0 ^ gf_mul(0x02, s1)) ^ gf_mul(0x03, s2)) ^ s3,
        )) ^ gf_mul(0x0e, ((s0 ^ s1) ^ gf_mul(0x02, s2)) ^ gf_mul(0x03, s3))) ^ gf_mul(
            0x0b,
            ((gf_mul(0x03, s0) ^ s1) ^ s2) ^ gf_mul(0x02, s3),
        ) == s2,
        ((gf_mul(0x0b, ((gf_mul(0x02, s0) ^ gf_mul(0x03, s1)) ^ s2) ^ s3) ^ gf_mul(
            0x0d,
            ((s0 ^ gf_mul(0x02, s1)) ^ gf_mul(0x03, s2)) ^ s3,
        )) ^ gf_mul(0x09, ((s0 ^ s1) ^ gf_mul(0x02, s2)) ^ gf_mul(0x03, s3))) ^ gf_mul(
            0x0e,
            ((gf_mul(0x03, s0) ^ s1) ^ s2) ^ gf_mul(0x02, s3),
        ) == s3,
{
    crate::gf::lemma_gf_mul_one(s0);
    crate::gf::lemma_gf_mul_one(s1);
    crate::gf::lemma_gf_mul_one(s2);
    crate::gf::lemma_gf_mul_one(s3);
    lemma_xor_zeros(s0);
    lemma_xor_zeros(s1);
    lemma_xor_zeros(s2);
    lemma_xor_zeros(s3);
    lemma_inv_mix_row(0x0e, 0x0b, 0x0d, 0x09, s0, s1, s2, s3);
    lemma_inv_mix_row(0x09, 0x0e, 0x0b, 0x0d, s0, s1, s2, s3);
    lemma_inv_mix_row(0x0d, 0x09, 0x0e, 0x0b, s0, s1, s2, s3);
    lemma_inv_mix_row(0x0b, 0x0d, 0x09, 0x0e, s0, s1, s2, s3);
    lemma_cell_same(s0);
    lemma_cell_next1(s1);
    lemma_cell_next2(s2);
    lemma_cell_next3(s3);
    lemma_composite_rotate(0x09, 0x0e, 0x0b, 0x0d, 0x02, 0x01, 0x01, 0x03, s0);
    lemma_cell_next3(s0);
    lemma_composite_rotate(0x09, 0x0e, 0x0b, 0x0d, 0x03, 0x02, 0x01, 0x01, s1);
    lemma_cell_same(s1);
    lemma_composite_rotate(0x09, 0x0e, 0x0b, 0x0d, 0x01, 0x03, 0x02, 0x01, s2);
    lemma_cell_next1(s2);
    lemma_composite_rotate(0x09, 0x0e, 0x0b, 0x0d, 0x01, 0x01, 0x03, 0x02, s3);
    lemma_cell_next2(s3);
    lemma_composite_rotate(0x0d, 0x09, 0x0e, 0x0b, 0x02, 0x01, 0x01, 0x03, s0);
    lemma_composite_rotate(0x09, 0x0e, 0x0b, 0x0d, 0x01, 0x01, 0x03, 0x02, s0);
    lemma_cell_next2(s0);
    lemma_composite_rotate(0x0d, 0x09, 0x0e, 0x0b, 0x03, 0x02, 0x01, 0x01, s1);
    lemma_composite_rotate(0x09, 0x0e, 0x0b, 0x0d, 0x02, 0x01, 0x01, 0x03, s1);
    lemma_cell_next3(s1);
    lemma_composite_rotate(0x0d, 0x09, 0x0e, 0x0b, 0x01, 0x03, 0x02, 0x01, s2);
    lemma_composite_rotate(0x09, 0x0e, 0x0b, 0x0d, 0x03, 0x02, 0x01, 0x01, s2);
    lemma_cell_same(s2);
    lemma_composite_rotate(0x0d, 0x09, 0x0e, 0x0b, 0x01, 0x01, 0x03, 0x02, s3);
    lemma_composite_rotate(0x09, 0x0e, 0x0b, 0x0d, 0x01, 0x03, 0x02, 0x01, s3);
    lemma_cell_next1(s3);
    lemma_composite_rotate(0x0b, 0x0d, 0x09, 0x0e, 0x02, 0x01, 0x01, 0x03, s0);
    lemma_composite_rotate(0x0d, 0x09, 0x0e, 0x0b, 0x01, 0x01, 0x03, 0x02, s0);
    lemma_composite_rotate(0x09, 0x0e, 0x0b, 0x0d, 0x01, 0x03, 0x02, 0x01, s0);
    lemma_cell_next1(s0);
    lemma_composite_rotate(0x0b, 0x0d, 0x09, 0x0e, 0x03, 0x02, 0x01, 0x01, s1);
    lemma_composite_rotate(0x0d, 0x09, 0x0e, 0x0b, 0x02, 0x01, 0x01, 0x03, s1);
    lemma_composite_rotate(0x09, 0x0e, 0x0b, 0x0d, 0x01, 0x01, 0x03, 0x02, s1);
    lemma_cell_next2(s1);
    lemma_composite_rotate(0x0b, 0x0d, 0x09, 0x0e, 0x01, 0x03, 0x02, 0x01, s2);
    lemma_composite_rotate(0x0d, 0x09, 0x0e, 0x0b, 0x03, 0x02, 0x01, 0x01, s2);
    lemma_composite_rotate(0x09, 0x0e, 0x0b, 0x0d, 0x02, 0x01, 0x01, 0x03, s2);
    lemma_cell_next3(s2);
    lemma_composite_rotate(0x0b, 0x0d, 0x09, 0x0e, 0x01, 0x01, 0x03, 0x02, s3);
    lemma_composite_rotate(0x0d, 0x09, 0x0e, 0x0b, 0x01, 0x03, 0x02, 0x01, s3);
    lemma_composite_rotate(0x09, 0x0e, 0x0b, 0x0d, 0x03, 0x02, 0x01, 0x01, s3);
    lemma_cell_same(s3);
}

/// Applying MixColumns and then its inverse returns the original state:
/// the two matrices are inverses over GF(2^8), so the auxiliary inverse
/// transform undoes the forward one on every 16-byte state.
pub proof fn lemma_mix_columns_involution(s: Seq<u8>)
    requires
        s.len() == 16,
    ensures
        inv_mix_columns_spec(mix_columns_spec(s)) == s,
{
    let m = mix_columns_spec(s);
    lemma_inv_mix_column(s[0], s[1], s[2], s[3]);
    lemma_inv_mix_column(s[4], s[5], s[6], s[7]);
    lemma_inv_mix_column(s[8], s[9], s[10], s[11]);
    lemma_inv_mix_column(s[12], s[13], s[14], s[15]);
    assert forall|i: int| 0 <= i < 16 implies inv_mix_columns_spec(m)[i] == s[i] by {
        if i == 0 {
            assert(inv_mix_columns_spec(m)[0] == s[0]);
        } else if i == 1 {
            assert(inv_mix_columns_spec(m)[1] == s[1]);
        } else if i == 2 {
            assert(inv_mix_columns_spec(m)[2] == s[2]);
        } else if i == 3 {
            assert(inv_mix_columns_spec(m)[3] == s[3]);
        } else if i == 4 {
            assert(inv_mix_columns_spec(m)[4] == s[4]);
        } else if i == 5 {
            assert(inv_mix_columns_spec(m)[5] == s[5]);
        } else if i == 6 {
            assert(inv_mix_columns_spec(m)[6] == s[6]);
        } else if i == 7 {
            assert(inv_mix_columns_spec(m)[7] == s[7]);
        } else if i == 8 {
            assert(inv_mix_columns_spec(m)[8] == s[8]);
        } else if i == 9 {
            assert(inv_mix_columns_spec(m)[9] == s[9]);
        } else if i == 10 {
            assert(inv_mix_columns_spec(m)[10] == s[10]);
        } else if i == 11 {
            assert(inv_mix_columns_spec(m)[11] == s[11]);
        } else if i == 12 {
            assert(inv_mix_columns_spec(m)[12] == s[12]);
        } else if i == 13 {
            assert(inv_mix_columns_spec(m)[13] == s[13]);
        } else if i == 14 {
            assert(inv_mix_columns_spec(m)[14] == s[14]);
        } else {
            assert(inv_mix_columns_spec(m)[15] == s[15]);
        }
    }
    assert(inv_mix_columns_spec(m) =~= s);
}

/// One row of the inverse matrix applied to the four forward-mixed rows,
/// expanded product by product and regrouped by input byte.
proof fn lemma_inv_mix_row(e0: u8, e1: u8, e2: u8, e3: u8, s0: u8, s1: u8, s2: u8, s3: u8)
    ensures
        ((gf_mul(e0, ((gf_mul(0x02, s0) ^ gf_mul(0x03, s1)) ^ s2) ^ s3) ^ gf_mul(
            e1,
            ((s0 ^ gf_mul(0x02, s1)) ^ gf_mul(0x03, s2)) ^ s3,
        )) ^ gf_mul(e2, ((s0 ^ s1) ^ gf_mul(0x02, s2)) ^ gf_mul(0x03, s3))) ^ gf_mul(
            e3,
            ((gf_mul(0x03, s0) ^ s1) ^ s2) ^ gf_mul(0x02, s3),
        ) == (((composite(e0, e1, e2, e3, 0x02, 0x01, 0x01, 0x03, s0) ^ composite(
            e0,
            e1,
            e2,
            e3,
            0x03,
            0x02,
            0x01,
            0x01,
            s1,
        )) ^ composite(e0, e1, e2, e3, 0x01, 0x03, 0x02, 0x01, s2)) ^ composite(
            e0,
            e1,
            e2,
            e3,
            0x01,
            0x01,
            0x03,
            0x02,
            s3,
        )),
{
    crate::gf::lemma_gf_mul_one(s0);
    crate::gf::lemma_gf_mul_one(s1);
    crate::gf::lemma_gf_mul_one(s2);
    crate::gf::lemma_gf_mul_one(s3);
    crate::gf::lemma_gf_mul_linear4(e0, gf_mul(0x02, s0), gf_mul(0x03, s1), gf_mul(0x01, s2),
        gf_mul(0x01, s3));
    crate::gf::lemma_gf_mul_linear4(e1, gf_mul(0x01, s0), gf_mul(0x02, s1), gf_mul(0x03, s2),
        gf_mul(0x01, s3));
    crate::gf::lemma_gf_mul_linear4(e2, gf_mul(0x01, s0), gf_mul(0x01, s1), gf_mul(0x02, s2),
        gf_mul(0x03, s3));
    crate::gf::lemma_gf_mul_linear4(e3, gf_mul(0x03, s0), gf_mul(0x01, s1), gf_mul(0x01, s2),
        gf_mul(0x02, s3));
    lemma_xor_regroup(
        gf_mul(e0, gf_mul(0x02, s0)), gf_mul(e0, gf_mul(0x03, s1)), gf_mul(e0, gf_mul(0x01, s2)),
        gf_mul(e0, gf_mul(0x01, s3)),
        gf_mul(e1, gf_mul(0x01, s0)), gf_mul(e1, gf_mul(0x02, s1)), gf_mul(e1, gf_mul(0x03, s2)),
        gf_mul(e1, gf_mul(0x01, s3)),
        gf_mul(e2, gf_mul(0x01, s0)), gf_mul(e2, gf_mul(0x01, s1)), gf_mul(e2, gf_mul(0x02, s2)),
        gf_mul(e2, gf_mul(0x03, s3)),
        gf_mul(e3, gf_mul(0x03, s0)), gf_mul(e3, gf_mul(0x01, s1)), gf_mul(e3, gf_mul(0x01, s2)),
        gf_mul(e3, gf_mul(0x02, s3)),
    );
}

} // verus!
