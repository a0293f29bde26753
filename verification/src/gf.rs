//! Multiplication in the Galois field GF(2^8) under the AES reducing
//! polynomial x^8 + x^4 + x^3 + x + 1.

use vstd::prelude::*;

verus! {

/// Doubling in GF(2^8): shift left and reduce by the AES polynomial
/// when the high bit falls out.
pub open spec fn xtime(a: u8) -> u8 {
    if a & 0x80 != 0 {
        (a << 1) ^ 0x1b
    } else {
        a << 1
    }
}

/// One run of the shift-and-add multiplier: after `n` remaining steps the
/// accumulator `p` holds the product contributions gathered so far.
pub open spec fn gmul_rec(p: u8, a: u8, b: u8, n: nat) -> u8
    decreases n,
{
    if n == 0 {
        p
    } else {
        let p2 = if b & 1 != 0 { p ^ a } else { p };
        gmul_rec(p2, xtime(a), b >> 1, (n - 1) as nat)
    }
}

/// The product of `a` and `b` in GF(2^8).
pub open spec fn gf_mul(a: u8, b: u8) -> u8 {
    gmul_rec(0, a, b, 8)
}

/// Multiplication in GF(2^8) by the 8-step shift-and-add algorithm.
pub fn gmul(a: u8, b: u8) -> (r: u8)
    ensures
        r == gf_mul(a, b),
{
    let mut p: u8 = 0;
    let mut a_high = a;
    let mut b_high = b;
    let mut i: usize = 0;
    while i < 8
        invariant
            i <= 8,
            gmul_rec(p, a_high, b_high, (8 - i) as nat) == gf_mul(a, b),
        decreases 8 - i,
    {
        if (b_high & 1) != 0 {
            p = p ^ a_high;
        }
        let hi_bit_set = (a_high & 0x80) != 0;
        a_high = a_high << 1;
        if hi_bit_set {
            a_high = a_high ^ 0x1b;
        }
        b_high = b_high >> 1;
        i = i + 1;
    }
    p
}

/// The shift-and-add multiplier is XOR-linear in its accumulator and its
/// second factor, step by step.
proof fn lemma_gmul_rec_linear(p1: u8, p2: u8, a: u8, b: u8, c: u8, n: nat)
    ensures
        gmul_rec(p1, a, b, n) ^ gmul_rec(p2, a, c, n) == gmul_rec(p1 ^ p2, a, b ^ c, n),
    decreases n,
{
    if n == 0 {
    } else {
        assert(((if b & 1 != 0 {
            p1 ^ a
        } else {
            p1
        }) ^ (if c & 1 != 0 {
            p2 ^ a
        } else {
            p2
        })) == (if (b ^ c) & 1 != 0 {
            (p1 ^ p2) ^ a
        } else {
            p1 ^ p2
        })) by (bit_vector);
        assert((b >> 1) ^ (c >> 1) == (b ^ c) >> 1) by (bit_vector);
        lemma_gmul_rec_linear(
            if b & 1 != 0 {
                p1 ^ a
            } else {
                p1
            },
            if c & 1 != 0 {
                p2 ^ a
            } else {
                p2
            },
            xtime(a),
            b >> 1,
            c >> 1,
            (n - 1) as nat,
        );
    }
}

/// Multiplication in GF(2^8) distributes over XOR in its second factor.
pub proof fn lemma_gf_mul_linear(a: u8, b: u8, c: u8)
    ensures
        gf_mul(a, b ^ c) == gf_mul(a, b) ^ gf_mul(a, c),
{
    assert(0u8 ^ 0u8 == 0u8) by (bit_vector);
    lemma_gmul_rec_linear(0, 0, a, b, c, 8);
}

/// Distribution of a GF(2^8) product over a four-term XOR.
pub proof fn lemma_gf_mul_linear4(a: u8, t0: u8, t1: u8, t2: u8, t3: u8)
    ensures
        gf_mul(a, ((t0 ^ t1) ^ t2) ^ t3) == ((gf_mul(a, t0) ^ gf_mul(a, t1)) ^ gf_mul(a, t2))
            ^ gf_mul(a, t3),
{
    lemma_gf_mul_linear(a, (t0 ^ t1) ^ t2, t3);
    lemma_gf_mul_linear(a, t0 ^ t1, t2);
    lemma_gf_mul_linear(a, t0, t1);
}

/// One is the multiplicative identity of GF(2^8).
pub proof fn lemma_gf_mul_one(x: u8)
    ensures
        gf_mul(1, x) == x,
{
    assert(x == (x & 1) ^ ((x & 2) ^ ((x & 4) ^ ((x & 8) ^ ((x & 0x10) ^ ((x & 0x20) ^ ((x & 0x40)
        ^ (x & 0x80)))))))) by (bit_vector);
    assert((x & 1 == 0 || x & 1 == 1) && (x & 2 == 0 || x & 2 == 2) && (x & 4 == 0 || x & 4 == 4)
        && (x & 8 == 0 || x & 8 == 8) && (x & 0x10 == 0 || x & 0x10 == 0x10) && (x & 0x20 == 0 || x
        & 0x20 == 0x20) && (x & 0x40 == 0 || x & 0x40 == 0x40) && (x & 0x80 == 0 || x & 0x80
        == 0x80)) by (bit_vector);
    assert(gf_mul(1, 0x00) == 0x00 && gf_mul(1, 0x01) == 0x01 && gf_mul(1, 0x02) == 0x02 && gf_mul(
        1,
        0x04,
    ) == 0x04 && gf_mul(1, 0x08) == 0x08 && gf_mul(1, 0x10) == 0x10 && gf_mul(1, 0x20) == 0x20
        && gf_mul(1, 0x40) == 0x40 && gf_mul(1, 0x80) == 0x80) by (bit_vector);
    lemma_gf_mul_linear(1, x & 1, (x & 2) ^ ((x & 4) ^ ((x & 8) ^ ((x & 0x10) ^ ((x & 0x20) ^ ((x
        & 0x40) ^ (x & 0x80)))))));
    lemma_gf_mul_linear(1, x & 2, (x & 4) ^ ((x & 8) ^ ((x & 0x10) ^ ((x & 0x20) ^ ((x & 0x40) ^ (x
        & 0x80))))));
    lemma_gf_mul_linear(1, x & 4, (x & 8) ^ ((x & 0x10) ^ ((x & 0x20) ^ ((x & 0x40) ^ (x & 0x80)))));
    lemma_gf_mul_linear(1, x & 8, (x & 0x10) ^ ((x & 0x20) ^ ((x & 0x40) ^ (x & 0x80))));
    lemma_gf_mul_linear(1, x & 0x10, (x & 0x20) ^ ((x & 0x40) ^ (x & 0x80)));
    lemma_gf_mul_linear(1, x & 0x20, (x & 0x40) ^ (x & 0x80));
    lemma_gf_mul_linear(1, x & 0x40, x & 0x80);
}

} // verus!
