//! The four AES round transformations, each a pure transformation of the
//! 16-byte state (a 4x4 byte matrix in column-major order: the byte at
//! row r, column c lives at offset c*4 + r).

use vstd::prelude::*;
use crate::gf::{gf_mul, gmul};
use crate::sbox::{SBOX, s_box};

verus! {

/// SubBytes: every state byte replaced by its S-box substitution.
pub open spec fn sub_bytes_spec(s: Seq<u8>) -> Seq<u8> {
    Seq::new(16, |i: int| s_box(s[i]))
}

/// The offset a state byte is read from under ShiftRows: row r of the
/// matrix is rotated left by r positions, so position (r, c) is filled
/// from column (c + r) mod 4 of the same row.
pub open spec fn shift_rows_src(i: int) -> int {
    ((i / 4 + i % 4) % 4) * 4 + i % 4
}

/// ShiftRows: row 0 unchanged, row r cyclically shifted left by r.
pub open spec fn shift_rows_spec(s: Seq<u8>) -> Seq<u8> {
    Seq::new(16, |i: int| s[shift_rows_src(i)])
}

/// One byte of the MixColumns image: the row of the fixed matrix
/// [[2,3,1,1],[1,2,3,1],[1,1,2,3],[3,1,1,2]] selected by the byte's row,
/// multiplied into its column over GF(2^8).
pub open spec fn mix_column_byte(s: Seq<u8>, i: int) -> u8 {
    let c = i / 4;
    let r = i % 4;
    let s0 = s[4 * c];
    let s1 = s[4 * c + 1];
    let s2 = s[4 * c + 2];
    let s3 = s[4 * c + 3];
    if r == 0 {
        gf_mul(0x02, s0) ^ gf_mul(0x03, s1) ^ s2 ^ s3
    } else if r == 1 {
        s0 ^ gf_mul(0x02, s1) ^ gf_mul(0x03, s2) ^ s3
    } else if r == 2 {
        s0 ^ s1 ^ gf_mul(0x02, s2) ^ gf_mul(0x03, s3)
    } else {
        gf_mul(0x03, s0) ^ s1 ^ s2 ^ gf_mul(0x02, s3)
    }
}

/// MixColumns: each column independently multiplied by the fixed matrix.
pub open spec fn mix_columns_spec(s: Seq<u8>) -> Seq<u8> {
    Seq::new(16, |i: int| mix_column_byte(s, i))
}

/// The byte of a schedule word at big-endian position `j` (0 is the most
/// significant byte).
pub open spec fn word_byte(w: u32, j: int) -> u8 {
    if j == 0 {
        (w >> 24) as u8
    } else if j == 1 {
        (w >> 16) as u8
    } else if j == 2 {
        (w >> 8) as u8
    } else {
        w as u8
    }
}

/// AddRoundKey for round `round`: column c of the state XORed with the
/// big-endian bytes of schedule word 4*round + c.
pub open spec fn add_round_key_spec(s: Seq<u8>, ws: Seq<u32>, round: int) -> Seq<u8> {
    Seq::new(16, |i: int| s[i] ^ word_byte(ws[4 * round + i / 4], i % 4))
}

/// Replaces every byte of the state with its S-box substitution.
pub fn sub_bytes(state: &mut [u8; 16])
    ensures
        final(state)@ == sub_bytes_spec(old(state)@),
{
    let mut i: usize = 0;
    while i < 16
        invariant
            i <= 16,
            forall|j: int| 0 <= j < i ==> state@[j] == s_box(old(state)@[j]),
            forall|j: int| i <= j < 16 ==> state@[j] == old(state)@[j],
        decreases 16 - i,
    {
        state[i] = SBOX[state[i] as usize];
        i = i + 1;
    }
    assert(state@ =~= sub_bytes_spec(old(state)@));
}

/// Cyclically shifts row r of the state left by r positions.
pub fn shift_rows(state: &mut [u8; 16])
    ensures
        final(state)@ == shift_rows_spec(old(state)@),
{
    let temp = state[1];
    state[1] = state[5];
    state[5] = state[9];
    state[9] = state[13];
    state[13] = temp;
    let temp1 = state[2];
    let temp2 = state[6];
    state[2] = state[10];
    state[6] = state[14];
    state[10] = temp1;
    state[14] = temp2;
    let temp = state[15];
    state[15] = state[11];
    state[11] = state[7];
    state[7] = state[3];
    state[3] = temp;
    assert(state@ =~= shift_rows_spec(old(state)@));
}

/// Multiplies each state column by the fixed MixColumns matrix, reading
/// every column from the original state via a scratch buffer.
pub fn mix_columns(state: &mut [u8; 16])
    ensures
        final(state)@ == mix_columns_spec(old(state)@),
{
    let mut tmp = [0u8; 16];
    let mut c: usize = 0;
    while c < 4
        invariant
            c <= 4,
            state@ == old(state)@,
            forall|j: int| 0 <= j < 4 * c ==> tmp@[j] == mix_column_byte(state@, j),
        decreases 4 - c,
    {
        let idx = c * 4;
        let s0 = state[idx];
        let s1 = state[idx + 1];
        let s2 = state[idx + 2];
        let s3 = state[idx + 3];
        tmp[idx] = gmul(0x02, s0) ^ gmul(0x03, s1) ^ s2 ^ s3;
        tmp[idx + 1] = s0 ^ gmul(0x02, s1) ^ gmul(0x03, s2) ^ s3;
        tmp[idx + 2] = s0 ^ s1 ^ gmul(0x02, s2) ^ gmul(0x03, s3);
        tmp[idx + 3] = gmul(0x03, s0) ^ s1 ^ s2 ^ gmul(0x02, s3);
        c = c + 1;
    }
    *state = tmp;
    assert(state@ =~= mix_columns_spec(old(state)@));
}

/// XORs each state column with its round-key word, the word's four bytes
/// unpacked big-endian down the column.
pub fn add_round_key(state: &mut [u8; 16], w: &Vec<u32>, round: usize)
    requires
        round <= 10,
        w@.len() == 44,
    ensures
        final(state)@ == add_round_key_spec(old(state)@, w@, round as int),
{
    let mut c: usize = 0;
    while c < 4
        invariant
            c <= 4,
            round <= 10,
            w@.len() == 44,
            forall|j: int|
                0 <= j < 4 * c ==> state@[j] == old(state)@[j] ^ word_byte(
                    w@[4 * (round as int) + j / 4],
                    j % 4,
                ),
            forall|j: int| 4 * c <= j < 16 ==> state@[j] == old(state)@[j],
        decreases 4 - c,
    {
        let word = w[round * 4 + c];
        let idx = c * 4;
        state[idx] = state[idx] ^ ((word >> 24) as u8);
        state[idx + 1] = state[idx + 1] ^ ((word >> 16) as u8);
        state[idx + 2] = state[idx + 2] ^ ((word >> 8) as u8);
        state[idx + 3] = state[idx + 3] ^ (word as u8);
        c = c + 1;
    }
    assert(state@ =~= add_round_key_spec(old(state)@, w@, round as int));
}

} // verus!
