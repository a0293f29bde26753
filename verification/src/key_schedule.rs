//! The AES-128 key schedule: expansion of a 16-byte key into the
//! 44-word round-key sequence.

use vstd::prelude::*;
use crate::sbox::{SBOX, s_box};

verus! {

/// The round constants: each is the GF(2^8) double of the previous,
/// reduced by the AES polynomial.
pub const RCON: [u8; 10] = [0x01, 0x02, 0x04, 0x08, 0x10, 0x20, 0x40, 0x80, 0x1b, 0x36];

/// A key-schedule word packs four bytes big-endian: the most significant
/// byte is the first byte of the column.
pub open spec fn word_of_bytes(b0: u8, b1: u8, b2: u8, b3: u8) -> u32 {
    ((b0 as u32) << 24) | ((b1 as u32) << 16) | ((b2 as u32) << 8) | (b3 as u32)
}

/// SubWord: the S-box applied to each of the word's four bytes.
pub open spec fn sub_word_spec(word: u32) -> u32 {
    word_of_bytes(
        s_box((word >> 24) as u8),
        s_box((word >> 16) as u8),
        s_box((word >> 8) as u8),
        s_box(word as u8),
    )
}

/// RotWord: rotate the word left by one byte, the top byte moving to the bottom.
pub open spec fn rot_word_spec(word: u32) -> u32 {
    (word << 8) | (word >> 24)
}

/// Word `i` of the schedule derived from a 16-byte key: words 0-3 are the
/// key's four big-endian byte groups; each later word XORs the word four
/// back with the previous word, the previous word first passing through
/// RotWord, SubWord and the round constant when `i` is a multiple of four.
pub open spec fn key_word(key: Seq<u8>, i: int) -> u32
    decreases i,
{
    if i < 4 {
        word_of_bytes(key[4 * i], key[4 * i + 1], key[4 * i + 2], key[4 * i + 3])
    } else {
        let prev = key_word(key, i - 1);
        let temp = if i % 4 == 0 {
            sub_word_spec(rot_word_spec(prev)) ^ ((RCON[i / 4 - 1] as u32) << 24)
        } else {
            prev
        };
        key_word(key, i - 4) ^ temp
    }
}

/// S-box substitution of each byte of a word.
pub fn sub_word(word: u32) -> (r: u32)
    ensures
        r == sub_word_spec(word),
{
    let b0 = SBOX[((word >> 24) as u8) as usize];
    let b1 = SBOX[((word >> 16) as u8) as usize];
    let b2 = SBOX[((word >> 8) as u8) as usize];
    let b3 = SBOX[(word as u8) as usize];
    ((b0 as u32) << 24) | ((b1 as u32) << 16) | ((b2 as u32) << 8) | (b3 as u32)
}

/// One-byte left rotation of a word.
pub fn rot_word(word: u32) -> (r: u32)
    ensures
        r == rot_word_spec(word),
{
    (word << 8) | (word >> 24)
}

/// Expands a 16-byte key into the full 44-word round-key schedule.
/// Words 0-3 are the original key; words 4-43 are iteratively derived.
pub fn expand_key(key: &[u8; 16]) -> (w: Vec<u32>)
    ensures
        w@.len() == 44,
        forall|i: int| 0 <= i < 44 ==> w@[i] == key_word(key@, i),
{
    let mut w: Vec<u32> = Vec::with_capacity(44);
    let mut i: usize = 0;
    while i < 4
        invariant
            i <= 4,
            w@.len() == i,
            forall|j: int| 0 <= j < i ==> w@[j] == key_word(key@, j),
        decreases 4 - i,
    {
        w.push(
            ((key[4 * i] as u32) << 24) | ((key[4 * i + 1] as u32) << 16) | ((key[4 * i + 2]
                as u32) << 8) | (key[4 * i + 3] as u32),
        );
        i = i + 1;
    }
    while i < 44
        invariant
            4 <= i <= 44,
            w@.len() == i,
            forall|j: int| 0 <= j < i ==> w@[j] == key_word(key@, j),
        decreases 44 - i,
    {
        let mut temp = w[i - 1];
        if i % 4 == 0 {
            temp = sub_word(rot_word(temp)) ^ ((RCON[i / 4 - 1] as u32) << 24);
        }
        w.push(w[i - 4] ^ temp);
        i = i + 1;
    }
    w
}

} // verus!
