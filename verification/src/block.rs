//! Construction of 16-byte blocks from decoded input of arbitrary length:
//! a strict variant that rejects any other length, and a lenient variant
//! that zero-pads or truncates as the reference behaviour does.

use vstd::prelude::*;

verus! {

/// The error returned when decoded key or plaintext material is not
/// exactly 16 bytes long.
#[derive(Clone, Copy, Debug, PartialEq, Eq, Structural)]
pub enum BlockError {
    InvalidLength,
}

/// Strict block construction: returns the bytes as a block exactly when
/// there are 16 of them, and `InvalidLength` for every other length.
pub fn block_from_bytes(bytes: &Vec<u8>) -> (r: Result<[u8; 16], BlockError>)
    ensures
        bytes@.len() == 16 ==> r is Ok && r->Ok_0@ == bytes@,
        bytes@.len() != 16 ==> r == Result::<[u8; 16], BlockError>::Err(BlockError::InvalidLength),
{
    if bytes.len() != 16 {
        return Err(BlockError::InvalidLength);
    }
    let mut block = [0u8; 16];
    let mut i: usize = 0;
    while i < 16
        invariant
            i <= 16,
            bytes@.len() == 16,
            forall|j: int| 0 <= j < i ==> block@[j] == bytes@[j],
        decreases 16 - i,
    {
        block[i] = bytes[i];
        i = i + 1;
    }
    assert(block@ =~= bytes@);
    Ok(block)
}

/// Lenient block construction, matching the reference behaviour on
/// malformed input: bytes beyond the sixteenth are dropped, and a short
/// input is padded with zero bytes.
pub fn block_from_bytes_lenient(bytes: &Vec<u8>) -> (block: [u8; 16])
    ensures
        forall|j: int|
            0 <= j < 16 ==> block@[j] == (if j < bytes@.len() {
                bytes@[j]
            } else {
                0u8
            }),
{
    let mut block = [0u8; 16];
    let mut i: usize = 0;
    while i < 16
        invariant
            i <= 16,
            forall|j: int|
                0 <= j < i ==> block@[j] == (if j < bytes@.len() {
                    bytes@[j]
                } else {
                    0u8
                }),
            forall|j: int| i <= j < 16 ==> block@[j] == 0u8,
        decreases 16 - i,
    {
        if i < bytes.len() {
            block[i] = bytes[i];
        }
        i = i + 1;
    }
    block
}

} // verus!
