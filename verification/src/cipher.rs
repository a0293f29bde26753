//! The cipher orchestrator: sequences the round transforms into the
//! 10-round AES-128 schedule and snapshots the state after each
//! semantically meaningful step.

use vstd::prelude::*;
use crate::key_schedule::key_word;
use crate::transforms::{
    add_round_key, add_round_key_spec, mix_columns, mix_columns_spec, shift_rows, shift_rows_spec,
    sub_bytes, sub_bytes_spec,
};

verus! {

/// The state recorded at trace position `k` when encrypting `pt` under
/// schedule `ws`: position 0 is the raw input block, position 1 the state
/// after the initial key mixing, positions 2-10 the states after main
/// rounds 1-9, and position 11 the state after the final round, which
/// omits MixColumns.
pub open spec fn round_output(pt: Seq<u8>, ws: Seq<u32>, k: int) -> Seq<u8>
    decreases k,
{
    if k <= 0 {
        pt
    } else if k == 1 {
        add_round_key_spec(pt, ws, 0)
    } else if k <= 10 {
        add_round_key_spec(
            mix_columns_spec(shift_rows_spec(sub_bytes_spec(round_output(pt, ws, k - 1)))),
            ws,
            k - 1,
        )
    } else {
        add_round_key_spec(shift_rows_spec(sub_bytes_spec(round_output(pt, ws, 10))), ws, 10)
    }
}

/// The ciphertext block: the state after the final round.
pub open spec fn cipher_output(pt: Seq<u8>, ws: Seq<u32>) -> Seq<u8> {
    round_output(pt, ws, 11)
}

/// Encrypts one 16-byte block under a 44-word schedule and returns the
/// ciphertext together with the full 12-snapshot execution trace.
pub fn encrypt_block_with_trace(plaintext: &[u8; 16], schedule: &Vec<u32>) -> (res: (
    [u8; 16],
    Vec<[u8; 16]>,
))
    requires
        schedule@.len() == 44,
    ensures
        res.1@.len() == 12,
        forall|k: int| 0 <= k < 12 ==> res.1@[k]@ == round_output(plaintext@, schedule@, k),
        res.0@ == cipher_output(plaintext@, schedule@),
        res.1@[11]@ == res.0@,
{
    let mut state: [u8; 16] = *plaintext;
    let mut trace: Vec<[u8; 16]> = Vec::with_capacity(12);

    trace.push(state);
    add_round_key(&mut state, schedule, 0);
    trace.push(state);

    let mut round: usize = 1;
    while round < 10
        invariant
            1 <= round <= 10,
            schedule@.len() == 44,
            trace@.len() == round + 1,
            forall|k: int|
                0 <= k <= round ==> trace@[k]@ == round_output(plaintext@, schedule@, k),
            state@ == round_output(plaintext@, schedule@, round as int),
        decreases 10 - round,
    {
        sub_bytes(&mut state);
        shift_rows(&mut state);
        mix_columns(&mut state);
        add_round_key(&mut state, schedule, round);
        trace.push(state);
        round = round + 1;
    }

    sub_bytes(&mut state);
    shift_rows(&mut state);
    add_round_key(&mut state, schedule, 10);
    trace.push(state);

    (state, trace)
}

/// Encrypts one 16-byte block under a 44-word schedule, without
/// allocating a trace.
pub fn encrypt_block(plaintext: &[u8; 16], schedule: &Vec<u32>) -> (ct: [u8; 16])
    requires
        schedule@.len() == 44,
    ensures
        ct@ == cipher_output(plaintext@, schedule@),
{
    let mut state: [u8; 16] = *plaintext;
    add_round_key(&mut state, schedule, 0);

    let mut round: usize = 1;
    while round < 10
        invariant
            1 <= round <= 10,
            schedule@.len() == 44,
            state@ == round_output(plaintext@, schedule@, round as int),
        decreases 10 - round,
    {
        sub_bytes(&mut state);
        shift_rows(&mut state);
        mix_columns(&mut state);
        add_round_key(&mut state, schedule, round);
        round = round + 1;
    }

    sub_bytes(&mut state);
    shift_rows(&mut state);
    add_round_key(&mut state, schedule, 10);
    state
}

/// Encrypting is deterministic: any two ciphertexts and traces that meet
/// the contract of `encrypt_block_with_trace` for the same plaintext and
/// schedule are equal, byte for byte.
pub proof fn lemma_encrypt_deterministic(
    pt: Seq<u8>,
    ws: Seq<u32>,
    ct1: Seq<u8>,
    ct2: Seq<u8>,
    tr1: Seq<Seq<u8>>,
    tr2: Seq<Seq<u8>>,
)
    requires
        ct1 == cipher_output(pt, ws),
        ct2 == cipher_output(pt, ws),
        tr1.len() == 12,
        tr2.len() == 12,
        forall|k: int| 0 <= k < 12 ==> tr1[k] == round_output(pt, ws, k),
        forall|k: int| 0 <= k < 12 ==> tr2[k] == round_output(pt, ws, k),
    ensures
        ct1 == ct2,
        tr1 == tr2,
{
    assert(tr1 =~= tr2);
}

/// An expanded key pins the schedule: any two schedules that meet the
/// contract of `expand_key` for the same key are equal, so re-deriving
/// the schedule, and with it any ciphertext, is deterministic as well.
pub proof fn lemma_expand_key_deterministic(key: Seq<u8>, ws1: Seq<u32>, ws2: Seq<u32>)
    requires
        ws1.len() == 44,
        ws2.len() == 44,
        forall|i: int| 0 <= i < 44 ==> ws1[i] == key_word(key, i),
        forall|i: int| 0 <= i < 44 ==> ws2[i] == key_word(key, i),
    ensures
        ws1 == ws2,
{
    assert(ws1 =~= ws2);
}

} // verus!
