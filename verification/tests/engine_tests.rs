use crypto_engine::block::{block_from_bytes, block_from_bytes_lenient, BlockError};
use crypto_engine::cipher::{encrypt_block, encrypt_block_with_trace};
use crypto_engine::key_schedule::{expand_key, rot_word, sub_word};

const ZERO_KEY: [u8; 16] = [0; 16];

const FIPS_KEY: [u8; 16] = [
    0x00, 0x01, 0x02, 0x03, 0x04, 0x05, 0x06, 0x07, 0x08, 0x09, 0x0a, 0x0b, 0x0c, 0x0d, 0x0e,
    0x0f,
];

const FIPS_PLAINTEXT: [u8; 16] = [
    0x00, 0x11, 0x22, 0x33, 0x44, 0x55, 0x66, 0x77, 0x88, 0x99, 0xaa, 0xbb, 0xcc, 0xdd, 0xee,
    0xff,
];

const FIPS_CIPHERTEXT: [u8; 16] = [
    0x69, 0xc4, 0xe0, 0xd8, 0x6a, 0x7b, 0x04, 0x30, 0xd8, 0xcd, 0xb7, 0x80, 0x70, 0xb4, 0xc5,
    0x5a,
];

#[test]
fn known_answer_all_zero() {
    let schedule = expand_key(&ZERO_KEY);
    let ct = encrypt_block(&[0u8; 16], &schedule);
    let expected: [u8; 16] = [
        0x66, 0xe9, 0x4b, 0xd4, 0xef, 0x8a, 0x2c, 0x3b, 0x88, 0x4c, 0xfa, 0x59, 0xca, 0x34, 0x2b,
        0x2e,
    ];
    assert_eq!(ct, expected);
}

#[test]
fn known_answer_fips_vector() {
    let schedule = expand_key(&FIPS_KEY);
    let ct = encrypt_block(&FIPS_PLAINTEXT, &schedule);
    assert_eq!(ct, FIPS_CIPHERTEXT);
}

#[test]
fn trace_has_twelve_snapshots() {
    let schedule = expand_key(&FIPS_KEY);
    let (ct, trace) = encrypt_block_with_trace(&FIPS_PLAINTEXT, &schedule);
    assert_eq!(trace.len(), 12);
    assert_eq!(trace[0], FIPS_PLAINTEXT);
    assert_eq!(trace[11], ct);
    assert_eq!(ct, FIPS_CIPHERTEXT);
}

#[test]
fn trace_first_key_mixing() {
    let schedule = expand_key(&FIPS_KEY);
    let (_, trace) = encrypt_block_with_trace(&FIPS_PLAINTEXT, &schedule);
    let mut expected = [0u8; 16];
    for i in 0..16 {
        expected[i] = FIPS_PLAINTEXT[i] ^ FIPS_KEY[i];
    }
    assert_eq!(trace[1], expected);
}

#[test]
fn encryption_is_deterministic() {
    let schedule_a = expand_key(&FIPS_KEY);
    let schedule_b = expand_key(&FIPS_KEY);
    assert_eq!(schedule_a, schedule_b);
    let (ct_a, trace_a) = encrypt_block_with_trace(&FIPS_PLAINTEXT, &schedule_a);
    let (ct_b, trace_b) = encrypt_block_with_trace(&FIPS_PLAINTEXT, &schedule_b);
    assert_eq!(ct_a, ct_b);
    assert_eq!(trace_a, trace_b);
}

#[test]
fn expand_key_has_44_words() {
    assert_eq!(expand_key(&ZERO_KEY).len(), 44);
    assert_eq!(expand_key(&FIPS_KEY).len(), 44);
    assert_eq!(expand_key(&[0xff; 16]).len(), 44);
}

#[test]
fn expand_key_first_words_are_the_key() {
    let w = expand_key(&FIPS_KEY);
    assert_eq!(w[0], 0x00010203);
    assert_eq!(w[1], 0x04050607);
    assert_eq!(w[2], 0x08090a0b);
    assert_eq!(w[3], 0x0c0d0e0f);
}

#[test]
fn expand_key_zero_key_derivation() {
    let w = expand_key(&ZERO_KEY);
    assert_eq!(w[4], 0x62636363);
    assert_eq!(w[5], 0x62636363);
    assert_eq!(w[6], 0x62636363);
    assert_eq!(w[7], 0x62636363);
    assert_eq!(w[40], 0xb4ef5bcb);
    assert_eq!(w[41], 0x3e92e211);
    assert_eq!(w[42], 0x23e951cf);
    assert_eq!(w[43], 0x6f8f188e);
}

#[test]
fn sub_word_and_rot_word() {
    assert_eq!(rot_word(0x01020304), 0x02030401);
    assert_eq!(sub_word(0x00000000), 0x63636363);
    assert_eq!(sub_word(0x53000000), 0xed636363);
}

#[test]
fn avalanche_over_all_plaintext_bits() {
    let schedule = expand_key(&FIPS_KEY);
    let base = encrypt_block(&FIPS_PLAINTEXT, &schedule);
    let mut total_flipped: u32 = 0;
    for bit in 0..128 {
        let mut pt = FIPS_PLAINTEXT;
        pt[bit / 8] ^= 1u8 << (bit % 8);
        let ct = encrypt_block(&pt, &schedule);
        for i in 0..16 {
            total_flipped += (ct[i] ^ base[i]).count_ones();
        }
    }
    let average_times_128 = total_flipped;
    assert!(average_times_128 > 128 * 52, "average flipped bits too low");
    assert!(average_times_128 < 128 * 76, "average flipped bits too high");
}

#[test]
fn block_from_bytes_strict() {
    let exact: Vec<u8> = (0u8..16).collect();
    let block = block_from_bytes(&exact).unwrap();
    assert_eq!(block.to_vec(), exact);
    assert_eq!(block_from_bytes(&vec![0u8; 15]), Err(BlockError::InvalidLength));
    assert_eq!(block_from_bytes(&vec![0u8; 17]), Err(BlockError::InvalidLength));
    assert_eq!(block_from_bytes(&Vec::new()), Err(BlockError::InvalidLength));
}

#[test]
fn block_from_bytes_lenient_pads_and_truncates() {
    let short = vec![0xaau8, 0xbb];
    let block = block_from_bytes_lenient(&short);
    assert_eq!(block[0], 0xaa);
    assert_eq!(block[1], 0xbb);
    for i in 2..16 {
        assert_eq!(block[i], 0);
    }
    let long: Vec<u8> = (0u8..20).collect();
    let block = block_from_bytes_lenient(&long);
    for i in 0..16 {
        assert_eq!(block[i], i as u8);
    }
}
