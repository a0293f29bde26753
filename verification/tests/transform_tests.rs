use crypto_engine::gf::gmul;
use crypto_engine::inv_mix::inv_mix_columns;
use crypto_engine::sbox::substitute;
use crypto_engine::transforms::{add_round_key, mix_columns, shift_rows, sub_bytes};

#[test]
fn gmul_known_products() {
    assert_eq!(gmul(0x57, 0x83), 0xc1);
    assert_eq!(gmul(0x02, 0x80), 0x1b);
    assert_eq!(gmul(0x03, 0x80), 0x9b);
    assert_eq!(gmul(0x01, 0xd4), 0xd4);
    assert_eq!(gmul(0x00, 0xff), 0x00);
    assert_eq!(gmul(0x0e, 0x02), 0x1c);
}

#[test]
fn sbox_known_entries() {
    assert_eq!(substitute(0x00), 0x63);
    assert_eq!(substitute(0x53), 0xed);
    assert_eq!(substitute(0xff), 0x16);
}

#[test]
fn sub_bytes_substitutes_every_byte() {
    let mut state = [0u8; 16];
    state[3] = 0x53;
    state[15] = 0xff;
    sub_bytes(&mut state);
    for i in 0..16 {
        let expected = match i {
            3 => 0xed,
            15 => 0x16,
            _ => 0x63,
        };
        assert_eq!(state[i], expected);
    }
}

#[test]
fn shift_rows_rotates_each_row() {
    let mut state = [
        0, 1, 2, 3, 4, 5, 6, 7, 8, 9, 10, 11, 12, 13, 14, 15,
    ];
    shift_rows(&mut state);
    let expected = [
        0, 5, 10, 15, 4, 9, 14, 3, 8, 13, 2, 7, 12, 1, 6, 11,
    ];
    assert_eq!(state, expected);
}

#[test]
fn mix_columns_known_column() {
    let mut state = [
        0xdb, 0x13, 0x53, 0x45, 0xf2, 0x0a, 0x22, 0x5c, 0x01, 0x01, 0x01, 0x01, 0xc6, 0xc6, 0xc6,
        0xc6,
    ];
    mix_columns(&mut state);
    let expected = [
        0x8e, 0x4d, 0xa1, 0xbc, 0x9f, 0xdc, 0x58, 0x9d, 0x01, 0x01, 0x01, 0x01, 0xc6, 0xc6, 0xc6,
        0xc6,
    ];
    assert_eq!(state, expected);
}

#[test]
fn inverse_mix_columns_undoes_mix_columns() {
    let mut state = [
        0xdb, 0x13, 0x53, 0x45, 0xf2, 0x0a, 0x22, 0x5c, 0x2d, 0x26, 0x31, 0x4c, 0x00, 0x11, 0xee,
        0xff,
    ];
    let original = state;
    mix_columns(&mut state);
    assert_ne!(state, original);
    inv_mix_columns(&mut state);
    assert_eq!(state, original);
}

#[test]
fn add_round_key_xors_schedule_words() {
    let mut state = [0u8; 16];
    let schedule: Vec<u32> = (0..44u32).map(|i| 0x01010101u32.wrapping_mul(i)).collect();
    add_round_key(&mut state, &schedule, 1);
    for c in 0..4 {
        for r in 0..4 {
            assert_eq!(state[c * 4 + r], (4 + c) as u8);
        }
    }
}
