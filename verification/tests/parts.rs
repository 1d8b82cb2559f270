use md5::endian::{read_word, write_le};
use md5::hex::to_hex;
use md5::padding::{pack, pad};
use md5::tables::{INIT_A, INIT_B, INIT_C, INIT_D, K, S};
use md5::word::rotate_left;
use md5::Md5State;

#[test]
fn padding_has_the_stated_shape() {
    for len in 0..=200usize {
        let message: Vec<u8> = (0..len).map(|i| (i % 251) as u8 | 1).collect();
        let padded = pad(&message);
        assert_eq!(padded.len() % 64, 0, "length {}", len);
        assert!(padded.len() > len);
        assert!(padded.len() >= len + 9);
        assert!(padded.len() <= len + 72);
        assert_eq!(&padded[..len], &message[..]);
        assert_eq!(padded[len], 0x80);
        let field = padded.len() - 8;
        assert!(padded[len + 1..field].iter().all(|&byte| byte == 0));
        assert_eq!(&padded[field..], &((len as u64) * 8).to_le_bytes());
    }
}

#[test]
fn padding_of_the_empty_message() {
    let mut expected = vec![0u8; 64];
    expected[0] = 0x80;
    assert_eq!(pad(&[]), expected);
}

#[test]
fn padding_of_a_short_message() {
    let mut expected = vec![0u8; 64];
    expected[0] = b'a';
    expected[1] = b'b';
    expected[2] = b'c';
    expected[3] = 0x80;
    expected[56] = 24;
    assert_eq!(pad(b"abc"), expected);
}

#[test]
fn padding_block_count_at_the_boundary() {
    assert_eq!(pad(&[7u8; 54]).len(), 64);
    assert_eq!(pad(&[7u8; 55]).len(), 64);
    assert_eq!(pad(&[7u8; 56]).len(), 128);
    assert_eq!(pad(&[7u8; 57]).len(), 128);
    assert_eq!(pad(&[7u8; 63]).len(), 128);
    assert_eq!(pad(&[7u8; 64]).len(), 128);
    assert_eq!(pad(&[7u8; 119]).len(), 128);
    assert_eq!(pad(&[7u8; 120]).len(), 192);
}

#[test]
fn padding_length_field_counts_bits_in_64_bits() {
    let padded = pad(&vec![0u8; 40_000]);
    let field = &padded[padded.len() - 8..];
    assert_eq!(field, &[0x00, 0xe2, 0x04, 0x00, 0x00, 0x00, 0x00, 0x00]);
}

#[test]
fn pack_reads_little_endian_words() {
    assert_eq!(
        pack(&[0x78, 0x56, 0x34, 0x12, 0x01, 0x00, 0x00, 0x80]),
        vec![0x1234_5678, 0x8000_0001]
    );
}

#[test]
fn pack_leaves_out_trailing_bytes() {
    assert_eq!(pack(&[]), Vec::<u32>::new());
    assert_eq!(pack(&[1, 2, 3]), Vec::<u32>::new());
    assert_eq!(pack(&[1, 0, 0, 0, 9]), vec![1]);
    assert_eq!(pack(&[1, 0, 0, 0, 9, 9, 9]), vec![1]);
}

#[test]
fn pack_agrees_with_std() {
    let bytes: Vec<u8> = (0..64u32).map(|i| (i * 37 + 11) as u8).collect();
    let expected: Vec<u32> = bytes
        .chunks_exact(4)
        .map(|four| u32::from_le_bytes([four[0], four[1], four[2], four[3]]))
        .collect();
    assert_eq!(pack(&bytes), expected);
}

#[test]
fn read_word_at_an_offset() {
    let bytes = [0xaa, 0x01, 0x02, 0x03, 0x04, 0xbb];
    assert_eq!(read_word(&bytes, 0), 0x0302_01aa);
    assert_eq!(read_word(&bytes, 1), 0x0403_0201);
    assert_eq!(read_word(&bytes, 2), 0xbb04_0302);
    assert_eq!(read_word(&[0xff; 4], 0), u32::MAX);
}

#[test]
fn write_le_appends_low_bytes_first() {
    let mut out = vec![0xee];
    write_le(&mut out, 0x0102_0304_0506_0708, 8);
    assert_eq!(out, vec![0xee, 8, 7, 6, 5, 4, 3, 2, 1]);
    write_le(&mut out, 0x1234_5678, 4);
    assert_eq!(&out[9..], &[0x78, 0x56, 0x34, 0x12]);
}

#[test]
fn write_le_keeps_only_the_digits_asked_for() {
    let mut out = Vec::new();
    write_le(&mut out, 0x0102_0304, 0);
    assert_eq!(out, Vec::<u8>::new());
    write_le(&mut out, 0x0102_0304, 2);
    assert_eq!(out, vec![4, 3]);
    let mut wide = Vec::new();
    write_le(&mut wide, 0x0102, 10);
    assert_eq!(wide, vec![2, 1, 0, 0, 0, 0, 0, 0, 0, 0]);
}

#[test]
fn write_le_and_read_word_are_inverse() {
    for word in [0u32, 1, 0x80, 0xff00, 0x1234_5678, 0x8000_0000, u32::MAX] {
        let mut out = Vec::new();
        write_le(&mut out, word as u64, 4);
        assert_eq!(out, word.to_le_bytes());
        assert_eq!(read_word(&out, 0), word);
    }
}

#[test]
fn rotate_left_known_values() {
    assert_eq!(rotate_left(0x8000_0001, 4), 0x18);
    assert_eq!(rotate_left(0x1234_5678, 7), 0x1a2b_3c09);
    assert_eq!(rotate_left(0x1234_5678, 0), 0x1234_5678);
    assert_eq!(rotate_left(0x1234_5678, 32), 0x1234_5678);
    assert_eq!(rotate_left(0x1234_5678, 33), 0x2468_acf0);
}

#[test]
fn rotate_left_agrees_with_std() {
    for word in [0u32, 1, 0x8000_0000, 0xdead_beef, 0x0f0f_0f0f, u32::MAX] {
        for amount in 0..70u32 {
            assert_eq!(rotate_left(word, amount), word.rotate_left(amount));
        }
    }
}

#[test]
fn rotation_amounts_repeat_within_each_group() {
    let groups: [[u32; 4]; 4] = [
        [7, 12, 17, 22],
        [5, 9, 14, 20],
        [4, 11, 16, 23],
        [6, 10, 15, 21],
    ];
    for i in 0..64 {
        assert_eq!(S[i], groups[i / 16][i % 4]);
        assert!(0 < S[i] && S[i] < 32);
    }
}

#[test]
fn additive_constants_come_from_the_sine() {
    for i in 0..64 {
        let sine = ((i + 1) as f64).sin().abs();
        let expected = (sine * 4294967296.0).floor() as u32;
        assert_eq!(K[i], expected, "entry {}", i);
    }
    assert_eq!(K[0], 0xd76aa478);
    assert_eq!(K[63], 0xeb86d391);
}

#[test]
fn initial_state_holds_the_fixed_constants() {
    let state = Md5State::initial();
    assert_eq!(state.a, 0x67452301);
    assert_eq!(state.b, 0xefcdab89);
    assert_eq!(state.c, 0x98badcfe);
    assert_eq!(state.d, 0x10325476);
    assert_eq!(
        (state.a, state.b, state.c, state.d),
        (INIT_A, INIT_B, INIT_C, INIT_D)
    );
}

#[test]
fn state_bytes_are_little_endian_in_order() {
    let state = Md5State {
        a: 0x0403_0201,
        b: 0x0807_0605,
        c: 0x0c0b_0a09,
        d: 0x100f_0e0d,
    };
    let expected: Vec<u8> = (1..=16u8).collect();
    assert_eq!(state.to_bytes(), expected);
    assert_eq!(
        Md5State::initial().to_bytes(),
        vec![
            0x01, 0x23, 0x45, 0x67, 0x89, 0xab, 0xcd, 0xef, 0xfe, 0xdc, 0xba, 0x98, 0x76, 0x54,
            0x32, 0x10
        ]
    );
}

#[test]
fn to_hex_renders_two_lowercase_digits_per_byte() {
    assert_eq!(to_hex(&[]), "");
    assert_eq!(to_hex(&[0x00]), "00");
    assert_eq!(to_hex(&[0x0f, 0xa0, 0xff, 0x09, 0x10]), "0fa0ff0910");
    let every: Vec<u8> = (0..=255u8).collect();
    let expected: String = every.iter().map(|byte| format!("{:02x}", byte)).collect();
    assert_eq!(to_hex(&every), expected);
}
