use sp1_fixtures::container::{decode_body, decode_tag, encode_frame};
use sp1_fixtures::hexcode::{decode_hex, encode_hex};

#[test]
fn frame_layout_is_exact() {
    let b = encode_frame(2, &vec![0xaa, 0xbb], &vec![0x01]);
    assert_eq!(
        b,
        vec![2, 0, 0, 0, 2, 0, 0, 0, 0, 0, 0, 0, 0xaa, 0xbb, 1, 0, 0, 0, 0, 0, 0, 0, 0x01]
    );
}

#[test]
fn frame_reads_back() {
    let b = encode_frame(0x01020304, &vec![9, 8, 7], &vec![]);
    assert_eq!(decode_tag(&b), Some(0x01020304));
    assert_eq!(decode_body(&b), Some((vec![9, 8, 7], vec![])));
}

#[test]
fn frame_truncated_or_padded_is_refused() {
    let mut b = encode_frame(3, &vec![1, 2, 3], &vec![4]);
    b.pop();
    assert_eq!(decode_body(&b), None);
    let mut c = encode_frame(3, &vec![1, 2, 3], &vec![4]);
    c.push(0);
    assert_eq!(decode_body(&c), None);
    assert_eq!(decode_tag(&vec![1, 2, 3]), None);
}

#[test]
fn hex_is_lower_case_two_digits_per_byte() {
    assert_eq!(encode_hex(&vec![0x00, 0xff, 0x1a, 0xb0]), "00ff1ab0".to_string());
    assert_eq!(encode_hex(&vec![]), "".to_string());
}

#[test]
fn hex_reads_either_case() {
    assert_eq!(decode_hex("00FF1aB0"), Some(vec![0x00, 0xff, 0x1a, 0xb0]));
    assert_eq!(decode_hex("abc"), None);
    assert_eq!(decode_hex("zz"), None);
}

#[test]
fn hex_round_trip_is_lossless() {
    let bytes: Vec<u8> = (0u8..=255).collect();
    assert_eq!(decode_hex(&encode_hex(&bytes)), Some(bytes));
}
