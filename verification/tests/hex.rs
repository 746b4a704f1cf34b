//! Tests of hexadecimal decoding.

use krates::hex_to_bytes::hex_to_bytes;

#[test]
fn test_hex_to_bytes() {
    let hex = "1c0111001f010100061a024b53535009181c";
    let bytes = vec![
        28, 1, 17, 0, 31, 1, 1, 0, 6, 26, 2, 75, 83, 83, 80, 9, 24, 28,
    ];
    assert_eq!(hex_to_bytes(hex).unwrap(), bytes);
}

#[test]
fn hex_skips_invalid_pairs() {
    // the middle pair is not hexadecimal and is skipped
    assert_eq!(hex_to_bytes("0azz1c").unwrap(), vec![10, 28]);
    // a trailing lone digit does not form a pair
    assert_eq!(hex_to_bytes("0a1").unwrap(), vec![10]);
    // upper case digits are accepted
    assert_eq!(hex_to_bytes("FF00").unwrap(), vec![255, 0]);
}
