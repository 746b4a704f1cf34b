//! Tests of the Hamming distance.

use krates::hamming_distance::hamming_distance;

#[test]
fn test_hamming_distance() {
    assert_eq!(hamming_distance(b"k", b"kathrin"), None);
    assert_eq!(
        hamming_distance(b"this is a test", b"wokka wokka!!!"),
        Some(37)
    );
}
