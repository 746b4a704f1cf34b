//! Tests of the repeated-key XOR cipher and its key-size guesser.

use krates::hex_to_bytes::hex_to_bytes;
use krates::repeat_key_xor::crack::Crack;
use krates::repeat_key_xor::encrypt;

#[test]
fn test_encrypt() {
    let cleartext = b"Burning 'em, if you ain't quick and nimble
I go crazy when I hear a cymbal";
    let key = b"ICE";

    let cyphertext = String::from("0b3637272a2b2e63622c2e69692a23693a2a3c6324202d623d63343c2a26226324272765272a282b2f20430a652e2c652a3124333a653e2b2027630c692b20283165286326302e27282f");

    assert_eq!(encrypt(cleartext, key).unwrap(), cyphertext);
}

#[test]
fn key_finder_periodic_text() {
    // a ciphertext that repeats every five bytes has zero distance
    // between its first two five-byte blocks, and five is the smallest
    // key size where that happens
    let cyphertext_bytes: Vec<u8> = b"vwxyz".repeat(20);
    let mut crack = Crack::new(cyphertext_bytes, 35);

    crack.get_most_likely().unwrap();
    crack.get_most_likely().unwrap();

    match crack.most_likely {
        Some(candidate) => {
            assert_eq!(candidate.keysize, 5);
            assert_eq!(candidate.distance, 0);
        }
        None => panic!("no candidate found"),
    }
}

#[test]
fn key_finder_real_ciphertext() {
    let cyphertext = "0b3637272a2b2e63622c2e69692a23693a2a3c6324202d623d63343c2a26226324272765272a282b2f20430a652e2c652a3124333a653e2b2027630c692b20283165286326302e27282f";

    let cyphertext_bytes = hex_to_bytes(cyphertext).unwrap();
    let mut crack = Crack::new(cyphertext_bytes, 35);

    crack.get_most_likely().unwrap();
    crack.get_most_likely().unwrap();

    // the smallest key size whose two leading blocks have minimal
    // normalized Hamming distance on this input
    if let Some(candidate) = crack.most_likely {
        assert_eq!(candidate.keysize, 4);
    }
}
