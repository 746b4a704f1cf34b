//! The repeated-key [XOR cipher](https://en.wikipedia.org/wiki/XOR_cipher),
//! with the ciphertext rendered as lowercase hexadecimal text.

pub mod crack;

use vstd::prelude::*;

verus! {

/// The lowercase hexadecimal digit character of a value in `0..16`.
pub open spec fn spec_hex_char(d: int) -> char
    recommends
        0 <= d < 16,
{
    if d == 0 {
        '0'
    } else if d == 1 {
        '1'
    } else if d == 2 {
        '2'
    } else if d == 3 {
        '3'
    } else if d == 4 {
        '4'
    } else if d == 5 {
        '5'
    } else if d == 6 {
        '6'
    } else if d == 7 {
        '7'
    } else if d == 8 {
        '8'
    } else if d == 9 {
        '9'
    } else if d == 10 {
        'a'
    } else if d == 11 {
        'b'
    } else if d == 12 {
        'c'
    } else if d == 13 {
        'd'
    } else if d == 14 {
        'e'
    } else {
        'f'
    }
}

/// The hex text of the first `n` cleartext bytes, each XORed with the
/// key byte at its position modulo the key length: two lowercase hex
/// characters per byte.
pub open spec fn spec_xor_hex(cleartext: Seq<u8>, key: Seq<u8>, n: int) -> Seq<char>
    recommends
        key.len() > 0,
        n <= cleartext.len(),
    decreases n,
{
    if n <= 0 {
        Seq::empty()
    } else {
        let x = cleartext[n - 1] ^ key[(n - 1) % key.len() as int];
        spec_xor_hex(cleartext, key, n - 1).push(spec_hex_char(x as int / 16)).push(
            spec_hex_char(x as int % 16),
        )
    }
}

/// The lowercase hexadecimal digit character of a nibble.
fn hex_char(d: u8) -> (c: char)
    requires
        d < 16,
    ensures
        c == spec_hex_char(d as int),
{
    if d == 0 {
        '0'
    } else if d == 1 {
        '1'
    } else if d == 2 {
        '2'
    } else if d == 3 {
        '3'
    } else if d == 4 {
        '4'
    } else if d == 5 {
        '5'
    } else if d == 6 {
        '6'
    } else if d == 7 {
        '7'
    } else if d == 8 {
        '8'
    } else if d == 9 {
        '9'
    } else if d == 10 {
        'a'
    } else if d == 11 {
        'b'
    } else if d == 12 {
        'c'
    } else if d == 13 {
        'd'
    } else if d == 14 {
        'e'
    } else {
        'f'
    }
}

/// Encrypts `cleartext` using a repeated-key XOR cipher and renders the
/// result as lowercase hexadecimal text, two characters per byte.
pub fn encrypt(cleartext: &[u8], key: &[u8]) -> (r: Result<String, ()>)
    requires
        key@.len() > 0,
    ensures
        r matches Ok(s) && s@ == spec_xor_hex(cleartext@, key@, cleartext@.len() as int),
{
    let mut cyphertext = String::new();
    let mut i: usize = 0;

    while i < cleartext.len()
        invariant
            key@.len() > 0,
            i <= cleartext@.len(),
            cyphertext@ == spec_xor_hex(cleartext@, key@, i as int),
        decreases cleartext@.len() - i,
    {
        let key_position = i % key.len();
        let x = cleartext[i] ^ key[key_position];
        cyphertext.push(hex_char(x / 16));
        cyphertext.push(hex_char(x % 16));
        i = i + 1;
    }
    Ok(cyphertext)
}

} // verus!
