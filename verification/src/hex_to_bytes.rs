//! Decoding a hexadecimal string into bytes, two digits per byte.
//! A pair holding a non-digit is skipped rather than failing the whole
//! decode.

use vstd::prelude::*;
use vstd::string::StrSliceExecFns;
use vstd::utf8::encode_utf8;

verus! {

/// The value of one ASCII hexadecimal digit, upper or lower case.
pub open spec fn spec_hex_digit(b: u8) -> Option<u8> {
    if 48 <= b <= 57 {
        Some((b - 48) as u8)
    } else if 97 <= b <= 102 {
        Some((b - 87) as u8)
    } else if 65 <= b <= 70 {
        Some((b - 55) as u8)
    } else {
        None
    }
}

/// The bytes decoded from the first `pairs` digit pairs of `s`: each
/// pair of hex digits becomes one byte, and a pair holding a non-digit
/// is skipped.
pub open spec fn spec_hex_to_bytes(s: Seq<u8>, pairs: int) -> Seq<u8>
    recommends
        2 * pairs <= s.len(),
    decreases pairs,
{
    if pairs <= 0 {
        Seq::empty()
    } else {
        let prefix = spec_hex_to_bytes(s, pairs - 1);
        match (spec_hex_digit(s[2 * (pairs - 1)]), spec_hex_digit(s[2 * (pairs - 1) + 1])) {
            (Some(hi), Some(lo)) => prefix.push((hi * 16 + lo) as u8),
            _ => prefix,
        }
    }
}

/// The value of one ASCII hexadecimal digit byte, when it is one.
fn hex_digit_value(b: u8) -> (r: Option<u8>)
    ensures
        r == spec_hex_digit(b),
{
    if 48 <= b && b <= 57 {
        Some(b - 48)
    } else if 97 <= b && b <= 102 {
        Some(b - 87)
    } else if 65 <= b && b <= 70 {
        Some(b - 55)
    } else {
        None
    }
}

/// Decodes a hexadecimal string, two digits per byte; pairs that are
/// not hexadecimal are skipped.
pub fn hex_to_bytes(hex: &str) -> (r: Result<Vec<u8>, &'static str>)
    ensures
        r matches Ok(b) && b@ == spec_hex_to_bytes(
            encode_utf8(hex@),
            encode_utf8(hex@).len() as int / 2,
        ),
{
    let hex_bytes = hex.as_bytes_vec();
    let mut bytes: Vec<u8> = Vec::new();
    let hex_len = hex_bytes.len();
    let pairs = hex_len / 2;
    proof {
        assert(2 * (hex_bytes@.len() as int / 2) <= hex_bytes@.len()) by (nonlinear_arith);
        assert(2 * (hex_len as int / 2) <= hex_len) by (nonlinear_arith);
    }
    let mut i: usize = 0;

    while i < pairs
        invariant
            hex_bytes@ == encode_utf8(hex@),
            pairs == hex_bytes@.len() as int / 2,
            2 * pairs <= hex_bytes@.len(),
            2 * pairs <= usize::MAX,
            i <= pairs,
            bytes@ == spec_hex_to_bytes(hex_bytes@, i as int),
        decreases pairs - i,
    {
        let hi = hex_digit_value(hex_bytes[2 * i]);
        let lo = hex_digit_value(hex_bytes[2 * i + 1]);
        if let (Some(hi), Some(lo)) = (hi, lo) {
            bytes.push(hi * 16 + lo);
        }
        i = i + 1;
    }
    Ok(bytes)
}

} // verus!
