//! Fixed-width textual encoding of the issuance instant.
//!
//! An instant is a count of milliseconds since the Unix epoch, held as a
//! `u64` below [`TIMESTAMP_VALUE_LIMIT`] and serialized as exactly
//! [`TIMESTAMP_LENGTH`] zero-padded ASCII decimal digits.  A strictly
//! fixed width is what lets the content decoder find the host/timestamp
//! boundary by counting from the end of the buffer.

use crate::krypto::defaults::{TIMESTAMP_LENGTH, TIMESTAMP_VALUE_LIMIT};
use vstd::prelude::*;

verus! {

/// `10^w`.
pub open spec fn pow10(w: nat) -> int
    decreases w,
{
    if w == 0 {
        1
    } else {
        10 * pow10((w - 1) as nat)
    }
}

/// `10^w` is positive.
pub proof fn lemma_pow10_positive(w: nat)
    ensures
        0 < pow10(w),
    decreases w,
{
    if w > 0 {
        lemma_pow10_positive((w - 1) as nat);
    }
}

/// `10^w` grows with `w`.
pub proof fn lemma_pow10_increases(a: nat, b: nat)
    requires
        a <= b,
    ensures
        0 < pow10(a) <= pow10(b),
    decreases b,
{
    lemma_pow10_positive(a);
    if a < b {
        lemma_pow10_increases(a, (b - 1) as nat);
    }
}

/// The numeric value of the fixed field width.
pub proof fn lemma_pow10_timestamp()
    ensures
        pow10(TIMESTAMP_LENGTH as nat) == TIMESTAMP_VALUE_LIMIT,
{
    reveal_with_fuel(pow10, 20);
}

/// The ASCII digit encoding a value in `0..10`.
pub open spec fn digit_byte(d: int) -> u8
    recommends
        0 <= d < 10,
{
    (48 + d) as u8
}

/// The ASCII digit character encoding a value in `0..10`.
pub open spec fn digit_char(d: int) -> char
    recommends
        0 <= d < 10,
{
    if d == 0 {
        '0'
    } else if d == 1 {
        '1'
    } else if d == 2 {
        '2'
    } else if d == 3 {
        '3'
    } else if d == 4 {
        '4'
    } else if d == 5 {
        '5'
    } else if d == 6 {
        '6'
    } else if d == 7 {
        '7'
    } else if d == 8 {
        '8'
    } else {
        '9'
    }
}

/// True of the ASCII bytes `'0'` to `'9'`.
pub open spec fn is_digit_byte(b: u8) -> bool {
    48 <= b <= 57
}

/// True when every byte of the sequence is an ASCII decimal digit.
pub open spec fn all_digit_bytes(s: Seq<u8>) -> bool {
    forall|i: int| 0 <= i < s.len() ==> is_digit_byte(#[trigger] s[i])
}

/// The `w`-digit zero-padded decimal encoding of `v` (of `v mod 10^w`,
/// when `v` is larger), most significant digit first.
pub open spec fn spec_timestamp_bytes(v: int, w: nat) -> Seq<u8>
    decreases w,
{
    if w == 0 {
        Seq::empty()
    } else {
        spec_timestamp_bytes(v / 10, (w - 1) as nat).push(digit_byte(v % 10))
    }
}

/// The same digits, as characters, for the key-derivation context string.
pub open spec fn spec_timestamp_chars(v: int, w: nat) -> Seq<char>
    decreases w,
{
    if w == 0 {
        Seq::empty()
    } else {
        spec_timestamp_chars(v / 10, (w - 1) as nat).push(digit_char(v % 10))
    }
}

/// The numeric value of a big-endian sequence of ASCII decimal digits.
pub open spec fn spec_timestamp_value(s: Seq<u8>) -> int
    recommends
        all_digit_bytes(s),
    decreases s.len(),
{
    if s.len() == 0 {
        0
    } else {
        spec_timestamp_value(s.drop_last()) * 10 + (s.last() - 48)
    }
}

/// The encoding always has exactly its fixed width.
pub proof fn lemma_timestamp_bytes_len(v: int, w: nat)
    ensures
        spec_timestamp_bytes(v, w).len() == w,
    decreases w,
{
    if w > 0 {
        lemma_timestamp_bytes_len(v / 10, (w - 1) as nat);
    }
}

/// Encoding a value below `10^w` yields `w` digit bytes whose value is
/// the value encoded.
pub proof fn lemma_timestamp_bytes_to_value(v: int, w: nat)
    requires
        0 <= v < pow10(w),
    ensures
        spec_timestamp_bytes(v, w).len() == w,
        all_digit_bytes(spec_timestamp_bytes(v, w)),
        spec_timestamp_value(spec_timestamp_bytes(v, w)) == v,
    decreases w,
{
    if w > 0 {
        let s = spec_timestamp_bytes(v, w);
        let prefix = spec_timestamp_bytes(v / 10, (w - 1) as nat);
        assert(0 <= v % 10 < 10 && 0 <= v / 10 && v == (v / 10) * 10 + v % 10) by (nonlinear_arith)
            requires
                v >= 0,
        ;
        assert(v / 10 < pow10((w - 1) as nat)) by (nonlinear_arith)
            requires
                0 <= v < 10 * pow10((w - 1) as nat),
        ;
        lemma_timestamp_bytes_to_value(v / 10, (w - 1) as nat);
        assert(s.drop_last() =~= prefix);
        assert(forall|i: int|
            0 <= i < s.len() ==> is_digit_byte(#[trigger] s[i]) == if i < w - 1 {
                is_digit_byte(prefix[i])
            } else {
                is_digit_byte(digit_byte(v % 10))
            });
    }
}

/// Any sequence of `w` digit bytes is the encoding of its value, which
/// lies below `10^w`.
pub proof fn lemma_timestamp_value_to_bytes(s: Seq<u8>)
    requires
        all_digit_bytes(s),
    ensures
        0 <= spec_timestamp_value(s) < pow10(s.len()),
        spec_timestamp_bytes(spec_timestamp_value(s), s.len()) == s,
    decreases s.len(),
{
    if s.len() > 0 {
        let prefix = s.drop_last();
        let d = s.last() - 48;
        assert(all_digit_bytes(prefix)) by {
            assert(forall|i: int| 0 <= i < prefix.len() ==> prefix[i] == #[trigger] s[i]);
        }
        lemma_timestamp_value_to_bytes(prefix);
        let vp = spec_timestamp_value(prefix);
        let v = spec_timestamp_value(s);
        assert(is_digit_byte(s.last()));
        assert(v == vp * 10 + d);
        assert(v / 10 == vp && v % 10 == d) by (nonlinear_arith)
            requires
                v == vp * 10 + d,
                0 <= d < 10,
                0 <= vp,
        ;
        assert(v < pow10(s.len())) by {
            assert(pow10(s.len()) == 10 * pow10(prefix.len()));
        }
        assert(spec_timestamp_bytes(v, s.len()) =~= s);
    }
}

/// Appends the `w`-digit zero-padded decimal encoding of `v`.
fn push_timestamp_digits(v: u64, w: usize, out: &mut Vec<u8>)
    ensures
        final(out)@ == old(out)@ + spec_timestamp_bytes(v as int, w as nat),
    decreases w,
{
    if w > 0 {
        push_timestamp_digits(v / 10, w - 1, out);
        out.push(48 + (v % 10) as u8);
        assert(out@ =~= old(out)@ + spec_timestamp_bytes(v as int, w as nat));
    } else {
        assert(out@ =~= old(out)@ + spec_timestamp_bytes(v as int, 0));
    }
}

/// Serializes an instant as its fixed-width digit bytes.
pub fn encode_timestamp(ts: u64) -> (r: Vec<u8>)
    ensures
        r@ == spec_timestamp_bytes(ts as int, TIMESTAMP_LENGTH as nat),
        ts < TIMESTAMP_VALUE_LIMIT ==> r@.len() == TIMESTAMP_LENGTH && all_digit_bytes(r@)
            && spec_timestamp_value(r@) == ts,
{
    let mut out: Vec<u8> = Vec::new();
    push_timestamp_digits(ts, TIMESTAMP_LENGTH, &mut out);
    proof {
        assert(out@ =~= spec_timestamp_bytes(ts as int, TIMESTAMP_LENGTH as nat));
        if ts < TIMESTAMP_VALUE_LIMIT {
            lemma_pow10_timestamp();
            lemma_timestamp_bytes_to_value(ts as int, TIMESTAMP_LENGTH as nat);
        }
    }
    out
}

/// Appends the same digits as characters; used for the key-derivation
/// context string.
fn push_timestamp_digit_chars(v: u64, w: usize, out: &mut String)
    ensures
        final(out)@ == old(out)@ + spec_timestamp_chars(v as int, w as nat),
    decreases w,
{
    if w > 0 {
        push_timestamp_digit_chars(v / 10, w - 1, out);
        let d = v % 10;
        let c: char = if d == 0 {
            '0'
        } else if d == 1 {
            '1'
        } else if d == 2 {
            '2'
        } else if d == 3 {
            '3'
        } else if d == 4 {
            '4'
        } else if d == 5 {
            '5'
        } else if d == 6 {
            '6'
        } else if d == 7 {
            '7'
        } else if d == 8 {
            '8'
        } else {
            '9'
        };
        out.push(c);
        assert(out@ =~= old(out)@ + spec_timestamp_chars(v as int, w as nat));
    } else {
        assert(out@ =~= old(out)@ + spec_timestamp_chars(v as int, 0));
    }
}

/// The fixed-width digit string of an instant.
pub fn timestamp_string(ts: u64) -> (r: String)
    ensures
        r@ == spec_timestamp_chars(ts as int, TIMESTAMP_LENGTH as nat),
{
    let mut out = String::new();
    push_timestamp_digit_chars(ts, TIMESTAMP_LENGTH, &mut out);
    proof {
        assert(out@ =~= spec_timestamp_chars(ts as int, TIMESTAMP_LENGTH as nat));
    }
    out
}

/// Parses a fixed-width digit field back into an instant: succeeds
/// exactly when every byte is an ASCII decimal digit.
pub fn parse_timestamp(bytes: &[u8]) -> (r: Option<u64>)
    requires
        bytes@.len() == TIMESTAMP_LENGTH,
    ensures
        match r {
            Some(v) => all_digit_bytes(bytes@) && v == spec_timestamp_value(bytes@) && v
                < TIMESTAMP_VALUE_LIMIT,
            None => !all_digit_bytes(bytes@),
        },
{
    let mut v: u64 = 0;
    let mut i: usize = 0;
    proof {
        lemma_pow10_timestamp();
    }
    while i < TIMESTAMP_LENGTH
        invariant
            bytes@.len() == TIMESTAMP_LENGTH,
            i <= TIMESTAMP_LENGTH,
            all_digit_bytes(bytes@.take(i as int)),
            v == spec_timestamp_value(bytes@.take(i as int)),
            v < pow10(i as nat),
            pow10(TIMESTAMP_LENGTH as nat) == TIMESTAMP_VALUE_LIMIT,
        decreases TIMESTAMP_LENGTH - i,
    {
        let b = bytes[i];
        if b < 48 || b > 57 {
            assert(!is_digit_byte(bytes@[i as int]));
            return None;
        }
        proof {
            lemma_pow10_increases((i + 1) as nat, TIMESTAMP_LENGTH as nat);
            assert(bytes@.take(i + 1).drop_last() =~= bytes@.take(i as int));
            assert(bytes@.take(i + 1).last() == bytes@[i as int]);
            assert(forall|j: int|
                0 <= j < i + 1 ==> is_digit_byte(#[trigger] bytes@.take(i + 1)[j]));
        }
        v = v * 10 + (b - 48) as u64;
        i = i + 1;
    }
    proof {
        assert(bytes@.take(TIMESTAMP_LENGTH as int) =~= bytes@);
    }
    Some(v)
}

} // verus!
