//! The load-bearing theorems of the token format.
//!
//! The codec lemmas show that the fixed-layout encoding is lossless and
//! unambiguous; the token-level lemmas show that a well-formed signed
//! token survives the export/parse round trip exactly, and that a
//! single-byte change of the decoded form cannot go unnoticed in what
//! parsing returns.

use crate::krypto::defaults::{SEPARATOR_BYTE, SIGNATURE_LENGTH, TIMESTAMP_LENGTH};
use crate::krypto::error::KryptoError;
use crate::krypto::kpassport::{
    lemma_separator_index, spec_content_bytes, spec_content_valid, spec_decode_content,
    spec_has_separator, spec_parse_bytes, spec_separator_index, spec_signature, Kpassport,
};
use crate::krypto::timestamp::{
    lemma_pow10_timestamp, lemma_timestamp_bytes_to_value, lemma_timestamp_value_to_bytes,
    spec_timestamp_bytes,
};
use vstd::prelude::*;
use vstd::utf8::{
    decode_utf8, decode_utf8_encode_utf8, encode_utf8, encode_utf8_decode_utf8,
    encode_utf8_valid_utf8, valid_utf8,
};

verus! {

/// In the encoding of a well-formed claim, the first separator byte
/// stands exactly where the username ends.
proof fn lemma_content_bytes_separator(username: Seq<char>, host: Seq<char>, timestamp: u64)
    requires
        spec_content_valid(username, host, timestamp),
    ensures
        spec_has_separator(spec_content_bytes(username, host, timestamp)),
        spec_separator_index(spec_content_bytes(username, host, timestamp)) == encode_utf8(
            username,
        ).len(),
{
    let ub = encode_utf8(username);
    let bytes = spec_content_bytes(username, host, timestamp);
    assert(bytes[ub.len() as int] == SEPARATOR_BYTE);
    assert(spec_has_separator(bytes));
    lemma_separator_index(bytes);
    let sep = spec_separator_index(bytes);
    if sep < ub.len() {
        assert(bytes[sep] == ub[sep]);
        assert(ub.contains(SEPARATOR_BYTE));
    }
    if sep > ub.len() {
        assert(bytes[ub.len() as int] != SEPARATOR_BYTE);
    }
}

/// **Codec round trip**: decoding the encoding of any well-formed claim
/// reproduces the claim exactly — same username, same host, same
/// timestamp.
pub proof fn lemma_content_round_trip(username: Seq<char>, host: Seq<char>, timestamp: u64)
    requires
        spec_content_valid(username, host, timestamp),
    ensures
        spec_decode_content(spec_content_bytes(username, host, timestamp)) == Ok::<_, KryptoError>(
            (username, host, timestamp),
        ),
{
    let ub = encode_utf8(username);
    let hb = encode_utf8(host);
    let tb = spec_timestamp_bytes(timestamp as int, TIMESTAMP_LENGTH as nat);
    let bytes = spec_content_bytes(username, host, timestamp);

    lemma_pow10_timestamp();
    lemma_timestamp_bytes_to_value(timestamp as int, TIMESTAMP_LENGTH as nat);
    lemma_content_bytes_separator(username, host, timestamp);
    let sep = spec_separator_index(bytes);

    assert(bytes.subrange(0, sep) =~= ub);
    encode_utf8_valid_utf8(username);
    encode_utf8_decode_utf8(username);

    assert(bytes.len() == ub.len() + 1 + hb.len() + TIMESTAMP_LENGTH);
    assert(bytes.subrange(bytes.len() - TIMESTAMP_LENGTH, bytes.len() as int) =~= tb);

    assert(bytes.subrange(sep + 1, bytes.len() - TIMESTAMP_LENGTH) =~= hb);
    encode_utf8_valid_utf8(host);
    encode_utf8_decode_utf8(host);
}

/// **Unambiguity**: two well-formed claims with the same encoding are
/// the same claim.
pub proof fn lemma_content_bytes_injective(
    u1: Seq<char>,
    h1: Seq<char>,
    t1: u64,
    u2: Seq<char>,
    h2: Seq<char>,
    t2: u64,
)
    requires
        spec_content_valid(u1, h1, t1),
        spec_content_valid(u2, h2, t2),
        spec_content_bytes(u1, h1, t1) == spec_content_bytes(u2, h2, t2),
    ensures
        u1 == u2 && h1 == h2 && t1 == t2,
{
    lemma_content_round_trip(u1, h1, t1);
    lemma_content_round_trip(u2, h2, t2);
}

/// **Decoding inverts encoding**: whatever claim decoding accepts, its
/// re-encoding is the very byte sequence decoded — content bytes carry
/// no slack.  (Decoding does not enforce the width limits, so only the
/// separator and timestamp parts of well-formedness are returned.)
pub proof fn lemma_decode_then_encode(bytes: Seq<u8>, u: Seq<char>, h: Seq<char>, t: u64)
    requires
        spec_decode_content(bytes) == Ok::<_, KryptoError>((u, h, t)),
    ensures
        spec_content_bytes(u, h, t) == bytes,
        !encode_utf8(u).contains(SEPARATOR_BYTE),
        t < crate::krypto::defaults::TIMESTAMP_VALUE_LIMIT,
{
    lemma_separator_index(bytes);
    let sep = spec_separator_index(bytes);
    let ub = bytes.subrange(0, sep);
    let tb = bytes.subrange(bytes.len() - TIMESTAMP_LENGTH, bytes.len() as int);
    let hb = bytes.subrange(sep + 1, bytes.len() - TIMESTAMP_LENGTH);

    decode_utf8_encode_utf8(ub);
    decode_utf8_encode_utf8(hb);
    assert(encode_utf8(u) == ub);
    assert(encode_utf8(h) == hb);

    assert(!ub.contains(SEPARATOR_BYTE)) by {
        assert(forall|j: int| 0 <= j < ub.len() ==> ub[j] == #[trigger] bytes[j]);
    }

    lemma_timestamp_value_to_bytes(tb);
    lemma_pow10_timestamp();
    assert(spec_timestamp_bytes(t as int, TIMESTAMP_LENGTH as nat) == tb);

    assert(bytes[sep] == SEPARATOR_BYTE);
    assert(spec_content_bytes(u, h, t) =~= bytes);
}

/// **Token round trip**: splitting and decoding the decoded wire form of
/// a well-formed signed token reproduces the claim and the signature
/// exactly, and a token holding exactly that claim and the signature
/// that `sign` stores validates successfully against the same key.
pub proof fn lemma_token_round_trip(
    username: Seq<char>,
    host: Seq<char>,
    timestamp: u64,
    key: Seq<char>,
    sig: Seq<u8>,
)
    requires
        spec_content_valid(username, host, timestamp),
        sig.len() == SIGNATURE_LENGTH,
    ensures
        spec_parse_bytes(spec_content_bytes(username, host, timestamp) + sig) == Ok::<
            _,
            KryptoError,
        >(((username, host, timestamp), sig)),
        sig == spec_signature(username, host, timestamp, key) ==> forall|tok: Kpassport|
            tok.content.username@ == username && tok.content.host@ == host
                && tok.content.timestamp == timestamp && (#[trigger] tok.signature matches Some(s)
                && s@ == sig) ==> tok.spec_validate(key) == Ok::<(), KryptoError>(()),
{
    let cb = spec_content_bytes(username, host, timestamp);
    let bytes = cb + sig;
    assert(bytes.subrange(0, bytes.len() - SIGNATURE_LENGTH) =~= cb);
    assert(bytes.subrange(bytes.len() - SIGNATURE_LENGTH, bytes.len() as int) =~= sig);
    lemma_content_round_trip(username, host, timestamp);
}

/// **Tamper detection**: change any single byte of a well-formed signed
/// token's decoded form, and parsing either fails or returns a
/// claim/signature pair that differs from the original; a change inside
/// the signature region leaves the claim intact but yields a signature
/// that no longer matches the one `sign` computes, so validation is
/// certain to reject it.  (For a change inside the content region,
/// rejection by `validate` additionally rests on the keyed hash not
/// colliding, which no contract of this crate states.)
pub proof fn lemma_tamper_detected(
    username: Seq<char>,
    host: Seq<char>,
    timestamp: u64,
    key: Seq<char>,
    sig: Seq<u8>,
    i: int,
    b: u8,
)
    requires
        spec_content_valid(username, host, timestamp),
        sig.len() == SIGNATURE_LENGTH,
        sig == spec_signature(username, host, timestamp, key),
        0 <= i < spec_content_bytes(username, host, timestamp).len() + SIGNATURE_LENGTH,
        b != (spec_content_bytes(username, host, timestamp) + sig)[i],
    ensures
        ({
            let cb = spec_content_bytes(username, host, timestamp);
            let tampered = (cb + sig).update(i, b);
            match spec_parse_bytes(tampered) {
                Err(_) => true,
                Ok(parts) => !(parts.0.0 == username && parts.0.1 == host && parts.0.2 == timestamp
                    && parts.1 == sig) && (i >= cb.len() ==> parts.0.0 == username && parts.0.1
                    == host && parts.0.2 == timestamp && parts.1 != spec_signature(
                    username,
                    host,
                    timestamp,
                    key,
                )),
            }
        }),
{
    let cb = spec_content_bytes(username, host, timestamp);
    let n = cb.len() as int;
    let original = cb + sig;
    let tampered = original.update(i, b);
    let cr = tampered.subrange(0, n);
    let sr = tampered.subrange(n, tampered.len() as int);

    match spec_parse_bytes(tampered) {
        Err(_) => {},
        Ok(parts) => {
            let u2 = parts.0.0;
            let h2 = parts.0.1;
            let t2 = parts.0.2;
            lemma_decode_then_encode(cr, u2, h2, t2);
            assert(parts.1 == sr);

            if u2 == username && h2 == host && t2 == timestamp && sr == sig {
                assert(tampered =~= original);
                assert(tampered[i] == original[i]);
            }
            if i >= n {
                assert(cr =~= cb);
                lemma_content_round_trip(username, host, timestamp);
                assert(u2 == username && h2 == host && t2 == timestamp);
                assert(sr[i - n] == b && sig[i - n] == original[i]);
                assert(sr != sig);
            }
        },
    }
}

} // verus!
