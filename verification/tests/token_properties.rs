//! End-to-end properties of the kpassport token: round trips, tamper
//! detection, wrong-key rejection, size enforcement, the unsigned
//! guard, and carrier detection.

use base64::Engine;
use krates::krypto::error::KryptoError;
use krates::kong::read_kpassport::get_kpassport;
use krates::krypto::key_derivation::{derive_key, Context};
use krates::krypto::kpassport::{Content, Kpassport};
use krates::krypto::timestamp::{encode_timestamp, parse_timestamp};
use krates::krypto::transport::{authenticate, detect, issue_as_bearer, issue_as_cookie, AuthCarrier};

/// The concrete issue → sign → export → parse → validate scenario.
#[test]
fn concrete_scenario() {
    let username = "my_username";
    let host = "My App";
    let secret = "My super secret signing key";

    let mut token = Kpassport::new_unsigned(username, host).unwrap();
    token.sign(secret).unwrap();

    let signature = token.signature.clone().unwrap();
    assert_eq!(signature.len(), 32);

    let exported = token.export().unwrap();
    assert!(exported.len() < 125);

    let parsed = Kpassport::from_str(&exported).unwrap();
    assert_eq!(parsed.content.username, username);
    assert_eq!(parsed.content.host, host);
    assert!(parsed.validate(secret).is_ok());
    assert_eq!(
        parsed.validate("wrong key"),
        Err(KryptoError::InvalidKpassportSignature)
    );
}

/// Round trip with a multi-byte (non-ASCII) host identifier.
#[test]
fn round_trip_with_unicode_host() {
    let mut token = Kpassport::new_unsigned("moi", "Köln čaj ☕").unwrap();
    token.sign("secret").unwrap();
    let before = token.clone();
    let exported = token.export().unwrap();
    let parsed = Kpassport::from_str(&exported).unwrap();
    assert_eq!(parsed, before);
    assert!(parsed.validate("secret").is_ok());
}

/// Flipping any single byte of the decoded wire form makes validation
/// (or parsing) fail.
#[test]
fn tamper_detection() {
    let secret = "My super secret signing key";
    let mut token = Kpassport::new_unsigned("my_username", "My App").unwrap();
    token.sign(secret).unwrap();
    let exported = token.export().unwrap();

    let engine = base64::engine::general_purpose::URL_SAFE;
    let decoded = engine.decode(&exported).unwrap();

    for i in 0..decoded.len() {
        let mut tampered = decoded.clone();
        tampered[i] ^= 0x01;
        let reencoded = engine.encode(&tampered);
        let rejected = match Kpassport::from_str(&reencoded) {
            Err(_) => true,
            Ok(parsed) => parsed.validate(secret).is_err(),
        };
        assert!(rejected, "byte {} flipped but the token passed", i);
    }
}

/// A token signed with one secret never validates under another.
#[test]
fn wrong_key_rejection() {
    let mut token = Kpassport::new_unsigned("my_username", "My App").unwrap();
    token.sign("secret_A").unwrap();
    assert_eq!(
        token.validate("secret_B"),
        Err(KryptoError::InvalidKpassportSignature)
    );
    assert!(token.validate("secret_A").is_ok());
}

/// The field width limits are enforced at construction.
#[test]
fn size_enforcement() {
    let long_username = "u".repeat(16);
    let long_host = "h".repeat(46);
    let max_username = "u".repeat(15);
    let max_host = "h".repeat(45);

    assert!(matches!(
        Kpassport::new_unsigned(&long_username, "h"),
        Err(KryptoError::KpassportSize)
    ));
    assert!(matches!(
        Kpassport::new_unsigned("u", &long_host),
        Err(KryptoError::KpassportSize)
    ));
    assert!(Kpassport::new_unsigned(&max_username, &max_host).is_ok());
}

/// Even at the maximum field widths the exported text stays small: 113
/// decoded bytes become 152 base64 characters, far below a browser's
/// single-cookie budget.
#[test]
fn export_length_at_maximum_widths() {
    let max_username = "u".repeat(15);
    let max_host = "h".repeat(45);
    let mut token = Kpassport::new_unsigned(&max_username, &max_host).unwrap();
    token.sign("secret").unwrap();
    let exported = token.export().unwrap();
    assert_eq!(exported.len(), 152);
}

/// Export and validation refuse a freshly constructed (unsigned) token.
#[test]
fn unsigned_guard() {
    let token = Kpassport::new_unsigned("my_username", "My App").unwrap();
    assert_eq!(
        token.validate("any key"),
        Err(KryptoError::KpassportNotSigned)
    );
    assert_eq!(
        token.clone().export(),
        Err(KryptoError::KpassportNotSigned)
    );
}

/// The cookie takes precedence when both carriers are present.
#[test]
fn carrier_detection_priority() {
    let r = detect(
        Some("cookie-token".to_string()),
        Some("Bearer header-token".to_string()),
    );
    match r {
        Ok(AuthCarrier::Cookie(v)) => assert_eq!(v, "cookie-token"),
        _ => panic!("cookie must take precedence"),
    }
}

/// A request with neither carrier yields `MissingAuthenticationCredentials`.
#[test]
fn missing_credentials() {
    assert!(matches!(
        detect(None, None),
        Err(KryptoError::MissingAuthenticationCredentials)
    ));
}

/// Bearer detection strips the scheme prefix; other schemes are not
/// credentials.
#[test]
fn bearer_detection() {
    match detect(None, Some("Bearer abc.def".to_string())) {
        Ok(AuthCarrier::BearerToken(tok)) => assert_eq!(tok, "abc.def"),
        _ => panic!("bearer token expected"),
    }
    assert!(matches!(
        detect(None, Some("Basic dXNlcg==".to_string())),
        Err(KryptoError::MissingAuthenticationCredentials)
    ));
}

/// Authentication through either carrier parses and validates the token.
#[test]
fn authenticate_carriers() {
    let secret = "My super secret signing key";
    let mut token = Kpassport::new_unsigned("my_username", "My App").unwrap();
    token.sign(secret).unwrap();
    let exported = token.clone().export().unwrap();

    let from_cookie = authenticate(AuthCarrier::Cookie(exported.clone()), secret).unwrap();
    assert_eq!(from_cookie, token);

    let from_bearer = authenticate(AuthCarrier::BearerToken(exported.clone()), secret).unwrap();
    assert_eq!(from_bearer, token);

    assert_eq!(
        authenticate(AuthCarrier::Cookie(exported), "other"),
        Err(KryptoError::InvalidKpassportSignature)
    );
    assert_eq!(
        authenticate(AuthCarrier::Cookie("not base64 !!".to_string()), secret),
        Err(KryptoError::InvalidKpassport)
    );
}

/// Header formatting for the two carriers.
#[test]
fn carrier_header_values() {
    assert_eq!(
        issue_as_cookie("TOKEN", "session"),
        "session=TOKEN; Secure; HttpOnly"
    );
    assert_eq!(issue_as_bearer("TOKEN"), "Bearer TOKEN");
}

/// Reading a token off a request's cookie reports every failure as one
/// `InvalidKpassport`.
#[test]
fn read_kpassport_from_cookie() {
    let secret = "My super secret signing key";
    let mut token = Kpassport::new_unsigned("my_username", "My App").unwrap();
    token.sign(secret).unwrap();
    let exported = token.clone().export().unwrap();

    let read = get_kpassport(Some(exported.clone()), secret).unwrap();
    assert_eq!(read, token);

    assert_eq!(
        get_kpassport(None, secret),
        Err(KryptoError::InvalidKpassport)
    );
    assert_eq!(
        get_kpassport(Some("garbage".to_string()), secret),
        Err(KryptoError::InvalidKpassport)
    );
    assert_eq!(
        get_kpassport(Some(exported), "wrong key"),
        Err(KryptoError::InvalidKpassport)
    );
}

/// The exported text is URL-safe base64 of bytes that contain the
/// reserved separator, so the text itself can never echo the raw bytes.
#[test]
fn export_is_encoded() {
    let mut token = Kpassport::new_unsigned("my_username", "My App").unwrap();
    token.sign("secret").unwrap();
    let exported = token.export().unwrap();
    assert!(!exported.contains('@'));
    assert!(exported
        .chars()
        .all(|c| c.is_ascii_alphanumeric() || c == '-' || c == '_' || c == '='));
}

/// The recomputed signature is exactly blake3's keyed hash under the
/// derived key of the claim's bytes.
#[test]
fn signature_matches_blake3() {
    let secret = "My super secret signing key";
    let mut token = Kpassport::new_unsigned("my_username", "My App").unwrap();
    token.sign(secret).unwrap();

    let content_bytes = token.content.as_bytes().unwrap();
    let derived = derive_key(
        Context {
            host: token.content.host.clone(),
            timestamp: token.content.timestamp,
        },
        secret.as_bytes(),
    );
    let expected = blake3::keyed_hash(&derived, &content_bytes);
    assert_eq!(
        token.signature.unwrap(),
        expected.as_bytes().to_vec()
    );
}

/// The fixed-width timestamp field round-trips every representable
/// instant and rejects non-digits.
#[test]
fn timestamp_field_round_trip() {
    for ts in [0u64, 1, 1234, 9_999_999_999_999_999_999] {
        let bytes = encode_timestamp(ts);
        assert_eq!(bytes.len(), 19);
        assert_eq!(parse_timestamp(&bytes), Some(ts));
    }
    assert_eq!(encode_timestamp(7)[0], b'0');
    assert_eq!(
        parse_timestamp(b"00000000000000000x7"),
        None
    );
}

/// Each decode-time error kind has an input that produces it.
#[test]
fn decode_error_kinds() {
    // no separator anywhere
    assert_eq!(
        Content::from_bytes(b"nosephere0000000000000001234".to_vec()),
        Err(KryptoError::MissingUsernameHostSeperator)
    );
    // username region is not UTF-8
    let mut bad_username = vec![0xffu8, b'@'];
    bad_username.extend_from_slice(b"host");
    bad_username.extend_from_slice(b"0000000000000001234");
    assert_eq!(
        Content::from_bytes(bad_username),
        Err(KryptoError::InvalidKpassportUsername)
    );
    // too short to hold a timestamp field
    assert_eq!(
        Content::from_bytes(b"u@h".to_vec()),
        Err(KryptoError::InvalidKpassportTimestamp)
    );
    // timestamp field holds a non-digit
    assert_eq!(
        Content::from_bytes(b"u@h000000000000000123x".to_vec()),
        Err(KryptoError::InvalidKpassportTimestamp)
    );
    // the first separator sits inside the timestamp field, so the
    // timestamp check fails first
    assert_eq!(
        Content::from_bytes(b"uuuuu0000000000000@1234".to_vec()),
        Err(KryptoError::InvalidKpassportTimestamp)
    );
    // host region is not UTF-8
    let mut bad_host = vec![b'u', b'@', 0xff];
    bad_host.extend_from_slice(b"0000000000000001234");
    assert_eq!(
        Content::from_bytes(bad_host),
        Err(KryptoError::InvalidKpassportHost)
    );
    // not base64 at all
    assert_eq!(
        Kpassport::from_str("!!!"),
        Err(KryptoError::InvalidKpassport)
    );
    // valid base64 but too short to hold a signature
    let engine = base64::engine::general_purpose::URL_SAFE;
    let short = engine.encode(b"short");
    assert_eq!(
        Kpassport::from_str(&short),
        Err(KryptoError::InvalidKpassport)
    );
    // a signature value must be exactly 32 bytes
    assert_eq!(
        Kpassport::signature_from_bytes(vec![1, 2, 3]),
        Err(KryptoError::InvalidKpassportSignature)
    );
}

/// A username holding the reserved separator is rejected by the codec
/// when the token is signed.
#[test]
fn separator_in_username_is_rejected() {
    let mut token = Kpassport::new_unsigned("user@name", "My App").unwrap();
    assert_eq!(
        token.sign("secret"),
        Err(KryptoError::InvalidKpassportUsername)
    );
    assert!(token.signature.is_none());
}
