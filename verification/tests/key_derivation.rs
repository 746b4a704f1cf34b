//! Tests of per-token key derivation.

use krates::krypto::key_derivation::{derive_key, Context};
use krates::krypto::outside::current_timestamp;

#[test]
fn test_key_derivation() {
    let key_material = "my super secure secret key".as_bytes();
    let context = Context {
        host: "My Application".to_string(),
        timestamp: current_timestamp(),
    };

    let derived_key = derive_key(context, key_material);

    let key_material2 = "secret".as_bytes();
    let context2 = Context {
        host: "My Application".to_string(),
        timestamp: current_timestamp(),
    };

    let derived_key2 = derive_key(context2, key_material2);

    assert_eq!(derived_key.len(), 32);
    assert_eq!(derived_key2.len(), 32);
    assert_ne!(derived_key, derived_key2);
}

/// The derivation context is `"{host} {timestamp} kpassport-token"` with
/// the timestamp zero-padded to 19 digits: deriving through the library
/// must agree with calling blake3 on that exact string.
#[test]
fn derivation_context_format() {
    let key_material = "top secret".as_bytes();
    let context = Context {
        host: "My App".to_string(),
        timestamp: 1234,
    };
    let derived = derive_key(context, key_material);

    let expected = blake3::derive_key("My App 0000000000000001234 kpassport-token", key_material);
    assert_eq!(derived, expected);
}

/// Different timestamps yield different keys (with overwhelming
/// probability); same inputs yield the same key.
#[test]
fn derivation_is_deterministic() {
    let key = "k".as_bytes();
    let a = derive_key(
        Context { host: "h".to_string(), timestamp: 1 },
        key,
    );
    let b = derive_key(
        Context { host: "h".to_string(), timestamp: 1 },
        key,
    );
    let c = derive_key(
        Context { host: "h".to_string(), timestamp: 2 },
        key,
    );
    assert_eq!(a, b);
    assert_ne!(a, c);
}
