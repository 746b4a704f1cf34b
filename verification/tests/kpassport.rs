//! Tests of the kpassport content codec and token engine.

use krates::krypto::key_derivation::{derive_key, Context};
use krates::krypto::kpassport::{Content, Kpassport};
use krates::krypto::outside::current_timestamp;

#[test]
fn kpassport_content_as_bytes() {
    let content = Content {
        host: "fdjdkfdjk".to_string(),
        username: "kjkdffdjdfjf".to_string(),
        timestamp: current_timestamp(),
    };
    let content2 = Content {
        host: "fdjdkfdjk".to_string(),
        username: "kjkdffdjdfjfkdfjdfddkffdjdfjdflkdjdflkdflddflkdfjldfjdljdkjdfkldfldfjlkdjdkljdfkjdfkldjdkjdfkdjfkdfjdkfjdfkdf".to_string(),
        timestamp: current_timestamp(),
    };

    let content_bytes = content.as_bytes();
    let content2_bytes = content2.as_bytes();

    if content_bytes.is_err() {
        panic!("Should not error");
    }

    if content2_bytes.is_ok() {
        panic!("Should error because the username is too large");
    }
}

#[test]
fn kpassport_content_from_bytes() {
    let content = Content {
        host: "fdjdkfdjk".to_string(),
        username: "kjkdffdjdfjf".to_string(),
        timestamp: current_timestamp(),
    };
    let content_bytes = content.as_bytes().unwrap();
    let content2 = Content::from_bytes(content_bytes).unwrap();

    assert_eq!(content.username, content2.username);
    assert_eq!(content.host, content2.host);
    assert_eq!(content.timestamp, content2.timestamp);
}

#[test]
fn get_username_from_kpassport_content_bytes() {
    let content = Content {
        host: "fdjdkfdjk".to_string(),
        username: "kjkdffdjdfjf".to_string(),
        timestamp: current_timestamp(),
    };
    let content_bytes = content.as_bytes().unwrap();

    assert_eq!(
        content.username,
        Content::get_username(content_bytes.clone()).unwrap()
    );

    assert_ne!(
        "wrong username",
        Content::get_username(content_bytes).unwrap()
    );
}

#[test]
fn get_host_from_kpassport_content_bytes() {
    let content = Content {
        host: "fdjdkfdjk".to_string(),
        username: "kjkdffdjdfjf".to_string(),
        timestamp: current_timestamp(),
    };
    let content_bytes = content.as_bytes().unwrap();

    assert_eq!(
        content.host,
        Content::get_host(content_bytes.clone()).unwrap()
    );

    assert_ne!("wrong host", Content::get_host(content_bytes).unwrap());

    let content = Content {
        host: "ddlneuykjnnrsslin".to_string(),
        username: "difimnnn".to_string(),
        timestamp: current_timestamp(),
    };
    let content_bytes = content.as_bytes().unwrap();

    assert_eq!(
        content.host,
        Content::get_host(content_bytes.clone()).unwrap()
    );

    assert_ne!(
        "wrong host very wrong",
        Content::get_host(content_bytes).unwrap()
    );
}

#[test]
fn get_timestamp_from_kpassport_content_bytes() {
    let content = Content {
        host: "fdjdkfdjk".to_string(),
        username: "kjkdffdjdfjf".to_string(),
        timestamp: current_timestamp(),
    };
    let content_bytes = content.as_bytes().unwrap();

    assert_eq!(
        content.timestamp,
        Content::get_timestamp(content_bytes.clone()).unwrap()
    );

    assert_ne!(
        "wrong username",
        Content::get_username(content_bytes).unwrap()
    );
}

#[test]
fn new_unsigned_kpassport() {
    let kpassport = Kpassport::new_unsigned("My App", "my_username");
    let kpassport2 = Kpassport::new_unsigned(
        "My fdkkkkkkkkkkkkkkkkkkkkkkkkkkkkkkkkkkkkkkkkkkkkkddffffffffakjdfApp",
        "my_username",
    );
    let kpassport3 = Kpassport::new_unsigned(
        "My App",
        "my_usernamedsfhjdffffffffffffffffffffffffffffffffffffffffffffffffffffffffff",
    );

    match kpassport {
        Ok(kp) => {
            if let Some(_sig) = kp.signature {
                panic!("kpassport should not be signed");
            }
        }
        Err(_) => panic!("Should not error"),
    }

    if kpassport2.is_ok() {
        panic!("Should error because the hostname is too large")
    }

    if kpassport3.is_ok() {
        panic!("Should error because the username is too large")
    }
}

#[test]
fn kpassport_sign() {
    let mut kpassport = Kpassport::new_unsigned("My App", "my_username").unwrap();
    let key = "My super secret signing key";
    kpassport.sign(key).unwrap();

    match kpassport.signature {
        Some(sig) => {
            assert_eq!(sig.len(), 32)
        }
        _ => panic!("Kpassport signature not found"),
    }
}

#[test]
fn kpassport_validate() {
    let mut kpassport = Kpassport::new_unsigned("My App", "my_username").unwrap();
    let key = "My super secret signing key";
    kpassport.sign(key).unwrap();

    let validation = kpassport.validate(key);
    let validation2 = kpassport.validate("wrong key");

    if validation.is_err() {
        panic!("Should not error");
    }

    if validation2.is_ok() {
        panic!("Should error because wrong key was provided");
    }

    let kpassport = Kpassport::new_unsigned("My App", "my_username").unwrap();
    let validation = kpassport.validate(key);

    if validation.is_ok() {
        panic!("Should error, because kpassport is not signed");
    }
}

#[test]
fn kpassport_export() {
    let mut kpassport = Kpassport::new_unsigned("My App", "my_username").unwrap();
    let key = "My super secret signing key";
    kpassport.sign(key).unwrap();
    let export = kpassport.export();

    match export {
        Ok(kpassport_string) => {
            assert!(kpassport_string.len() < 125);
        }
        Err(_) => panic!("Could not export kpassport"),
    }
}

#[test]
fn signature_from_bytes() {
    let mut kpassport = Kpassport::new_unsigned("My App", "my_username").unwrap();
    let key = "My super secret signing key";
    kpassport.sign(key).unwrap();

    match kpassport.signature {
        Some(signature) => {
            let derived_signature = Kpassport::signature_from_bytes(signature.clone()).unwrap();
            assert_eq!(signature, derived_signature);

            let key_derivation_context = Context {
                host: "www.example.com".to_string(),
                timestamp: current_timestamp(),
            };
            let derived_key = derive_key(key_derivation_context, key.as_bytes());
            let wrong_hash = blake3::keyed_hash(&derived_key, b"wrong content");
            assert_ne!(wrong_hash.as_bytes().to_vec(), signature);
        }
        None => panic!("Kpassport not signed"),
    }
}

#[test]
fn from_str() {
    let mut kpassport = Kpassport::new_unsigned("myusername", "myhostname").unwrap();
    kpassport.sign("secret key").unwrap();
    let kpassport_str = kpassport.clone().export().unwrap();
    let derived_kpassport = Kpassport::from_str(&kpassport_str).unwrap();

    assert_eq!(kpassport.content, derived_kpassport.content);
    assert_eq!(kpassport.signature, derived_kpassport.signature);
    assert_eq!(kpassport, derived_kpassport);
    assert_eq!(
        kpassport.content.username,
        derived_kpassport.content.username
    );
}
