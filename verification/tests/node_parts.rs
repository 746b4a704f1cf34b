//! Tests of the smaller verified pieces of the node.

use krates::alkindi::count_letters;
use krates::kdata::inputs::{AccountAuthInput, AccountCreationInput, NoInput, UserInput};
use krates::kdata::resource::ResourceError;
use krates::kdata::validate::ValidationError;
use krates::kerror::KError as StoreError;
use krates::klient::KongJSBuilder;
use krates::kong::error::KError as NodeError;
use krates::kong::error_response::ErrorResponse;
use krates::kong::kontrol::issue_kpassport::IssueKpassport;
use krates::kong::log::Log;
use krates::kong::kontrol::error_response::ErrorResponse as KontrolErrorResponse;
use krates::kong::kontrol::Method as KontrolMethod;
use krates::kong::kroute::Method as KrouteMethod;
use krates::krypto::error::KryptoError;
use krates::krypto::kpassport::Kpassport;

#[test]
fn letter_counting() {
    let counts = count_letters("hello").unwrap();
    let expect = |c: char, n: u32| {
        let entry = counts
            .letters
            .iter()
            .find(|l| l.character == c)
            .expect("letter missing");
        assert_eq!(entry.count, n);
    };
    expect('h', 1);
    expect('e', 1);
    expect('l', 2);
    expect('o', 1);
    assert_eq!(counts.letters.len(), 4);
}

#[test]
fn kontrol_method_names() {
    assert_eq!(KontrolMethod::from_str("GET"), Ok(KontrolMethod::Get));
    assert_eq!(KontrolMethod::from_str("POST"), Ok(KontrolMethod::Post));
    assert_eq!(KontrolMethod::from_str("PUT"), Ok(KontrolMethod::Put));
    assert_eq!(KontrolMethod::from_str("HEAD"), Ok(KontrolMethod::Head));
    assert_eq!(KontrolMethod::from_str("Delete"), Ok(KontrolMethod::Delete));
    assert_eq!(KontrolMethod::from_str("Options"), Ok(KontrolMethod::Options));
    assert_eq!(
        KontrolMethod::from_str("DELETE"),
        Err(StoreError::InvalidHttpMethod)
    );
}

#[test]
fn kroute_method_names() {
    assert_eq!(KrouteMethod::from_str("DELETE"), Ok(KrouteMethod::Delete));
    assert_eq!(KrouteMethod::from_str("OPTIONS"), Ok(KrouteMethod::Options));
    assert_eq!(KrouteMethod::from_str("get"), Err(NodeError::InvalidHttpMethod));
    assert_eq!(KrouteMethod::Get.as_str(), "GET");
    assert_eq!(KrouteMethod::Options.as_str(), "OPTIONS");
}

#[test]
fn log_line_format() {
    assert_eq!(
        Log::format_line("2024-01-01 00:00:00", "node started"),
        "---+ [2024-01-01 00:00:00]: node started"
    );
}

#[test]
fn js_bundle_assembly() {
    let all = KongJSBuilder::build("main;", Some("accounts;"), Some("login;"), Some("props;"));
    assert_eq!(all, "main;accounts;login;props;");
    let only_login = KongJSBuilder::build("main;", None, Some("login;"), None);
    assert_eq!(only_login, "main;login;");
}

#[test]
fn admin_check() {
    let secret = "secret";
    let mut token = Kpassport::new_unsigned("admin_user", "node").unwrap();
    token.sign(secret).unwrap();

    let admin = "admin_user".to_string();
    let other = "someone_else".to_string();
    assert!(IssueKpassport::is_admin(Some(&admin), Some(&token)));
    assert!(!IssueKpassport::is_admin(Some(&other), Some(&token)));
    assert!(!IssueKpassport::is_admin(None, Some(&token)));
    assert!(!IssueKpassport::is_admin(Some(&admin), None));
}

#[test]
fn input_validation() {
    assert!(NoInput.is_valid().is_ok());

    let good = AccountCreationInput {
        username: "firephoenix".to_string(),
        email: Some("example@example.com".to_string()),
        password: "longenoughpassword".to_string(),
    };
    assert!(good.is_valid().is_ok());

    let bad_username = AccountCreationInput {
        username: "_firephoenix".to_string(),
        email: None,
        password: "longenoughpassword".to_string(),
    };
    assert!(matches!(
        bad_username.is_valid(),
        Err(ValidationError::Username)
    ));

    let bad_password = AccountAuthInput {
        username: "firephoenix".to_string(),
        password: "short".to_string(),
    };
    assert!(matches!(
        bad_password.is_valid(),
        Err(ValidationError::Password)
    ));

    let bad_email = AccountCreationInput {
        username: "firephoenix".to_string(),
        email: Some("nodotsign".to_string()),
        password: "longenoughpassword".to_string(),
    };
    assert!(matches!(bad_email.is_valid(), Err(ValidationError::Email)));
}

#[test]
fn resource_error_statuses() {
    assert_eq!(
        ErrorResponse::with_message("Bad request").error_message,
        "Bad request"
    );
    assert_eq!(
        KontrolErrorResponse::map_resource_error(&ResourceError::BadRequest),
        400
    );
    assert_eq!(
        KontrolErrorResponse::map_resource_error(&ResourceError::Unauthorized),
        401
    );
    assert_eq!(
        KontrolErrorResponse::map_resource_error(&ResourceError::NotFound),
        404
    );
    assert_eq!(
        KontrolErrorResponse::map_resource_error(&ResourceError::Internal),
        500
    );
}

#[test]
fn error_messages() {
    assert_eq!(
        KryptoError::KpassportSize.message(),
        "Invalid kpassport size"
    );
    assert_eq!(StoreError::Config.message(), "Could not read config file");
    assert_eq!(NodeError::LogFile.message(), "Log file error");
    assert_eq!(ValidationError::Username.message(), "Invalid username");
    assert_eq!(ResourceError::NotFound.message(), "Resource not found");
}
