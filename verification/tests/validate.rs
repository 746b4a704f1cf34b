//! Tests of user input validation.

use krates::kdata::validate::Validate;

#[test]
fn username_validation() {
    let valid_username = "firephoenix";
    let valid_username1 = "natty_dread";
    let valid_username2 = "ironlion_ironii";
    let invalid_username = "";
    let invalid_username1 = "natty_dread_iron";
    let invalid_username2 = "_natty_dread_iron";
    let invalid_username3 = "nattydre@d";
    let invalid_username4 = "nattydread$";
    let invalid_username5 = "firephoenixfirephoenixfirephoenixfirephoenixfirephoenix";

    assert!(Validate::username(valid_username));
    assert!(Validate::username(valid_username1));
    assert!(Validate::username(valid_username2));

    // username cannot be empty
    assert!(!Validate::username(invalid_username));
    // username cannot contain more than 1 underscore
    assert!(!Validate::username(invalid_username1));
    // username cannot start with an underscore
    assert!(!Validate::username(invalid_username2));
    // username cannot contain special symbols (only the _ is allowed)
    assert!(!Validate::username(invalid_username3));
    assert!(!Validate::username(invalid_username4));
    // username cannot be more than 15 characters long
    assert!(!Validate::username(invalid_username5));
}

#[test]
fn email_validation() {
    let valid_email = "example@example.com";
    let valid_email1 = "test@gmail.com";
    let invalid_email = "kdkdf dfkfd@uurt";
    let invalid_email2 = "lolz.lolz";
    let invalid_email3 = "lolz@lolz";

    assert!(Validate::email(valid_email));
    assert!(Validate::email(valid_email1));

    assert!(!Validate::email(invalid_email));
    assert!(!Validate::email(invalid_email2));
    assert!(!Validate::email(invalid_email3));
}

#[test]
fn password_validation() {
    let valid_password = "passwordShoul be at least 10 chars";
    let invalid_password = "lolz";

    assert!(Validate::password(valid_password));
    // Password should be at least 10 characters long
    assert!(!Validate::password(invalid_password));
}
