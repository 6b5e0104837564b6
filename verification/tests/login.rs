use finance_app::pages::registration_login_page::{
    is_password_relevant, is_passwords_identical, Login, RegistrationError,
};

#[test]
fn password_of_nine_letters_and_digits_is_relevant() {
    assert!(is_password_relevant("abcDEF123"));
    assert!(is_password_relevant("aaaaaaaaaa"));
    assert!(is_password_relevant("0123456789"));
}

#[test]
fn password_of_eight_characters_is_too_short() {
    assert!(!is_password_relevant("abcd1234"));
    assert!(!is_password_relevant(""));
}

#[test]
fn password_with_other_characters_is_rejected() {
    assert!(!is_password_relevant("abcdef12!"));
    assert!(!is_password_relevant("abc def12"));
    assert!(!is_password_relevant("abcdef12\u{0430}"));
}

#[test]
fn passwords_identical_requires_a_present_equal_repeat() {
    assert!(!is_passwords_identical("secret", None));
    let repeated = "secret".to_string();
    assert!(is_passwords_identical("secret", Some(&repeated)));
    let different = "secreT".to_string();
    assert!(!is_passwords_identical("secret", Some(&different)));
}

#[test]
fn fresh_registration_page_has_empty_fields_and_a_repeat_entry() {
    let login = Login::new_registration_page();
    assert_eq!(login.get_login(), "");
    assert_eq!(login.get_password(), "");
    assert_eq!(login.get_repeated_password(), "");
    assert!(login.get_registration_error().is_none());
    assert!(login.get_login_error().is_none());
    assert!(!login.is_registered());
}

#[test]
fn fresh_login_page_has_no_repeat_entry_and_counts_as_registered() {
    let login = Login::new_login_page();
    assert_eq!(login.get_login(), "");
    assert_eq!(login.get_password(), "");
    assert!(login.repeat_password_field.is_none());
    assert!(login.is_registered());
}

#[test]
fn field_setters_store_what_was_typed() {
    let mut login = Login::new_registration_page();
    login.change_login("me@example.com".to_string());
    login.change_password("abcDEF123".to_string());
    login.change_repeated_password("abcDEF123".to_string());
    assert_eq!(login.get_login(), "me@example.com");
    assert_eq!(login.get_password(), "abcDEF123");
    assert_eq!(login.get_repeated_password(), "abcDEF123");
}

#[test]
fn registered_flag_can_be_raised() {
    let mut login = Login::new_registration_page();
    assert!(!login.is_registered());
    login.registered();
    assert!(login.is_registered());
}

#[test]
fn check_password_flags_an_irrelevant_password() {
    let mut login = Login::new_registration_page();
    login.change_password("short".to_string());
    login.change_repeated_password("short".to_string());
    assert!(!login.check_password());
    assert!(matches!(
        login.get_registration_error(),
        Some(RegistrationError::IrrelevantPassword)
    ));
}

#[test]
fn check_password_flags_mismatched_entries() {
    let mut login = Login::new_registration_page();
    login.change_password("abcDEF123".to_string());
    login.change_repeated_password("abcDEF124".to_string());
    assert!(!login.check_password());
    assert!(matches!(
        login.get_registration_error(),
        Some(RegistrationError::DifferentPasswords)
    ));
}

#[test]
fn check_password_prefers_the_relevance_verdict() {
    // Both checks fail; the irrelevant-password verdict wins.
    let mut login = Login::new_registration_page();
    login.change_password("bad".to_string());
    login.change_repeated_password("other".to_string());
    assert!(!login.check_password());
    assert!(matches!(
        login.get_registration_error(),
        Some(RegistrationError::IrrelevantPassword)
    ));
}

#[test]
fn check_password_accepts_a_valid_pair_and_clears_the_verdict() {
    let mut login = Login::new_registration_page();
    login.change_password("bad".to_string());
    login.change_repeated_password("bad".to_string());
    assert!(!login.check_password());
    login.change_password("abcDEF123".to_string());
    login.change_repeated_password("abcDEF123".to_string());
    assert!(login.check_password());
    assert!(login.get_registration_error().is_none());
}

#[test]
fn check_password_on_the_login_form_reports_a_mismatch() {
    // The login form has no repeat entry, so a relevant password still fails
    // the identity check.
    let mut login = Login::new_login_page();
    login.change_password("abcDEF123".to_string());
    assert!(!login.check_password());
    assert!(matches!(
        login.get_registration_error(),
        Some(RegistrationError::DifferentPasswords)
    ));
}
