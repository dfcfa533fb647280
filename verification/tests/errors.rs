use biometric::error::{
    classify_authentication_error, unavailable, UnlockError, LOCAL_AUTHENTICATION_ERROR_DOMAIN,
    OS_STATUS_ERROR_DOMAIN,
};
use biometric::text::decimal;

#[test]
fn authentication_errors_preserve_user_intent() {
    assert!(matches!(
        classify_authentication_error(
            LOCAL_AUTHENTICATION_ERROR_DOMAIN,
            -2,
            "canceled".to_string()
        ),
        UnlockError::Canceled
    ));
    assert!(matches!(
        classify_authentication_error(
            LOCAL_AUTHENTICATION_ERROR_DOMAIN,
            -3,
            "fallback".to_string()
        ),
        UnlockError::PasswordRequested
    ));
    assert!(matches!(
        classify_authentication_error(
            LOCAL_AUTHENTICATION_ERROR_DOMAIN,
            -4,
            "system canceled".to_string()
        ),
        UnlockError::Unavailable(_)
    ));
    assert!(matches!(
        classify_authentication_error(
            OS_STATUS_ERROR_DOMAIN,
            -4,
            "unimplemented".to_string()
        ),
        UnlockError::Unavailable(_)
    ));
    assert!(matches!(
        classify_authentication_error(
            OS_STATUS_ERROR_DOMAIN,
            -128,
            "canceled".to_string()
        ),
        UnlockError::Canceled
    ));
}

fn description(error: UnlockError) -> String {
    match error {
        UnlockError::Unavailable(text) => text,
        other => panic!("{:?}", other),
    }
}

#[test]
fn other_errors_keep_their_description() {
    let in_domain = |domain: &str, code: isize| {
        description(classify_authentication_error(domain, code, "why".to_string()))
    };
    assert_eq!(in_domain(LOCAL_AUTHENTICATION_ERROR_DOMAIN, -128), "why");
    assert_eq!(in_domain(OS_STATUS_ERROR_DOMAIN, -2), "why");
    assert_eq!(in_domain(OS_STATUS_ERROR_DOMAIN, -3), "why");
    assert_eq!(in_domain(LOCAL_AUTHENTICATION_ERROR_DOMAIN, 0), "why");
    assert_eq!(in_domain("NSCocoaErrorDomain", -2), "why");
    assert_eq!(in_domain("", -128), "why");
}

#[test]
fn error_domains_are_the_system_names() {
    assert_eq!(LOCAL_AUTHENTICATION_ERROR_DOMAIN, "com.apple.LocalAuthentication");
    assert_eq!(OS_STATUS_ERROR_DOMAIN, "NSOSStatusErrorDomain");
}

#[test]
fn unlock_errors_have_messages() {
    assert_eq!(UnlockError::Canceled.message(), "Touch ID was canceled");
    assert_eq!(UnlockError::PasswordRequested.message(), "master password requested");
    assert_eq!(
        UnlockError::Unavailable("no sensor".to_string()).message(),
        "Touch ID is unavailable: no sensor"
    );
}

#[test]
fn unavailable_keeps_the_displayed_text() {
    assert_eq!(description(unavailable("broken pipe")), "broken pipe");
    assert_eq!(description(unavailable(&42_i32)), "42");
}

#[test]
fn bytes_are_rendered_in_decimal() {
    for n in 0..=255_u8 {
        assert_eq!(decimal(n), n.to_string());
    }
}
