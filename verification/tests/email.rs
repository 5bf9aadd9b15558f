use validation::{email_verification_update, should_notify_admins, RegistrationMode};

#[test]
fn test_email_verification_update() {
    let update = email_verification_update("someone@example.com".to_string());
    assert_eq!(update.email_verified, Some(true));
    assert_eq!(update.email, Some(Some("someone@example.com".to_string())));
}

#[test]
fn test_should_notify_admins() {
    assert!(should_notify_admins(RegistrationMode::RequireApplication, true));
    assert!(!should_notify_admins(RegistrationMode::RequireApplication, false));
    assert!(!should_notify_admins(RegistrationMode::Open, true));
    assert!(!should_notify_admins(RegistrationMode::Closed, true));
}
