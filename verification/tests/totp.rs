use validation::{build_totp_2fa, check_totp_2fa_valid, generate_totp_2fa_secret};

#[test]
fn test_build_totp() {
    let generated_secret = generate_totp_2fa_secret();
    let totp = build_totp_2fa("lemmy", "my_name", &generated_secret);
    assert!(totp.is_ok());
}

#[test]
fn test_generated_secret_shape() {
    let secret = generate_totp_2fa_secret();
    assert_eq!(secret.chars().count(), 40);
    assert!(secret.chars().all(|c| c.is_ascii_hexdigit()));
}

#[test]
fn test_build_totp_secret_length() {
    // Sixteen bytes is the smallest accepted secret.
    assert!(build_totp_2fa("site", "name", "0123456789abcdef").is_ok());
    let err = build_totp_2fa("site", "name", "0123456789abcde").unwrap_err();
    assert_eq!(err.message, "Couldnt generate TOTP");
}

#[test]
fn test_build_totp_rejects_colons() {
    let secret = "0123456789abcdef";
    assert_eq!(
        build_totp_2fa("site:name", "name", secret).unwrap_err().message,
        "Couldnt generate TOTP"
    );
    assert_eq!(
        build_totp_2fa("site", "na:me", secret).unwrap_err().message,
        "Couldnt generate TOTP"
    );
}

#[test]
fn test_check_totp_without_secret() {
    // No stored secret: nothing to check, the token is ignored.
    assert!(check_totp_2fa_valid(&None, &None, "site", "user").is_ok());
    assert!(check_totp_2fa_valid(&None, &Some("123456".to_string()), "site", "user").is_ok());
}

#[test]
fn test_check_totp_missing_token() {
    let secret = Some("0123456789abcdef".to_string());
    let err = check_totp_2fa_valid(&secret, &None, "site", "user").unwrap_err();
    assert_eq!(err.message, "missing_totp_token");
}

#[test]
fn test_check_totp_bad_secret() {
    let secret = Some("short".to_string());
    let token = Some("123456".to_string());
    let err = check_totp_2fa_valid(&secret, &token, "site", "user").unwrap_err();
    assert_eq!(err.message, "Couldnt generate TOTP");
}

#[test]
fn test_check_totp_wrong_token() {
    let secret = Some("0123456789abcdef".to_string());
    // A generated code is all digits, so a letter token can never match.
    let token = Some("abcdef".to_string());
    let err = check_totp_2fa_valid(&secret, &token, "site", "user").unwrap_err();
    assert_eq!(err.message, "incorrect_totp token");
}
