//! Two-factor authentication: building and checking TOTP generators.
//!
//! The cryptography and the clock live in the totp crate; when a generator
//! can be built, and what each failure reports, is verified here.
use vstd::prelude::*;
use vstd::utf8::{encode_utf8, is_ascii_chars, is_ascii_chars_encode_utf8};
use crate::chars::{is_lower_hex_char, lemma_lower_hex_char_is_ascii};
use crate::error::LemmyError;
use totp_rs::{Algorithm, Secret, TotpUrlError, TOTP};

verus! {

#[verifier::external_type_specification]
#[verifier::external_body]
pub struct ExTotp(TOTP);

#[verifier::external_type_specification]
#[verifier::external_body]
pub struct ExTotpUrlError(TotpUrlError);

/// The generator totp_rs::TOTP::new builds, with the SHA-256 algorithm, from
/// the given parameters; TOTP::new draws on its arguments alone, so naming
/// its result makes building a generator provably deterministic.
pub uninterp spec fn totp_generator_of(
    digits: usize,
    skew: u8,
    step: u64,
    secret: Seq<u8>,
    issuer: Seq<char>,
    account_name: Seq<char>,
) -> TOTP;

/// The inputs from which a two-factor TOTP generator can be built: a secret
/// of at least sixteen bytes, and no colon in the site name or username.
pub open spec fn totp_inputs_ok(site_name: Seq<char>, username: Seq<char>, secret: Seq<char>) -> bool {
    &&& encode_utf8(secret).len() >= 16
    &&& !site_name.contains(':')
    &&& !username.contains(':')
}

/// Relies on totp_rs::Secret::to_bytes: for a raw secret it always succeeds
/// and hands the secret's bytes back unchanged.
#[verifier::external_body]
fn secret_raw_to_bytes(secret: &str) -> (r: Result<Vec<u8>, ()>)
    ensures
        r is Ok,
        r->Ok_0@ == encode_utf8(secret@),
{
    Secret::Raw(secret.as_bytes().to_vec()).to_bytes().map_err(|_| ())
}

/// Relies on totp_rs::TOTP::new, with the SHA-256 algorithm: it succeeds
/// exactly when the digit count is between six and eight, the secret holds at
/// least sixteen bytes, and neither the issuer nor the account name contains
/// a colon.
#[verifier::external_body]
fn totp_new_sha256(
    digits: usize,
    skew: u8,
    step: u64,
    secret: Vec<u8>,
    issuer: &str,
    account_name: &str,
) -> (r: Result<TOTP, TotpUrlError>)
    ensures
        r is Ok <==> (6 <= digits && digits <= 8 && secret@.len() >= 16 && !issuer@.contains(':')
            && !account_name@.contains(':')),
        r is Ok ==> r->Ok_0 == totp_generator_of(digits, skew, step, secret@, issuer@, account_name@),
{
    TOTP::new(
        Algorithm::SHA256,
        digits,
        skew,
        step,
        secret,
        Some(issuer.to_string()),
        account_name.to_string(),
    )
}

/// Relies on totp_rs::TOTP::check_current: the outcome depends on the system
/// clock, so nothing is promised of the boolean; the error comes only from a
/// failed clock reading.
#[verifier::external_body]
fn totp_check_current(totp: &TOTP, token: &str) -> Result<bool, ()> {
    totp.check_current(token).map_err(|_| ())
}

/// Relies on totp_rs::Secret::generate_secret and on Secret's Display impl:
/// a freshly generated random 20-byte raw secret, printed as two lowercase
/// hex digits per byte, so the result always holds forty lowercase
/// hexadecimal digits.
#[verifier::external_body]
fn generate_secret_hex() -> (r: String)
    ensures
        r@.len() == 40,
        forall|i: int| 0 <= i < r@.len() ==> is_lower_hex_char(#[trigger] r@[i]),
{
    Secret::generate_secret().to_string()
}

/// Builds the TOTP generator used for two-factor checks: SHA-256, six
/// digits, one step of skew, a thirty-second step, the site name as issuer
/// and the username as account name.
pub fn build_totp_2fa(site_name: &str, username: &str, secret: &str) -> (r: Result<
    TOTP,
    LemmyError,
>)
    ensures
        r is Ok <==> totp_inputs_ok(site_name@, username@, secret@),
        r is Ok ==> r->Ok_0 == totp_generator_of(
            6,
            1,
            30,
            encode_utf8(secret@),
            site_name@,
            username@,
        ),
        r is Err ==> r->Err_0.message@ == "Couldnt generate TOTP"@,
{
    let sec_bytes = match secret_raw_to_bytes(secret) {
        Ok(b) => b,
        Err(_) => {
            return Err(LemmyError::from_message("Couldnt parse totp secret"));
        },
    };
    match totp_new_sha256(6, 1, 30, sec_bytes, site_name, username) {
        Ok(t) => Ok(t),
        Err(_) => Err(LemmyError::from_message("Couldnt generate TOTP")),
    }
}

/// Checks a user's TOTP token, for users with two-factor enabled.
///
/// With no stored secret the check passes. With a stored secret the token
/// must be present and the generator buildable; whether the token matches is
/// then decided against the system clock, so success is promised only as far
/// as the clock allows.
pub fn check_totp_2fa_valid(
    totp_secret: &Option<String>,
    totp_token: &Option<String>,
    site_name: &str,
    username: &str,
) -> (r: Result<(), LemmyError>)
    ensures
        totp_secret is None ==> r is Ok,
        totp_secret is Some && totp_token is None ==> r is Err && r->Err_0.message@
            == "missing_totp_token"@,
        totp_secret is Some && totp_token is Some && !totp_inputs_ok(
            site_name@,
            username@,
            totp_secret->0@,
        ) ==> r is Err && r->Err_0.message@ == "Couldnt generate TOTP"@,
        totp_secret is Some && totp_token is Some && totp_inputs_ok(
            site_name@,
            username@,
            totp_secret->0@,
        ) ==> r is Ok || (r is Err && (r->Err_0.message@ == "incorrect_totp token"@
            || r->Err_0.message@ == "Couldnt check totp"@)),
        r is Ok ==> totp_secret is None || (totp_token is Some && totp_inputs_ok(
            site_name@,
            username@,
            totp_secret->0@,
        )),
{
    if let Some(secret) = totp_secret {
        let token = match totp_token {
            Some(t) => t,
            None => {
                return Err(LemmyError::from_message("missing_totp_token"));
            },
        };
        let totp = match build_totp_2fa(site_name, username, secret.as_str()) {
            Ok(t) => t,
            Err(e) => {
                return Err(e);
            },
        };
        let check_passed = match totp_check_current(&totp, token.as_str()) {
            Ok(b) => b,
            Err(_) => {
                return Err(LemmyError::from_message("Couldnt check totp"));
            },
        };
        if !check_passed {
            return Err(LemmyError::from_message("incorrect_totp token"));
        }
    }
    Ok(())
}

/// Generates a fresh random two-factor secret: forty lowercase hexadecimal
/// digits, so its UTF-8 encoding holds forty bytes and a generator can
/// always be built from it (given a colon-free site name and username).
pub fn generate_totp_2fa_secret() -> (r: String)
    ensures
        r@.len() == 40,
        forall|i: int| 0 <= i < r@.len() ==> is_lower_hex_char(#[trigger] r@[i]),
        encode_utf8(r@).len() == 40,
{
    let r = generate_secret_hex();
    proof {
        assert forall|i: int| 0 <= i < r@.len() implies '\0' <= #[trigger] r@[i] && r@[i]
            <= '\u{7f}' by {
            lemma_lower_hex_char_is_ascii(r@[i]);
        }
        assert(is_ascii_chars(r@));
        is_ascii_chars_encode_utf8(r@);
    }
    r
}

} // verus!
