//! Decisions taken when a user verifies an email address.
//!
//! Reading the verification token, updating the user record and sending mail
//! are I/O and stay outside; what the update must contain, and when admins
//! are told about a new applicant, is decided and verified here.
use vstd::prelude::*;

verus! {

/// How an instance admits new users.
#[derive(Clone, Copy, Debug, PartialEq, Eq, Structural)]
pub enum RegistrationMode {
    Closed,
    RequireApplication,
    Open,
}

/// The update applied to a local user when an email verification token is
/// redeemed.
pub struct EmailVerificationUpdate {
    /// Marked verified in case this is a new signup.
    pub email_verified: Option<bool>,
    /// Set in case the email of an existing user was changed.
    pub email: Option<Option<String>>,
}

/// The update a redeemed verification token leads to: the account's email is
/// marked verified, and the verified address itself is stored.
pub fn email_verification_update(verified_email: String) -> (r: EmailVerificationUpdate)
    ensures
        r.email_verified == Some(true),
        r.email == Some(Some(verified_email)),
{
    EmailVerificationUpdate { email_verified: Some(true), email: Some(Some(verified_email)) }
}

/// Whether admins are notified of a newly verified applicant: only when
/// registration requires an application and the instance asks for such mail.
pub fn should_notify_admins(mode: RegistrationMode, application_email_admins: bool) -> (r: bool)
    ensures
        r == (mode is RequireApplication && application_email_admins),
{
    match mode {
        RegistrationMode::RequireApplication => application_email_admins,
        _ => false,
    }
}

} // verus!
