//! Validation rules for a federated social-content server: actor, display and
//! title naming rules, Matrix id checks, tracking-parameter removal from
//! shared links, and two-factor (TOTP) secret handling.
mod chars;
mod email;
mod error;
mod matrix;
mod totp;
mod urls;
mod validation;

pub use chars::{is_actor_name_char, is_ascii_letter, is_lower_hex_char, is_space_char};
pub use email::{
    email_verification_update,
    should_notify_admins,
    EmailVerificationUpdate,
    RegistrationMode,
};
pub use error::LemmyError;
pub use matrix::{is_valid_matrix_id, matrix_id_split, valid_matrix_id};
pub use totp::{
    build_totp_2fa,
    check_totp_2fa_valid,
    generate_totp_2fa_secret,
    totp_generator_of,
    totp_inputs_ok,
};
pub use urls::{
    build_query_string,
    clean_url_params,
    contains_seq,
    ends_with_seq,
    filter_tracking_params,
    is_tracking_key,
    key_is_tracking,
    query_string_of,
    starts_with_seq,
    str_contains,
    str_ends_with,
    str_starts_with,
    url_has_query_of,
    url_query_pairs_of,
    url_with_query_of,
};
pub use validation::{
    contains_newline,
    has_newline,
    has_solid_run,
    is_valid_actor_name,
    is_valid_display_name,
    is_valid_post_title,
    valid_actor_name,
    valid_display_name,
    valid_post_title,
};
