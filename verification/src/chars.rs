//! Character classes used by the validators.
use vstd::prelude::*;

verus! {

/// An ASCII letter, upper or lower case.
pub open spec fn is_ascii_letter(c: char) -> bool {
    (65 <= c as u32 && c as u32 <= 90) || (97 <= c as u32 && c as u32 <= 122)
}

/// An ASCII decimal digit.
pub open spec fn is_ascii_digit(c: char) -> bool {
    48 <= c as u32 && c as u32 <= 57
}

/// A lowercase hexadecimal digit.
pub open spec fn is_lower_hex_char(c: char) -> bool {
    is_ascii_digit(c) || (97 <= c as u32 && c as u32 <= 102)
}

/// A character an actor name may contain: an ASCII letter, a digit, or `_`.
pub open spec fn is_actor_name_char(c: char) -> bool {
    is_ascii_letter(c) || is_ascii_digit(c) || c == '_'
}

/// A character allowed in the local part of a Matrix id (before the colon).
pub open spec fn is_matrix_local_char(c: char) -> bool {
    is_ascii_letter(c) || is_ascii_digit(c) || c == '.' || c == '_' || c == '=' || c == '-'
}

/// A character allowed in the server part of a Matrix id (after the colon).
pub open spec fn is_matrix_domain_char(c: char) -> bool {
    is_ascii_letter(c) || is_ascii_digit(c) || c == '.' || c == '-'
}

/// A Unicode whitespace character (the White_Space property).
pub open spec fn is_space_char(c: char) -> bool {
    let u = c as u32;
    (0x9 <= u && u <= 0xD) || u == 0x20 || u == 0x85 || u == 0xA0 || u == 0x1680 || (0x2000 <= u
        && u <= 0x200A) || u == 0x2028 || u == 0x2029 || u == 0x202F || u == 0x205F || u == 0x3000
}

/// A lowercase hex digit lies in the ASCII range.
pub(crate) proof fn lemma_lower_hex_char_is_ascii(c: char)
    requires
        is_lower_hex_char(c),
    ensures
        '\0' <= c && c <= '\u{7f}',
{
}

pub fn char_is_ascii_letter(c: char) -> (r: bool)
    ensures
        r == is_ascii_letter(c),
{
    let u = c as u32;
    (65 <= u && u <= 90) || (97 <= u && u <= 122)
}

pub fn char_is_actor_name_char(c: char) -> (r: bool)
    ensures
        r == is_actor_name_char(c),
{
    let u = c as u32;
    (65 <= u && u <= 90) || (97 <= u && u <= 122) || (48 <= u && u <= 57) || c == '_'
}

pub fn char_is_matrix_local_char(c: char) -> (r: bool)
    ensures
        r == is_matrix_local_char(c),
{
    let u = c as u32;
    (65 <= u && u <= 90) || (97 <= u && u <= 122) || (48 <= u && u <= 57) || c == '.' || c == '_'
        || c == '=' || c == '-'
}

pub fn char_is_matrix_domain_char(c: char) -> (r: bool)
    ensures
        r == is_matrix_domain_char(c),
{
    let u = c as u32;
    (65 <= u && u <= 90) || (97 <= u && u <= 122) || (48 <= u && u <= 57) || c == '.' || c == '-'
}

pub fn char_is_space(c: char) -> (r: bool)
    ensures
        r == is_space_char(c),
{
    let u = c as u32;
    (0x9 <= u && u <= 0xD) || u == 0x20 || u == 0x85 || u == 0xA0 || u == 0x1680 || (0x2000 <= u
        && u <= 0x200A) || u == 0x2028 || u == 0x2029 || u == 0x202F || u == 0x205F || u == 0x3000
}

} // verus!
