//! Validators for user-supplied names and titles.
//!
//! Each exec function is proved equal to a spec function that states the
//! accepted language directly over the string's characters.
use vstd::prelude::*;
use vstd::string::StrSliceExecFns;
use crate::chars::{
    char_is_actor_name_char,
    char_is_space,
    is_actor_name_char,
    is_space_char,
};

verus! {

/// The string holds a line feed somewhere.
pub open spec fn contains_newline(s: Seq<char>) -> bool {
    exists|i: int| 0 <= i < s.len() && s[i] == '\n'
}

/// A valid actor name: three or more characters, at most `max` characters,
/// each an ASCII letter, digit, or underscore.
pub open spec fn valid_actor_name(s: Seq<char>, max: int) -> bool {
    &&& 3 <= s.len()
    &&& s.len() <= max
    &&& forall|i: int| 0 <= i < s.len() ==> is_actor_name_char(#[trigger] s[i])
}

/// A valid display name: three or more characters, at most `max` characters,
/// not starting with `@` or a zero-width space, and without a line feed.
pub open spec fn valid_display_name(s: Seq<char>, max: int) -> bool {
    &&& 3 <= s.len()
    &&& s.len() <= max
    &&& s[0] != '@'
    &&& s[0] != '\u{200b}'
    &&& !contains_newline(s)
}

/// The title holds three consecutive non-whitespace characters somewhere.
pub open spec fn has_solid_run(s: Seq<char>) -> bool {
    exists|i: int|
        0 <= i && i + 3 <= s.len() && !is_space_char(#[trigger] s[i]) && !is_space_char(s[i + 1])
            && !is_space_char(s[i + 2])
}

/// A valid post title: a run of three non-whitespace characters, and no line feed.
pub open spec fn valid_post_title(s: Seq<char>) -> bool {
    has_solid_run(s) && !contains_newline(s)
}

/// Whether the string holds a line feed character.
pub fn has_newline(name: &str) -> (r: bool)
    ensures
        r == contains_newline(name@),
{
    let n = name.unicode_len();
    let mut i: usize = 0;
    while i < n
        invariant
            n == name@.len(),
            i <= n,
            forall|j: int| 0 <= j < i ==> name@[j] != '\n',
        decreases n - i,
    {
        if name.get_char(i) == '\n' {
            return true;
        }
        i += 1;
    }
    false
}

/// Whether `name` may serve as an actor name: only ASCII letters, digits and
/// underscores, at least three characters, and no more than
/// `actor_name_max_length`.
pub fn is_valid_actor_name(name: &str, actor_name_max_length: usize) -> (r: bool)
    ensures
        r == valid_actor_name(name@, actor_name_max_length as int),
{
    let n = name.unicode_len();
    if n < 3 || n > actor_name_max_length {
        return false;
    }
    let mut i: usize = 0;
    while i < n
        invariant
            n == name@.len(),
            i <= n,
            forall|j: int| 0 <= j < i ==> is_actor_name_char(#[trigger] name@[j]),
        decreases n - i,
    {
        if !char_is_actor_name_char(name.get_char(i)) {
            return false;
        }
        i += 1;
    }
    true
}

/// Whether `name` may serve as a display name: between three characters and
/// `actor_name_max_length`, not opening with `@` or a zero-width space, and
/// without a line feed.
pub fn is_valid_display_name(name: &str, actor_name_max_length: usize) -> (r: bool)
    ensures
        r == valid_display_name(name@, actor_name_max_length as int),
{
    let n = name.unicode_len();
    if n < 3 || n > actor_name_max_length {
        return false;
    }
    let first = name.get_char(0);
    if first == '@' || first == '\u{200b}' {
        return false;
    }
    !has_newline(name)
}

/// Whether `title` may serve as a post title: it holds three consecutive
/// non-whitespace characters and no line feed.
pub fn is_valid_post_title(title: &str) -> (r: bool)
    ensures
        r == valid_post_title(title@),
{
    if has_newline(title) {
        return false;
    }
    let n = title.unicode_len();
    let mut i: usize = 0;
    let mut run: usize = 0;
    while i < n
        invariant
            n == title@.len(),
            !contains_newline(title@),
            i <= n,
            run <= i,
            run < 3,
            forall|j: int| i - run <= j < i ==> !is_space_char(#[trigger] title@[j]),
            run == i || is_space_char(title@[i - run - 1]),
            forall|k: int|
                0 <= k && k + 3 <= i ==> (is_space_char(#[trigger] title@[k]) || is_space_char(
                    title@[k + 1],
                ) || is_space_char(title@[k + 2])),
        decreases n - i,
    {
        if char_is_space(title.get_char(i)) {
            run = 0;
        } else {
            run += 1;
            if run >= 3 {
                assert(!is_space_char(title@[i - 2]) && !is_space_char(title@[i - 1])
                    && !is_space_char(title@[i as int]));
                assert(has_solid_run(title@));
                return true;
            }
        }
        i += 1;
    }
    assert(!has_solid_run(title@)) by {
        if has_solid_run(title@) {
            let w = choose|w: int|
                0 <= w && w + 3 <= title@.len() && !is_space_char(#[trigger] title@[w])
                    && !is_space_char(title@[w + 1]) && !is_space_char(title@[w + 2]);
            assert(is_space_char(title@[w]) || is_space_char(title@[w + 1]) || is_space_char(
                title@[w + 2],
            ));
        }
    }
    false
}

} // verus!
