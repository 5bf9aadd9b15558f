//! Validation of Matrix user identifiers.
use vstd::prelude::*;
use vstd::string::StrSliceExecFns;
use crate::chars::{
    char_is_ascii_letter,
    char_is_matrix_domain_char,
    char_is_matrix_local_char,
    is_ascii_letter,
    is_matrix_domain_char,
    is_matrix_local_char,
};

verus! {

/// The string splits as `@local:domain.tld` at colon position `i` and final
/// dot position `j`: a non-empty local part of local characters, a non-empty
/// domain part of domain characters, and at least two ASCII letters at the end.
pub open spec fn matrix_id_split(s: Seq<char>, i: int, j: int) -> bool {
    &&& 1 <= s.len()
    &&& s[0] == '@'
    &&& 2 <= i < s.len()
    &&& s[i] == ':'
    &&& forall|k: int| 1 <= k < i ==> is_matrix_local_char(#[trigger] s[k])
    &&& i + 2 <= j
    &&& s[j] == '.'
    &&& forall|k: int| i < k < j ==> is_matrix_domain_char(#[trigger] s[k])
    &&& j + 3 <= s.len()
    &&& forall|k: int| j < k < s.len() ==> is_ascii_letter(#[trigger] s[k])
}

/// A valid Matrix id: some colon and dot position split the string as
/// `@local:domain.tld`.
pub open spec fn valid_matrix_id(s: Seq<char>) -> bool {
    exists|i: int, j: int| matrix_id_split(s, i, j)
}

/// In any split, the colon position is forced: local characters are never
/// colons, so a split's colon must stand exactly where a scan of local
/// characters stops.
proof fn lemma_colon_position_forced(s: Seq<char>, i: int, i2: int, j2: int)
    requires
        matrix_id_split(s, i2, j2),
        1 <= i < s.len(),
        s[i] == ':',
        forall|k: int| 1 <= k < i ==> is_matrix_local_char(#[trigger] s[k]),
    ensures
        i2 == i,
{
    if i2 < i {
        assert(is_matrix_local_char(s[i2]));
    }
    if i < i2 {
        assert(is_matrix_local_char(s[i]));
    }
}

/// In any split, the dot position is forced to the last dot of the string:
/// an earlier dot would leave the last dot among the trailing letters.
proof fn lemma_dot_position_forced(s: Seq<char>, i: int, d: int, i2: int, j2: int)
    requires
        matrix_id_split(s, i2, j2),
        i2 == i,
        i < d < s.len(),
        s[d] == '.',
        forall|k: int| d < k < s.len() ==> s[k] != '.',
    ensures
        j2 == d,
{
    if j2 < d {
        assert(is_ascii_letter(s[d]));
    }
    if d < j2 {
        assert(s[j2] != '.');
    }
}

/// Whether `matrix_id` is a well-formed Matrix user identifier of the shape
/// `@local:domain.tld`.
pub fn is_valid_matrix_id(matrix_id: &str) -> (r: bool)
    ensures
        r == valid_matrix_id(matrix_id@),
{
    let ghost s = matrix_id@;
    let n = matrix_id.unicode_len();
    if n < 1 || matrix_id.get_char(0) != '@' {
        return false;
    }
    // Scan the local part: it ends at the first character that is not a
    // local character, which must be the colon.
    let mut i: usize = 1;
    while i < n && char_is_matrix_local_char(matrix_id.get_char(i))
        invariant
            s == matrix_id@,
            n == s.len(),
            1 <= i <= n,
            forall|k: int| 1 <= k < i ==> is_matrix_local_char(#[trigger] s[k]),
        decreases n - i,
    {
        i += 1;
    }
    if i < 2 || i == n || matrix_id.get_char(i) != ':' {
        assert(!valid_matrix_id(s)) by {
            if valid_matrix_id(s) {
                let (i2, j2) = choose|i2: int, j2: int| matrix_id_split(s, i2, j2);
                if i2 < i {
                    assert(is_matrix_local_char(s[i2]));
                } else if i < i2 {
                    assert(is_matrix_local_char(s[i as int]));
                }
            }
        }
        return false;
    }
    // Scan the domain part: every remaining character must be a domain
    // character (trailing letters included); remember the last dot.
    let mut j: usize = i + 1;
    let mut last_dot: usize = 0;
    let mut has_dot = false;
    while j < n
        invariant
            s == matrix_id@,
            n == s.len(),
            s[0] == '@',
            2 <= i < n,
            s[i as int] == ':',
            forall|k: int| 1 <= k < i ==> is_matrix_local_char(#[trigger] s[k]),
            i < j <= n,
            forall|k: int| i < k < j ==> is_matrix_domain_char(#[trigger] s[k]),
            has_dot ==> i < last_dot < j && s[last_dot as int] == '.',
            forall|k: int| (if has_dot { last_dot < k } else { i < k }) && k < j ==> s[k] != '.',
        decreases n - j,
    {
        let c = matrix_id.get_char(j);
        if !char_is_matrix_domain_char(c) {
            assert(!valid_matrix_id(s)) by {
                if valid_matrix_id(s) {
                    let (i2, j2) = choose|i2: int, j2: int| matrix_id_split(s, i2, j2);
                    lemma_colon_position_forced(s, i as int, i2, j2);
                    // s[j] then lies in the domain, on the dot, or among the
                    // trailing letters; each is a domain character.
                    if j < j2 {
                        assert(is_matrix_domain_char(s[j as int]));
                    } else if j2 < j {
                        assert(is_ascii_letter(s[j as int]));
                    }
                }
            }
            return false;
        }
        if c == '.' {
            last_dot = j;
            has_dot = true;
        }
        j += 1;
    }
    if !has_dot {
        assert(!valid_matrix_id(s)) by {
            if valid_matrix_id(s) {
                let (i2, j2) = choose|i2: int, j2: int| matrix_id_split(s, i2, j2);
                lemma_colon_position_forced(s, i as int, i2, j2);
                assert(s[j2] == '.');
            }
        }
        return false;
    }
    if last_dot - i < 2 || n - last_dot < 3 {
        assert(!valid_matrix_id(s)) by {
            if valid_matrix_id(s) {
                let (i2, j2) = choose|i2: int, j2: int| matrix_id_split(s, i2, j2);
                lemma_colon_position_forced(s, i as int, i2, j2);
                lemma_dot_position_forced(s, i as int, last_dot as int, i2, j2);
            }
        }
        return false;
    }
    // Check the trailing letters after the last dot.
    let mut k: usize = last_dot + 1;
    while k < n
        invariant
            s == matrix_id@,
            n == s.len(),
            s[0] == '@',
            2 <= i < n,
            s[i as int] == ':',
            forall|k2: int| 1 <= k2 < i ==> is_matrix_local_char(#[trigger] s[k2]),
            forall|k2: int| i < k2 < n ==> is_matrix_domain_char(#[trigger] s[k2]),
            i + 2 <= last_dot,
            last_dot + 3 <= n,
            s[last_dot as int] == '.',
            forall|k2: int| last_dot < k2 < n ==> s[k2] != '.',
            last_dot < k <= n,
            forall|k2: int| last_dot < k2 < k ==> is_ascii_letter(#[trigger] s[k2]),
        decreases n - k,
    {
        if !char_is_ascii_letter(matrix_id.get_char(k)) {
            assert(!valid_matrix_id(s)) by {
                if valid_matrix_id(s) {
                    let (i2, j2) = choose|i2: int, j2: int| matrix_id_split(s, i2, j2);
                    lemma_colon_position_forced(s, i as int, i2, j2);
                    lemma_dot_position_forced(s, i as int, last_dot as int, i2, j2);
                    assert(is_ascii_letter(s[k as int]));
                }
            }
            return false;
        }
        k += 1;
    }
    assert(matrix_id_split(s, i as int, last_dot as int));
    true
}

} // verus!
