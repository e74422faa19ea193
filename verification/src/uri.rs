use vstd::prelude::*;

verus! {

/// Lowercase ASCII letter.
pub open spec fn is_lower_alpha(c: char) -> bool {
    'a' <= c <= 'z'
}

/// ASCII digit.
pub open spec fn is_ascii_digit(c: char) -> bool {
    '0' <= c <= '9'
}

/// A character allowed in a URI scheme: lowercase letter, digit, `+`, `-`
/// or `.`.
pub open spec fn is_scheme_char(c: char) -> bool {
    is_lower_alpha(c) || is_ascii_digit(c) || c == '+' || c == '-' || c == '.'
}

/// A character a URI may contain anywhere: printable ASCII other than
/// space.
pub open spec fn is_uri_char(c: char) -> bool {
    '!' <= c <= '~'
}

/// Position `i` splits `s` into a well-formed scheme and a remainder of
/// URI characters: `s[0..i]` is a scheme starting with a lowercase letter,
/// `s[i]` is the separating colon, and everything after it is a URI
/// character.
pub open spec fn uri_split_at(s: Seq<char>, i: int) -> bool {
    &&& 1 <= i < s.len()
    &&& s[i] == ':'
    &&& is_lower_alpha(s[0])
    &&& forall|j: int| 0 <= j < i ==> is_scheme_char(#[trigger] s[j])
    &&& forall|j: int| i < j < s.len() ==> is_uri_char(#[trigger] s[j])
}

/// Syntactic URI validity: a scheme, a colon, and a body of URI
/// characters.
pub open spec fn is_valid_uri(s: Seq<char>) -> bool {
    exists|i: int| uri_split_at(s, i)
}

fn exec_is_lower_alpha(c: char) -> (r: bool)
    ensures
        r == is_lower_alpha(c),
{
    c >= 'a' && c <= 'z'
}

fn exec_is_scheme_char(c: char) -> (r: bool)
    ensures
        r == is_scheme_char(c),
{
    (c >= 'a' && c <= 'z') || (c >= '0' && c <= '9') || c == '+' || c == '-' || c == '.'
}

fn exec_is_uri_char(c: char) -> (r: bool)
    ensures
        r == is_uri_char(c),
{
    c >= '!' && c <= '~'
}

/// First position at or after `from` that holds a colon, or `n` when none
/// does.
fn find_colon(s: &str, from: usize, n: usize) -> (r: usize)
    requires
        n == s@.len(),
        from <= n,
    ensures
        from <= r <= n,
        forall|j: int| from <= j < r ==> s@[j] != ':',
        r < n ==> s@[r as int] == ':',
    decreases n - from,
{
    if from == n {
        n
    } else if s.get_char(from) == ':' {
        from
    } else {
        find_colon(s, from + 1, n)
    }
}

fn all_scheme_chars(s: &str, from: usize, to: usize) -> (r: bool)
    requires
        to <= s@.len(),
        from <= to,
    ensures
        r == forall|j: int| from <= j < to ==> is_scheme_char(#[trigger] s@[j]),
    decreases to - from,
{
    if from == to {
        true
    } else if !exec_is_scheme_char(s.get_char(from)) {
        false
    } else {
        all_scheme_chars(s, from + 1, to)
    }
}

fn all_uri_chars(s: &str, from: usize, to: usize) -> (r: bool)
    requires
        to <= s@.len(),
        from <= to,
    ensures
        r == forall|j: int| from <= j < to ==> is_uri_char(#[trigger] s@[j]),
    decreases to - from,
{
    if from == to {
        true
    } else if !exec_is_uri_char(s.get_char(from)) {
        false
    } else {
        all_uri_chars(s, from + 1, to)
    }
}

/// Decides syntactic URI validity for an exec string.
pub fn check_uri(s: &str) -> (r: bool)
    ensures
        r == is_valid_uri(s@),
{
    let n = s.unicode_len();
    let k = find_colon(s, 0, n);
    if k == n || k == 0 {
        proof {
            assert(!is_scheme_char(':'));
            assert forall|i: int| !uri_split_at(s@, i) by {
                if 1 <= i < s@.len() {
                    if k == n {
                        assert(s@[i] != ':');
                    } else {
                        assert(s@[0] == ':');
                        assert(!is_scheme_char(s@[0]));
                    }
                }
            }
        }
        return false;
    }
    let scheme_ok = exec_is_lower_alpha(s.get_char(0)) && all_scheme_chars(s, 0, k);
    let body_ok = all_uri_chars(s, k + 1, n);
    if scheme_ok && body_ok {
        assert(uri_split_at(s@, k as int));
        true
    } else {
        proof {
            assert(!is_scheme_char(':'));
            assert forall|i: int| !uri_split_at(s@, i) by {
                if 1 <= i < s@.len() {
                    if i < k {
                        assert(s@[i] != ':');
                    } else if i > k {
                        assert(s@[k as int] == ':');
                        assert(!is_scheme_char(s@[k as int]));
                    }
                }
            }
        }
        false
    }
}

} // verus!
