use vstd::prelude::*;

use crate::errors::BuildError;
use crate::uri::{is_ascii_digit, is_lower_alpha};

verus! {

/// A character a DID method name may use: lowercase ASCII alphanumeric.
pub open spec fn is_method_char(c: char) -> bool {
    is_lower_alpha(c) || is_ascii_digit(c)
}

/// A method name is non-empty and lowercase alphanumeric throughout.
pub open spec fn valid_method_name(s: Seq<char>) -> bool {
    &&& s.len() > 0
    &&& forall|i: int| 0 <= i < s.len() ==> is_method_char(#[trigger] s[i])
}

/// Identifier segments: at least one, and none empty.
pub open spec fn valid_id_segments(segs: Seq<Seq<char>>) -> bool {
    &&& segs.len() > 0
    &&& forall|i: int| 0 <= i < segs.len() ==> (#[trigger] segs[i]).len() > 0
}

/// A decentralized identifier: a pure value constructed once from explicit
/// fields and immutable thereafter.  No resolution against a ledger or
/// registry happens here.
#[derive(Clone, Debug)]
pub struct DID {
    pub method_name: String,
    pub id_segments: Vec<String>,
    pub path: Option<String>,
    pub query: Option<String>,
    pub fragment: Option<String>,
}

/// `:segment` for each of the first `n` segments, concatenated in order.
pub open spec fn segments_canonical(segs: Seq<Seq<char>>, n: int) -> Seq<char>
    decreases n,
{
    if n <= 0 {
        Seq::empty()
    } else {
        segments_canonical(segs, n - 1) + seq![':'] + segs[n - 1]
    }
}

/// An optional trailing part, rendered as its marker character followed by
/// the part, or nothing.
pub open spec fn opt_part(marker: char, part: Option<String>) -> Seq<char> {
    match part {
        Some(p) => seq![marker] + p@,
        None => Seq::empty(),
    }
}

/// The canonical string form
/// `did:<method>:<segment>(:<segment>)*[/path][?query][#fragment]`.
pub open spec fn did_canonical(d: DID) -> Seq<char> {
    "did:"@ + d.method_name@ + segments_canonical(
        d.id_segments.deep_view(),
        d.id_segments@.len() as int,
    ) + opt_part('/', d.path) + opt_part('?', d.query) + opt_part('#', d.fragment)
}

/// A character that ends the method-and-segments core of a DID string and
/// starts its path, query or fragment.
pub open spec fn is_did_stop_char(c: char) -> bool {
    c == '/' || c == '?' || c == '#'
}

/// First position at or after `i` holding a stop character, or the length
/// of `s` when none does.
pub open spec fn first_stop(s: Seq<char>, i: int) -> int
    decreases s.len() - i,
{
    if 0 <= i < s.len() {
        if is_did_stop_char(s[i]) {
            i
        } else {
            first_stop(s, i + 1)
        }
    } else {
        s.len() as int
    }
}

/// First position in `[i, e)` holding a colon, or `e` when none does.
pub open spec fn first_colon(s: Seq<char>, i: int, e: int) -> int
    decreases e - i,
{
    if 0 <= i < e <= s.len() {
        if s[i] == ':' {
            i
        } else {
            first_colon(s, i + 1, e)
        }
    } else {
        e
    }
}

/// The segment part `s[start..end]`, split on colons, yields at least one
/// segment and no empty one: it neither starts nor ends with a colon and
/// holds no two adjacent colons.
pub open spec fn segment_part_ok(s: Seq<char>, start: int, end: int) -> bool {
    &&& 0 <= start < end <= s.len()
    &&& s[start] != ':'
    &&& s[end - 1] != ':'
    &&& forall|j: int| start <= j < end - 1 ==> !((#[trigger] s[j]) == ':' && s[j + 1] == ':')
}

/// The string is DID-shaped: it starts with the `did:` prefix.
pub open spec fn looks_like_did(s: Seq<char>) -> bool {
    s.len() >= 4 && s.subrange(0, 4) == "did:"@
}

/// A DID-shaped string whose method name and identifier segments satisfy
/// the DID invariants: non-empty lowercase alphanumeric method, then at
/// least one non-empty segment before any path, query or fragment.
pub open spec fn well_formed_did_string(s: Seq<char>) -> bool {
    let core_end = first_stop(s, 4);
    let method_end = first_colon(s, 4, core_end);
    &&& looks_like_did(s)
    &&& 4 < method_end < core_end
    &&& forall|j: int| 4 <= j < method_end ==> is_method_char(#[trigger] s[j])
    &&& segment_part_ok(s, method_end + 1, core_end)
}

/// An issuer string is acceptable when it either does not look like a DID
/// at all, or is a well-formed DID string.
pub open spec fn issuer_ok(s: Seq<char>) -> bool {
    !looks_like_did(s) || well_formed_did_string(s)
}

fn exec_first_stop(s: &str, i: usize, n: usize) -> (r: usize)
    requires
        n == s@.len(),
        i <= n,
    ensures
        r == first_stop(s@, i as int),
        i <= r <= n,
    decreases n - i,
{
    if i == n {
        n
    } else {
        let c = s.get_char(i);
        if c == '/' || c == '?' || c == '#' {
            i
        } else {
            exec_first_stop(s, i + 1, n)
        }
    }
}

fn exec_first_colon(s: &str, i: usize, e: usize) -> (r: usize)
    requires
        e <= s@.len(),
        i <= e,
    ensures
        r == first_colon(s@, i as int, e as int),
        i <= r <= e,
    decreases e - i,
{
    if i == e {
        e
    } else if s.get_char(i) == ':' {
        i
    } else {
        exec_first_colon(s, i + 1, e)
    }
}

fn no_adjacent_colons(s: &str, from: usize, last: usize) -> (r: bool)
    requires
        last < s@.len(),
        from <= last,
    ensures
        r == forall|j: int| from <= j < last ==> !((#[trigger] s@[j]) == ':' && s@[j + 1] == ':'),
    decreases last - from,
{
    if from == last {
        true
    } else if s.get_char(from) == ':' && s.get_char(from + 1) == ':' {
        false
    } else {
        no_adjacent_colons(s, from + 1, last)
    }
}

/// Decides whether an issuer string is acceptable: not DID-shaped, or a
/// well-formed DID string.
pub fn check_issuer(s: &str) -> (r: bool)
    ensures
        r == issuer_ok(s@),
{
    proof {
        reveal_strlit("did:");
    }
    let n = s.unicode_len();
    if n < 4 {
        assert(!looks_like_did(s@));
        return true;
    }
    if !(s.get_char(0) == 'd' && s.get_char(1) == 'i' && s.get_char(2) == 'd' && s.get_char(3)
        == ':') {
        proof {
            assert(s@.subrange(0, 4) != "did:"@) by {
                if s@.subrange(0, 4) == "did:"@ {
                    assert(s@.subrange(0, 4)[0] == s@[0]);
                    assert(s@.subrange(0, 4)[1] == s@[1]);
                    assert(s@.subrange(0, 4)[2] == s@[2]);
                    assert(s@.subrange(0, 4)[3] == s@[3]);
                }
            }
        }
        return true;
    }
    assert(s@.subrange(0, 4) =~= "did:"@);
    assert(looks_like_did(s@));
    let core_end = exec_first_stop(s, 4, n);
    let method_end = exec_first_colon(s, 4, core_end);
    if !(4 < method_end && method_end < core_end) {
        return false;
    }
    if !all_method_chars(s, 4, method_end) {
        return false;
    }
    let start = method_end + 1;
    if !(start < core_end) {
        return false;
    }
    if s.get_char(start) == ':' {
        return false;
    }
    if s.get_char(core_end - 1) == ':' {
        return false;
    }
    if !no_adjacent_colons(s, start, core_end - 1) {
        return false;
    }
    assert(segment_part_ok(s@, start as int, core_end as int));
    true
}

fn check_method_name(s: &str) -> (r: bool)
    ensures
        r == valid_method_name(s@),
{
    let n = s.unicode_len();
    if n == 0 {
        return false;
    }
    all_method_chars(s, 0, n)
}

fn all_method_chars(s: &str, from: usize, to: usize) -> (r: bool)
    requires
        to <= s@.len(),
        from <= to,
    ensures
        r == forall|j: int| from <= j < to ==> is_method_char(#[trigger] s@[j]),
    decreases to - from,
{
    if from == to {
        true
    } else {
        let c = s.get_char(from);
        if (c >= 'a' && c <= 'z') || (c >= '0' && c <= '9') {
            all_method_chars(s, from + 1, to)
        } else {
            false
        }
    }
}

fn check_id_segments(segs: &Vec<String>) -> (r: bool)
    ensures
        r == valid_id_segments(segs.deep_view()),
{
    if segs.len() == 0 {
        return false;
    }
    let n = segs.len();
    let mut i: usize = 0;
    while i < n
        invariant
            n == segs@.len(),
            i <= n,
            forall|j: int| 0 <= j < i ==> (#[trigger] segs.deep_view()[j]).len() > 0,
        decreases n - i,
    {
        if segs[i].as_str().unicode_len() == 0 {
            assert(segs.deep_view()[i as int].len() == 0);
            return false;
        }
        assert(segs.deep_view()[i as int].len() > 0);
        i += 1;
    }
    true
}

/// Builds a DID from a method name and identifier segments, or reports it
/// malformed.  The method name must be non-empty lowercase ASCII
/// alphanumeric, and there must be at least one segment, none empty.
pub fn build_did(method_name: String, id_segments: Vec<String>) -> (r: Result<DID, BuildError>)
    ensures
        r is Ok <==> valid_method_name(method_name@) && valid_id_segments(
            id_segments.deep_view(),
        ),
        r matches Ok(d) ==> d == (DID {
            method_name,
            id_segments,
            path: None,
            query: None,
            fragment: None,
        }),
        r matches Err(e) ==> e == BuildError::MalformedDID,
{
    DID::build(method_name, id_segments, None, None, None)
}

impl DID {
    /// Builds a DID from all of its fields, including the optional path,
    /// query and fragment, under the same invariants as `build_did`.
    pub fn build(
        method_name: String,
        id_segments: Vec<String>,
        path: Option<String>,
        query: Option<String>,
        fragment: Option<String>,
    ) -> (r: Result<DID, BuildError>)
        ensures
            r is Ok <==> valid_method_name(method_name@) && valid_id_segments(
                id_segments.deep_view(),
            ),
            r matches Ok(d) ==> d == (DID { method_name, id_segments, path, query, fragment }),
            r matches Err(e) ==> e == BuildError::MalformedDID,
    {
        if !check_method_name(method_name.as_str()) {
            return Err(BuildError::MalformedDID);
        }
        if !check_id_segments(&id_segments) {
            return Err(BuildError::MalformedDID);
        }
        Ok(DID { method_name, id_segments, path, query, fragment })
    }

    /// Projects the DID to its canonical string form: a pure,
    /// side-effect-free function of the fields.
    pub fn to_string(&self) -> (r: String)
        ensures
            r@ == did_canonical(*self),
    {
        proof {
            reveal_strlit(":");
            reveal_strlit("/");
            reveal_strlit("?");
            reveal_strlit("#");
        }
        let mut s = String::from_str("did:");
        s.append(self.method_name.as_str());
        let n = self.id_segments.len();
        let mut i: usize = 0;
        while i < n
            invariant
                n == self.id_segments@.len(),
                i <= n,
                s@ == "did:"@ + self.method_name@ + segments_canonical(
                    self.id_segments.deep_view(),
                    i as int,
                ),
            decreases n - i,
        {
            s.append(":");
            s.append(self.id_segments[i].as_str());
            proof {
                reveal_strlit(":");
                assert(self.id_segments.deep_view()[i as int] == self.id_segments@[i as int]@);
                assert(s@ =~= "did:"@ + self.method_name@ + segments_canonical(
                    self.id_segments.deep_view(),
                    i + 1,
                ));
            }
            i += 1;
        }
        match &self.path {
            Some(p) => {
                s.append("/");
                s.append(p.as_str());
            },
            None => {},
        }
        match &self.query {
            Some(q) => {
                s.append("?");
                s.append(q.as_str());
            },
            None => {},
        }
        match &self.fragment {
            Some(f) => {
                s.append("#");
                s.append(f.as_str());
            },
            None => {},
        }
        proof {
            assert(s@ =~= did_canonical(*self));
        }
        s
    }
}

} // verus!
