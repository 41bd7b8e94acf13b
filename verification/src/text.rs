//! Character-level string matching.
//!
//! The pattern table of the classifier is made of fixed literals in which a
//! forward slash stands for either path separator. All matching is therefore
//! expressed through one family of spec functions: a pattern matches at an
//! offset when every pattern character matches the corresponding subject
//! character, where a `/` in the pattern may also match `\` when `wild` is
//! set (separator-insensitive matching) and every other character matches
//! only itself.

use vstd::prelude::*;
use vstd::string::StrSliceExecFns;
use vstd::string::StringExecFns;

verus! {

/// One subject character `c` matches one pattern character `t`. With `wild`
/// set, `/` in the pattern also matches `\`.
pub open spec fn match_char(c: char, t: char, wild: bool) -> bool {
    c == t || (wild && t == '/' && c == '\\')
}

/// The pattern `t` matches the subject `s` at offset `off`.
pub open spec fn match_at(s: Seq<char>, t: Seq<char>, off: int, wild: bool) -> bool {
    &&& 0 <= off
    &&& off + t.len() <= s.len()
    &&& forall|i: int| 0 <= i < t.len() ==> match_char(s[off + i], #[trigger] t[i], wild)
}

/// The pattern `t` matches at the start of `s`.
pub open spec fn match_prefix(s: Seq<char>, t: Seq<char>, wild: bool) -> bool {
    match_at(s, t, 0, wild)
}

/// The pattern `t` matches at the end of `s`.
pub open spec fn match_suffix(s: Seq<char>, t: Seq<char>, wild: bool) -> bool {
    t.len() <= s.len() && match_at(s, t, s.len() - t.len(), wild)
}

/// The pattern `t` matches somewhere in `s`.
pub open spec fn match_within(s: Seq<char>, t: Seq<char>, wild: bool) -> bool {
    exists|off: int| match_at(s, t, off, wild)
}

/// Whether the pattern `t` matches the subject `s` at offset `off`.
pub fn match_at_str(s: &str, t: &str, off: usize, wild: bool) -> (r: bool)
    ensures
        r == match_at(s@, t@, off as int, wild),
{
    let s_len: usize = s.unicode_len();
    let t_len: usize = t.unicode_len();
    if off > s_len || t_len > s_len - off {
        return false;
    }
    let mut i: usize = 0;
    while i < t_len
        invariant
            off + t_len <= s_len,
            s_len == s@.len(),
            t_len == t@.len(),
            i <= t_len,
            forall|j: int| 0 <= j < i ==> match_char(s@[off + j], #[trigger] t@[j], wild),
        decreases t_len - i,
    {
        let sc = s.get_char(off + i);
        let tc = t.get_char(i);
        if !(sc == tc || (wild && tc == '/' && sc == '\\')) {
            return false;
        }
        i = i + 1;
    }
    true
}

/// Whether the pattern `t` matches at the start of `s`.
pub fn match_prefix_str(s: &str, t: &str, wild: bool) -> (r: bool)
    ensures
        r == match_prefix(s@, t@, wild),
{
    match_at_str(s, t, 0, wild)
}

/// Whether the pattern `t` matches at the end of `s`.
pub fn match_suffix_str(s: &str, t: &str, wild: bool) -> (r: bool)
    ensures
        r == match_suffix(s@, t@, wild),
{
    let s_len: usize = s.unicode_len();
    let t_len: usize = t.unicode_len();
    if t_len > s_len {
        return false;
    }
    match_at_str(s, t, s_len - t_len, wild)
}

/// The first offset at which the pattern `t` matches in `s`, if any.
pub fn find_match(s: &str, t: &str, wild: bool) -> (r: Option<usize>)
    ensures
        match r {
            Some(off) => match_at(s@, t@, off as int, wild) && forall|j: int|
                0 <= j < off ==> !match_at(s@, t@, j, wild),
            None => forall|j: int| !match_at(s@, t@, j, wild),
        },
{
    let s_len: usize = s.unicode_len();
    let t_len: usize = t.unicode_len();
    if t_len > s_len {
        assert(forall|j: int| !match_at(s@, t@, j, wild));
        return None;
    }
    let mut off: usize = 0;
    loop
        invariant
            t_len <= s_len,
            s_len == s@.len(),
            t_len == t@.len(),
            off <= s_len - t_len + 1,
            forall|j: int| 0 <= j < off ==> !match_at(s@, t@, j, wild),
        decreases s_len - t_len + 1 - off,
    {
        if off > s_len - t_len {
            assert(forall|j: int| !match_at(s@, t@, j, wild));
            return None;
        }
        if match_at_str(s, t, off, wild) {
            return Some(off);
        }
        off = off + 1;
    }
}

/// Whether the pattern `t` matches somewhere in `s`.
pub fn match_within_str(s: &str, t: &str, wild: bool) -> (r: bool)
    ensures
        r == match_within(s@, t@, wild),
{
    match find_match(s, t, wild) {
        Some(_) => true,
        None => false,
    }
}

/// Whether two strings hold the same characters.
pub fn str_eq(a: &str, b: &str) -> (r: bool)
    ensures
        r == (a@ == b@),
{
    let a_len: usize = a.unicode_len();
    let b_len: usize = b.unicode_len();
    if a_len != b_len {
        return false;
    }
    let r = match_at_str(a, b, 0, false);
    if r {
        assert(a@ =~= b@);
    }
    r
}

/// Whether two optional strings hold the same characters.
pub fn opt_string_eq(a: &Option<String>, b: &Option<String>) -> (r: bool)
    ensures
        r == (a.deep_view() == b.deep_view()),
{
    match (a, b) {
        (Some(x), Some(y)) => {
            let r = str_eq(x.as_str(), y.as_str());
            assert(a.deep_view() == Some(x@));
            assert(b.deep_view() == Some(y@));
            r
        },
        (None, None) => true,
        _ => {
            assert(a.deep_view() != b.deep_view());
            false
        },
    }
}

/// Relies on `String::push`: appends one character at the end of the string.
#[verifier::external_body]
fn push_char(s: &mut String, c: char)
    ensures
        final(s)@ == old(s)@ + seq![c],
{
    s.push(c);
}

/// The concatenation of two strings.
pub fn concat2(a: &str, b: &str) -> (r: String)
    ensures
        r@ == a@ + b@,
{
    let r = String::from_str(a);
    r.concat(b)
}

/// The concatenation of three strings.
pub fn concat3(a: &str, b: &str, c: &str) -> (r: String)
    ensures
        r@ == a@ + b@ + c@,
{
    let r = String::from_str(a);
    let r = r.concat(b);
    r.concat(c)
}

/// `s` with every backslash replaced by a forward slash.
pub open spec fn normalize_seps(s: Seq<char>) -> Seq<char> {
    s.map_values(|c: char| if c == '\\' { '/' } else { c })
}

/// Replaces every backslash in the path by a forward slash.
pub fn normalize_path_sep(path: &str) -> (r: String)
    ensures
        r@ == normalize_seps(path@),
{
    let len: usize = path.unicode_len();
    let mut r = String::new();
    let mut i: usize = 0;
    while i < len
        invariant
            len == path@.len(),
            i <= len,
            r@ == normalize_seps(path@.take(i as int)),
        decreases len - i,
    {
        let c = path.get_char(i);
        let out = if c == '\\' { '/' } else { c };
        push_char(&mut r, out);
        assert(r@ =~= normalize_seps(path@.take(i + 1 as int)));
        i = i + 1;
    }
    assert(path@.take(len as int) =~= path@);
    r
}

} // verus!
