//! Small executable helpers for character-level text work: building
//! character vectors, comparing them with strings, and turning them into
//! `String` values at the boundary.
use vstd::prelude::*;

use vstd::string::StrSliceExecFns;

verus! {

/// Relies on `Iterator::collect` for `String` from `char`s: the collected
/// string holds exactly the characters of the vector, in order.
#[verifier::external_body]
pub fn chars_to_string(v: Vec<char>) -> (s: String)
    ensures
        s@ == v@,
{
    v.into_iter().collect()
}

/// Appends every character of `s` to `v`.
pub fn push_str_chars(v: &mut Vec<char>, s: &str)
    ensures
        final(v)@ == old(v)@ + s@,
{
    let n = s.unicode_len();
    let mut i: usize = 0;
    while i < n
        invariant
            n == s@.len(),
            i <= n,
            v@ =~= old(v)@ + s@.take(i as int),
        decreases n - i,
    {
        let c = s.get_char(i);
        proof {
            assert((old(v)@ + s@.take(i as int)).push(s@[i as int]) =~= old(v)@ + s@.take(
                i as int + 1,
            ));
        }
        v.push(c);
        i = i + 1;
    }
    proof {
        assert(s@.take(n as int) =~= s@);
    }
}

/// Whether two strings hold the same characters.
pub fn str_eq(a: &str, b: &str) -> (r: bool)
    ensures
        r == (a@ == b@),
{
    let n = a.unicode_len();
    if n != b.unicode_len() {
        proof {
            assert(a@.len() != b@.len());
        }
        return false;
    }
    let mut i: usize = 0;
    while i < n
        invariant
            n == a@.len(),
            n == b@.len(),
            i <= n,
            forall|j: int| 0 <= j < i ==> a@[j] == b@[j],
        decreases n - i,
    {
        if a.get_char(i) != b.get_char(i) {
            return false;
        }
        i = i + 1;
    }
    proof {
        assert(a@ =~= b@);
    }
    true
}

/// Whether a string holds exactly the characters of a vector.
pub fn string_eq_chars(s: &str, v: &Vec<char>) -> (b: bool)
    ensures
        b == (s@ == v@),
{
    let n = s.unicode_len();
    if n != v.len() {
        proof {
            assert(s@.len() != v@.len());
        }
        return false;
    }
    let mut i: usize = 0;
    while i < n
        invariant
            n == s@.len(),
            n == v@.len(),
            i <= n,
            forall|j: int| 0 <= j < i ==> s@[j] == v@[j],
        decreases n - i,
    {
        if s.get_char(i) != v[i] {
            return false;
        }
        i = i + 1;
    }
    proof {
        assert(s@ =~= v@);
    }
    true
}

/// Whether `s` carries `pat` starting at position `at`.
pub fn has_at(s: &str, at: usize, pat: &str) -> (b: bool)
    requires
        at <= s@.len(),
    ensures
        b == (at + pat@.len() <= s@.len() && s@.subrange(
            at as int,
            at + pat@.len(),
        ) == pat@),
{
    let n = pat.unicode_len();
    let sn = s.unicode_len();
    if n > sn - at {
        return false;
    }
    let mut i: usize = 0;
    while i < n
        invariant
            n == pat@.len(),
            sn == s@.len(),
            at + n <= sn,
            i <= n,
            forall|j: int| 0 <= j < i ==> s@[at + j] == pat@[j],
        decreases n - i,
    {
        if s.get_char(at + i) != pat.get_char(i) {
            proof {
                assert(s@.subrange(at as int, at + pat@.len())[i as int] == s@[at + i]);
            }
            return false;
        }
        i = i + 1;
    }
    proof {
        assert(s@.subrange(at as int, at + pat@.len()) =~= pat@);
    }
    true
}

/// The position of the first `'"'` in `s` at or after `from`, if any.
pub fn find_quote(s: &str, from: usize) -> (r: Option<usize>)
    requires
        from <= s@.len(),
    ensures
        match r {
            Some(i) => from <= i < s@.len() && s@[i as int] == '"' && forall|j: int|
                from <= j < i ==> s@[j] != '"',
            None => forall|j: int| from <= j < s@.len() ==> s@[j] != '"',
        },
{
    let n = s.unicode_len();
    let mut i: usize = from;
    while i < n
        invariant
            n == s@.len(),
            from <= i <= n,
            forall|j: int| from <= j < i ==> s@[j] != '"',
        decreases n - i,
    {
        if s.get_char(i) == '"' {
            return Some(i);
        }
        i = i + 1;
    }
    None
}

/// The characters of `s` from `from` (inclusive) to `to` (exclusive).
pub fn copy_range(s: &str, from: usize, to: usize) -> (v: Vec<char>)
    requires
        from <= to <= s@.len(),
    ensures
        v@ == s@.subrange(from as int, to as int),
{
    let mut v: Vec<char> = Vec::new();
    let mut i: usize = from;
    while i < to
        invariant
            from <= i <= to <= s@.len(),
            v@ =~= s@.subrange(from as int, i as int),
        decreases to - i,
    {
        let c = s.get_char(i);
        proof {
            assert(s@.subrange(from as int, i as int).push(s@[i as int]) =~= s@.subrange(
                from as int,
                i as int + 1,
            ));
        }
        v.push(c);
        i = i + 1;
    }
    v
}

} // verus!
