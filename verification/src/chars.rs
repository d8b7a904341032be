//! Conversions between the character buffers the widgets edit and the
//! `String`s their callers speak, plus subsequence extraction on character
//! vectors.

use vstd::prelude::*;
use vstd::string::StrSliceExecFns;

verus! {

/// Relies on `String::push`: appends the given character to the end of the
/// string. vstd gives `String` no specification for it.
pub assume_specification[ String::push ](s: &mut String, ch: char)
    ensures
        final(s)@ == old(s)@.push(ch),
;

/// The characters of a string slice, in order.
pub(crate) fn str_to_chars(s: &str) -> (r: Vec<char>)
    ensures
        r@ == s@,
{
    let n = s.unicode_len();
    let mut r: Vec<char> = Vec::new();
    let mut i: usize = 0;
    while i < n
        invariant
            i <= n,
            n == s@.len(),
            r@ == s@.subrange(0, i as int),
        decreases n - i,
    {
        r.push(s.get_char(i));
        i += 1;
        proof {
            assert(r@ =~= s@.subrange(0, i as int));
        }
    }
    proof {
        assert(r@ =~= s@);
    }
    r
}

/// The string holding exactly the given characters, in order.
pub(crate) fn chars_to_string(v: &Vec<char>) -> (r: String)
    ensures
        r@ == v@,
{
    let mut r = String::new();
    let mut i: usize = 0;
    while i < v.len()
        invariant
            i <= v@.len(),
            r@ == v@.subrange(0, i as int),
        decreases v@.len() - i,
    {
        r.push(v[i]);
        i += 1;
        proof {
            assert(r@ =~= v@.subrange(0, i as int));
        }
    }
    proof {
        assert(r@ =~= v@);
    }
    r
}

/// The characters of `v` from `from` (inclusive) to `to` (exclusive).
pub(crate) fn subvec(v: &Vec<char>, from: usize, to: usize) -> (r: Vec<char>)
    requires
        from <= to <= v@.len(),
    ensures
        r@ == v@.subrange(from as int, to as int),
{
    let mut r: Vec<char> = Vec::new();
    let mut i: usize = from;
    while i < to
        invariant
            from <= i <= to <= v@.len(),
            r@ == v@.subrange(from as int, i as int),
        decreases to - i,
    {
        r.push(v[i]);
        i += 1;
        proof {
            assert(r@ =~= v@.subrange(from as int, i as int));
        }
    }
    r
}

/// The characters of `v` with the range `[from, to)` removed.
pub(crate) fn splice_out(v: &Vec<char>, from: usize, to: usize) -> (r: Vec<char>)
    requires
        from <= to <= v@.len(),
    ensures
        r@ == v@.subrange(0, from as int) + v@.subrange(to as int, v@.len() as int),
{
    let mut r = subvec(v, 0, from);
    let mut i: usize = to;
    proof {
        assert(r@ =~= v@.subrange(0, from as int) + v@.subrange(to as int, to as int));
    }
    while i < v.len()
        invariant
            to <= i <= v@.len(),
            from <= to <= v@.len(),
            r@ == v@.subrange(0, from as int) + v@.subrange(to as int, i as int),
        decreases v@.len() - i,
    {
        r.push(v[i]);
        i += 1;
        proof {
            assert(r@ =~= v@.subrange(0, from as int) + v@.subrange(to as int, i as int));
        }
    }
    proof {
        assert(v@.subrange(to as int, i as int) =~= v@.subrange(to as int, v@.len() as int));
    }
    r
}

} // verus!
