//! Conversions between `String` text and its character sequence, shared by
//! the wire codec and the route substitution logic.

use vstd::prelude::*;
use vstd::string::StrSliceExecFns;

verus! {

/// The characters of `s`, in order.
pub fn string_chars(s: &str) -> (r: Vec<char>)
    ensures
        r@ == s@,
{
    let n: usize = s.unicode_len();
    let mut out: Vec<char> = Vec::new();
    let mut i: usize = 0;
    while i < n
        invariant
            0 <= i <= n,
            n == s@.len(),
            out@ == s@.subrange(0, i as int),
        decreases n - i,
    {
        out.push(s.get_char(i));
        proof {
            assert(out@ =~= s@.subrange(0, i + 1));
        }
        i = i + 1;
    }
    proof {
        assert(s@.subrange(0, n as int) =~= s@);
    }
    out
}

/// Relies on `Iterator::collect` for `String`: its documentation says a
/// string collected from characters holds exactly those characters, in
/// order.
#[verifier::external_body]
pub fn chars_string(v: &Vec<char>) -> (r: String)
    ensures
        r@ == v@,
{
    v.iter().collect()
}

/// Appends every character of `add` to `out`.
pub fn push_all(out: &mut Vec<char>, add: &Vec<char>)
    ensures
        final(out)@ == old(out)@ + add@,
{
    let n: usize = add.len();
    let mut i: usize = 0;
    while i < n
        invariant
            0 <= i <= n,
            n == add@.len(),
            out@ == old(out)@ + add@.subrange(0, i as int),
        decreases n - i,
    {
        out.push(add[i]);
        proof {
            assert(out@ =~= old(out)@ + add@.subrange(0, i + 1));
        }
        i = i + 1;
    }
    proof {
        assert(add@.subrange(0, n as int) =~= add@);
    }
}

} // verus!
