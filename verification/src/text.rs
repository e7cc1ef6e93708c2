//! Conversions between `String` and `Vec<char>`.
//!
//! All wire rendering and parsing in this crate works over character
//! vectors, whose contents Verus reasons about directly; these two helpers
//! cross between that representation and `String` at the API boundary.

use vstd::prelude::*;

verus! {

/// Relies on `String`'s `FromIterator` impl: collecting characters yields
/// the string made of exactly those characters in order.
#[verifier::external_body]
pub(crate) fn chars_to_string(v: &Vec<char>) -> (r: String)
    ensures
        r@ == v@,
{
    v.iter().collect()
}

/// Relies on `str::chars`: iterating a string yields exactly its
/// characters in order.
#[verifier::external_body]
pub(crate) fn string_to_chars(s: &str) -> (r: Vec<char>)
    ensures
        r@ == s@,
{
    s.chars().collect()
}

/// Append every character of `extra` to `out`.
pub fn push_chars(out: &mut Vec<char>, extra: &Vec<char>)
    ensures
        final(out)@ == old(out)@ + extra@,
{
    let mut i: usize = 0;
    while i < extra.len()
        invariant
            i <= extra.len(),
            out@ == old(out)@ + extra@.take(i as int),
        decreases extra.len() - i,
    {
        out.push(extra[i]);
        proof {
            assert(old(out)@ + extra@.take(i + 1) =~= (old(out)@ + extra@.take(i as int)).push(
                extra@[i as int],
            ));
        }
        i = i + 1;
    }
    proof {
        assert(extra@.take(extra@.len() as int) =~= extra@);
    }
}

/// Append the characters of the string slice `s` to `out`.
pub fn push_str_chars(out: &mut Vec<char>, s: &str)
    ensures
        final(out)@ == old(out)@ + s@,
{
    let extra = string_to_chars(s);
    push_chars(out, &extra);
}

} // verus!
