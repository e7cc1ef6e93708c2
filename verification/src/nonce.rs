//! Per-signer nonces: a (counter, timestamp) pair used for replay
//! prevention and for totally ordering one signer's calls.
//!
//! The wire form is `"<counter>_<timestamp>"`, both parts in decimal.

use crate::digits::{
    all_dec_digits, canonical_dec, dec_str, dec_val, lemma_dec_str_of_dec_val, lemma_dec_str_wf,
    lemma_dec_val_of_dec_str, parse_u64_range, render_u64, valid_u64_digits,
};
use crate::text::chars_to_string;
use core::cmp::Ordering;
use vstd::prelude::*;

verus! {

/// A replay-prevention token. For a fixed signer, later calls carry
/// strictly larger nonces in the `(timestamp, id)` lexicographic order.
#[derive(Debug, Clone, Copy, PartialEq, Eq, Structural)]
pub struct Nonce {
    pub id: u64,
    pub timestamp: u64,
}

/// Why a nonce text failed to parse.
#[derive(Debug, Clone, Copy, PartialEq, Eq, Structural)]
pub enum NonceParseError {
    /// The part before the first `_` is not a decimal `u64`.
    InvalidIdSegment,
    /// There is no `_` separator at all.
    NoTimestampSegment,
    /// The part after the first `_` is not a decimal `u64`.
    InvalidTimestampSegment,
    /// More than one `_` separator.
    TooManySegments,
}

/// Position of the first `'_'` in `s` at or after `from`; `s.len()` when
/// there is none.
pub open spec fn first_underscore(s: Seq<char>, from: int) -> int
    decreases s.len() - from,
{
    if from < 0 || from >= s.len() {
        s.len() as int
    } else if s[from] == '_' {
        from
    } else {
        first_underscore(s, from + 1)
    }
}

/// What [`Nonce::parse_text`] accepts, and the nonce it yields: the text
/// splits at its only `'_'` into two decimal `u64` segments.
pub open spec fn nonce_text_parses_to(s: Seq<char>, n: Nonce) -> bool {
    let i = first_underscore(s, 0);
    let j = first_underscore(s, i + 1);
    &&& i < s.len()
    &&& j == s.len()
    &&& valid_u64_digits(s.subrange(0, i))
    &&& valid_u64_digits(s.subrange(i + 1, s.len() as int))
    &&& n.id == dec_val(s.subrange(0, i))
    &&& n.timestamp == dec_val(s.subrange(i + 1, s.len() as int))
}

impl Nonce {
    /// The first nonce a signer issues at time `time`.
    pub fn new(time: u64) -> (r: Self)
        ensures
            r.id == 0,
            r.timestamp == time,
    {
        Self { id: 0, timestamp: time }
    }

    /// The nonce that follows `self` at time `time`: the counter restarts
    /// at zero once the clock has moved past the stored timestamp and
    /// increments otherwise.
    pub fn next(self, time: u64) -> (r: Self)
        requires
            time <= self.timestamp ==> self.id < u64::MAX,
        ensures
            r.timestamp == time,
            r.id == if time > self.timestamp {
                0u64
            } else {
                (self.id + 1) as u64
            },
    {
        Self {
            id: if time > self.timestamp {
                0
            } else {
                self.id + 1
            },
            timestamp: time,
        }
    }

    /// Advance `self` to its successor at time `time` in place, returning
    /// the new value.
    pub fn increment(&mut self, time: u64) -> (r: Self)
        requires
            time <= old(self).timestamp ==> old(self).id < u64::MAX,
        ensures
            final(self).timestamp == time,
            final(self).id == if time > old(self).timestamp {
                0u64
            } else {
                (old(self).id + 1) as u64
            },
            r == *final(self),
    {
        *self = self.next(time);
        *self
    }

    /// The canonical text form `"<counter>_<timestamp>"`.
    pub open spec fn text_spec(self) -> Seq<char> {
        dec_str(self.id as nat) + seq!['_'] + dec_str(self.timestamp as nat)
    }

    /// Render the canonical text form.
    pub fn to_text(&self) -> (r: String)
        ensures
            r@ == self.text_spec(),
    {
        let mut out: Vec<char> = Vec::new();
        render_u64(self.id, &mut out);
        out.push('_');
        render_u64(self.timestamp, &mut out);
        proof {
            assert(out@ =~= self.text_spec());
        }
        chars_to_string(&out)
    }

    /// Parse the text form. Succeeds exactly on `"<id>_<timestamp>"` with
    /// both segments decimal `u64`s, and reports which part was at fault
    /// otherwise: the text splits into segments at each `'_'`; the first
    /// two must be decimal `u64`s and there must be no third.
    pub fn parse_text(s: &Vec<char>) -> (r: Result<Self, NonceParseError>)
        ensures
            ({
                let i = first_underscore(s@, 0);
                let j = first_underscore(s@, i + 1);
                &&& (r matches Ok(n) ==> nonce_text_parses_to(s@, n))
                &&& (forall|n: Nonce|
                    nonce_text_parses_to(s@, n) ==> r == Ok::<Nonce, NonceParseError>(n))
                &&& (r == Err::<Nonce, NonceParseError>(NonceParseError::InvalidIdSegment)
                    <==> !valid_u64_digits(s@.subrange(0, i)))
                &&& (r == Err::<Nonce, NonceParseError>(NonceParseError::NoTimestampSegment)
                    <==> valid_u64_digits(s@.subrange(0, i)) && i == s@.len())
                &&& (r == Err::<Nonce, NonceParseError>(NonceParseError::InvalidTimestampSegment)
                    <==> valid_u64_digits(s@.subrange(0, i)) && i < s@.len() && !valid_u64_digits(
                    s@.subrange(i + 1, j),
                ))
                &&& (r == Err::<Nonce, NonceParseError>(NonceParseError::TooManySegments)
                    <==> valid_u64_digits(s@.subrange(0, i)) && i < s@.len() && valid_u64_digits(
                    s@.subrange(i + 1, j),
                ) && j < s@.len())
            }),
    {
        let i = find_underscore(s, 0);
        let id = match parse_u64_range(s, 0, i) {
            Some(v) => v,
            None => {
                return Err(NonceParseError::InvalidIdSegment);
            },
        };
        if i == s.len() {
            return Err(NonceParseError::NoTimestampSegment);
        }
        let j = find_underscore(s, i + 1);
        let timestamp = match parse_u64_range(s, i + 1, j) {
            Some(v) => v,
            None => {
                return Err(NonceParseError::InvalidTimestampSegment);
            },
        };
        if j < s.len() {
            return Err(NonceParseError::TooManySegments);
        }
        proof {
            assert(s@.subrange(i + 1, j as int) =~= s@.subrange(i + 1, s@.len() as int));
        }
        Ok(Nonce { id, timestamp })
    }
}

/// Find the first `'_'` at or after `from`, matching [`first_underscore`].
fn find_underscore(s: &Vec<char>, from: usize) -> (r: usize)
    requires
        from <= s.len(),
    ensures
        r == first_underscore(s@, from as int),
        from <= r <= s.len(),
{
    let mut i: usize = from;
    while i < s.len()
        invariant
            from <= i <= s.len(),
            first_underscore(s@, from as int) == first_underscore(s@, i as int),
        decreases s.len() - i,
    {
        if s[i] == '_' {
            return i;
        }
        i = i + 1;
    }
    i
}

/// A rendered nonce parses back to the same nonce: the round trip through
/// [`Nonce::to_text`] and [`Nonce::parse_text`] is the identity.
pub proof fn lemma_nonce_text_round_trip(n: Nonce)
    ensures
        nonce_text_parses_to(n.text_spec(), n),
{
    let a = dec_str(n.id as nat);
    let b = dec_str(n.timestamp as nat);
    let s = n.text_spec();
    lemma_dec_str_wf(n.id as nat);
    lemma_dec_str_wf(n.timestamp as nat);
    lemma_dec_val_of_dec_str(n.id as nat);
    lemma_dec_val_of_dec_str(n.timestamp as nat);
    assert(s.len() == a.len() + 1 + b.len());
    assert(s[a.len() as int] == '_');
    lemma_first_underscore_lands(s, 0, a.len() as int);
    assert(first_underscore(s, 0) == a.len()) by {
        assert(forall|k: int| 0 <= k < a.len() ==> s[k] == a[k] && #[trigger] is_not_underscore(
            s[k],
        )) by {
            assert(all_dec_digits(a));
            assert(forall|k: int|
                0 <= k < a.len() ==> crate::digits::is_dec_digit(#[trigger] a[k]));
        }
    }
    let i = first_underscore(s, 0);
    assert(s.subrange(0, i) =~= a);
    assert(s.subrange(i + 1, s.len() as int) =~= b);
    lemma_first_underscore_lands(s, i + 1, s.len() as int);
    assert(first_underscore(s, i + 1) == s.len()) by {
        assert(forall|k: int|
            i + 1 <= k < s.len() ==> s[k] == b[k - i - 1] && #[trigger] is_not_underscore(s[k]));
    }
}

/// Helper trigger predicate: digits are never the separator.
pub open spec fn is_not_underscore(c: char) -> bool {
    c != '_'
}

/// If positions `from..stop` of `s` hold no `'_'`, and `stop` is either
/// the end or an `'_'`, then the first underscore search from `from`
/// lands on `stop`.
proof fn lemma_first_underscore_lands(s: Seq<char>, from: int, stop: int)
    requires
        0 <= from <= stop <= s.len(),
        stop < s.len() ==> s[stop] == '_',
        forall|k: int| from <= k < stop ==> #[trigger] is_not_underscore(s[k]),
    ensures
        first_underscore(s, from) == if stop < s.len() {
            stop
        } else {
            s.len() as int
        },
    decreases stop - from,
{
    if from < stop {
        assert(is_not_underscore(s[from]));
        lemma_first_underscore_lands(s, from + 1, stop);
    }
}

/// The first underscore found is an underscore, and lies in range.
proof fn lemma_first_underscore_hits(s: Seq<char>, from: int)
    requires
        0 <= from <= s.len(),
    ensures
        from <= first_underscore(s, from) <= s.len(),
        first_underscore(s, from) < s.len() ==> s[first_underscore(s, from)] == '_',
    decreases s.len() - from,
{
    if from < s.len() && s[from] != '_' {
        lemma_first_underscore_hits(s, from + 1);
    }
}

/// Rendering inverts parsing on canonical nonce texts: when a text
/// parses to a nonce and both its decimal segments are canonical, the
/// nonce's own text form is that text again.
pub proof fn lemma_nonce_text_render_of_parse(s: Seq<char>, n: Nonce)
    requires
        nonce_text_parses_to(s, n),
        canonical_dec(s.subrange(0, first_underscore(s, 0))),
        canonical_dec(s.subrange(first_underscore(s, 0) + 1, s.len() as int)),
    ensures
        n.text_spec() == s,
{
    let i = first_underscore(s, 0);
    let a = s.subrange(0, i);
    let b = s.subrange(i + 1, s.len() as int);
    lemma_first_underscore_hits(s, 0);
    lemma_dec_str_of_dec_val(a);
    lemma_dec_str_of_dec_val(b);
    assert(dec_str(n.id as nat) == a);
    assert(dec_str(n.timestamp as nat) == b);
    assert(n.text_spec() =~= s);
}

/// A nonce text holds only digits and the separator: never a quote, so
/// it can stand inside a JSON string literal without escapes.
pub proof fn lemma_nonce_text_no_quote(n: Nonce)
    ensures
        forall|k: int|
            0 <= k < n.text_spec().len() ==> (#[trigger] n.text_spec()[k]) != '"',
{
    let a = dec_str(n.id as nat);
    let b = dec_str(n.timestamp as nat);
    let s = n.text_spec();
    lemma_dec_str_wf(n.id as nat);
    lemma_dec_str_wf(n.timestamp as nat);
    assert forall|k: int| 0 <= k < s.len() implies (#[trigger] s[k]) != '"' by {
        if k < a.len() {
            assert(s[k] == a[k]);
            assert(crate::digits::is_dec_digit(a[k]));
        } else if k == a.len() {
            assert(s[k] == '_');
        } else {
            assert(s[k] == b[k - a.len() - 1]);
            assert(crate::digits::is_dec_digit(b[k - a.len() - 1]));
        }
    }
}

impl PartialOrd for Nonce {
    /// Nonces order lexicographically by timestamp, then counter.
    fn partial_cmp(&self, other: &Self) -> (r: Option<Ordering>) {
        Some(
            if self.timestamp < other.timestamp {
                Ordering::Less
            } else if self.timestamp > other.timestamp {
                Ordering::Greater
            } else if self.id < other.id {
                Ordering::Less
            } else if self.id > other.id {
                Ordering::Greater
            } else {
                Ordering::Equal
            },
        )
    }
}

impl vstd::std_specs::cmp::PartialOrdSpecImpl for Nonce {
    open spec fn obeys_partial_cmp_spec() -> bool {
        true
    }

    open spec fn partial_cmp_spec(&self, other: &Self) -> Option<Ordering> {
        Some(
            if self.timestamp < other.timestamp {
                Ordering::Less
            } else if self.timestamp > other.timestamp {
                Ordering::Greater
            } else if self.id < other.id {
                Ordering::Less
            } else if self.id > other.id {
                Ordering::Greater
            } else {
                Ordering::Equal
            },
        )
    }
}

} // verus!
