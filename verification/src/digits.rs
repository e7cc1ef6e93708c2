//! Decimal rendering and parsing of unsigned 64-bit integers.
//!
//! Numbers appear on the wire inside nonce text and as correlation
//! identifiers in response headers; both directions are specified against
//! the mathematical decimal expansion [`dec_str`] / [`dec_val`].

use vstd::prelude::*;

verus! {

/// True when `c` is one of the ASCII digits `'0'..='9'`.
pub open spec fn is_dec_digit(c: char) -> bool {
    48 <= c as u32 && c as u32 <= 57
}

/// Numeric value of an ASCII digit character.
pub open spec fn digit_val(c: char) -> nat {
    (c as u32 - 48) as nat
}

/// The ASCII digit character for a value below ten.
pub open spec fn digit_char(d: nat) -> char {
    (48 + d) as char
}

/// The decimal expansion of `n`: most significant digit first, no leading
/// zeros, and `seq!['0']` for zero itself.
pub open spec fn dec_str(n: nat) -> Seq<char>
    decreases n,
{
    if n < 10 {
        seq![digit_char(n)]
    } else {
        dec_str(n / 10).push(digit_char(n % 10))
    }
}

/// The numeric value of a digit string, reading left to right.
pub open spec fn dec_val(s: Seq<char>) -> nat
    decreases s.len(),
{
    if s.len() == 0 {
        0
    } else {
        dec_val(s.drop_last()) * 10 + digit_val(s.last())
    }
}

/// Every character of `s` is an ASCII digit.
pub open spec fn all_dec_digits(s: Seq<char>) -> bool {
    forall|i: int| 0 <= i < s.len() ==> is_dec_digit(#[trigger] s[i])
}

/// A nonempty digit string whose value fits in a `u64`.
pub open spec fn valid_u64_digits(s: Seq<char>) -> bool {
    s.len() > 0 && all_dec_digits(s) && dec_val(s) <= u64::MAX
}

/// The decimal expansion consists of digits and never starts with a
/// superfluous zero.
pub proof fn lemma_dec_str_wf(n: nat)
    ensures
        dec_str(n).len() >= 1,
        all_dec_digits(dec_str(n)),
        n >= 1 ==> dec_str(n)[0] != '0',
        n < 10 ==> dec_str(n).len() == 1,
    decreases n,
{
    if n >= 10 {
        lemma_dec_str_wf(n / 10);
    }
}

/// Parsing inverts rendering: the value of the decimal expansion of `n` is
/// `n` again.
pub proof fn lemma_dec_val_of_dec_str(n: nat)
    ensures
        dec_val(dec_str(n)) == n,
    decreases n,
{
    if n < 10 {
        let s = dec_str(n);
        assert(s.len() == 1 && s.last() == digit_char(n));
        assert(s.drop_last() =~= Seq::<char>::empty());
        assert(digit_char(n) as u32 == 48 + n);
        assert(dec_val(s) == dec_val(s.drop_last()) * 10 + digit_val(s.last()));
    } else {
        lemma_dec_val_of_dec_str(n / 10);
        let s = dec_str(n / 10).push(digit_char(n % 10));
        assert(s.len() == dec_str(n / 10).len() + 1 && s.last() == digit_char(n % 10));
        assert(s.drop_last() =~= dec_str(n / 10));
        assert(digit_char(n % 10) as u32 == 48 + n % 10);
        assert(dec_val(s) == dec_val(s.drop_last()) * 10 + digit_val(s.last()));
        assert(dec_val(s) == (n / 10) * 10 + n % 10);
    }
}

/// The value of a digit string never shrinks as more digits are read:
/// the value of a prefix is at most the value of the whole string.
pub proof fn lemma_dec_val_take_le(s: Seq<char>, k: int)
    requires
        0 <= k <= s.len(),
    ensures
        dec_val(s.take(k)) <= dec_val(s),
    decreases s.len() - k,
{
    if k < s.len() {
        lemma_dec_val_take_le(s, k + 1);
        assert(s.take(k + 1).drop_last() =~= s.take(k));
        assert(dec_val(s.take(k + 1)) == dec_val(s.take(k)) * 10 + digit_val(s[k]));
    } else {
        assert(s.take(k) =~= s);
    }
}

/// Render `n` in decimal, appending the digits to `out`.
pub fn render_u64(n: u64, out: &mut Vec<char>)
    ensures
        final(out)@ == old(out)@ + dec_str(n as nat),
    decreases n,
{
    if n < 10 {
        out.push((48 + n as u8) as char);
        assert(out@ =~= old(out)@ + dec_str(n as nat));
    } else {
        render_u64(n / 10, out);
        out.push((48 + (n % 10) as u8) as char);
        assert(out@ =~= old(out)@ + dec_str(n as nat));
    }
}

/// Parse the characters of `s` in positions `start..end` as a decimal
/// number. Returns the value exactly when that range is a nonempty, pure
/// digit string whose value fits in a `u64`.
pub fn parse_u64_range(s: &Vec<char>, start: usize, end: usize) -> (r: Option<u64>)
    requires
        start <= end <= s.len(),
    ensures
        r is Some <==> valid_u64_digits(s@.subrange(start as int, end as int)),
        r matches Some(v) ==> v == dec_val(s@.subrange(start as int, end as int)),
{
    let ghost whole = s@.subrange(start as int, end as int);
    if start == end {
        return None;
    }
    let mut i: usize = start;
    let mut acc: u64 = 0;
    while i < end
        invariant
            start <= i <= end <= s.len(),
            whole == s@.subrange(start as int, end as int),
            acc == dec_val(whole.take(i - start)),
            all_dec_digits(whole.take(i - start)),
        decreases end - i,
    {
        let c = s[i];
        let v = c as u32;
        if !(48 <= v && v <= 57) {
            assert(!all_dec_digits(whole)) by {
                assert(whole[i - start] == c);
            }
            return None;
        }
        let d = (v - 48) as u64;
        let wide: u128 = (acc as u128) * 10 + (d as u128);
        proof {
            assert(whole.take(i - start + 1).drop_last() =~= whole.take(i - start));
            assert(dec_val(whole.take(i - start + 1)) == dec_val(whole.take(i - start)) * 10
                + digit_val(c));
        }
        if wide > u64::MAX as u128 {
            proof {
                lemma_dec_val_take_le(whole, i - start + 1);
                assert(whole.take(whole.len() as int) =~= whole);
            }
            return None;
        }
        acc = wide as u64;
        i = i + 1;
    }
    proof {
        assert(whole.take(whole.len() as int) =~= whole);
    }
    Some(acc)
}


/// A canonical decimal text: nonempty digits without a superfluous
/// leading zero.
pub open spec fn canonical_dec(s: Seq<char>) -> bool {
    s.len() > 0 && all_dec_digits(s) && (s.len() > 1 ==> s[0] != '0')
}

/// Rendering inverts parsing on canonical texts: the decimal expansion
/// of a canonical digit string's value is that string again.
pub proof fn lemma_dec_str_of_dec_val(s: Seq<char>)
    requires
        canonical_dec(s),
    ensures
        dec_str(dec_val(s)) == s,
    decreases s.len(),
{
    if s.len() == 1 {
        let c = s[0];
        assert(s.drop_last() =~= Seq::<char>::empty());
        assert(s.last() == c);
        assert(dec_val(Seq::<char>::empty()) == 0);
        assert(dec_val(s) == digit_val(c));
        assert(digit_char(digit_val(c)) as u32 == c as u32);
        vstd::utf8::char_u32_cast(c, c as u32);
        assert(digit_char(digit_val(c)) == c);
        assert(dec_str(dec_val(s)) =~= s);
    } else {
        let prefix = s.drop_last();
        let c = s.last();
        assert(prefix[0] == s[0]);
        assert(forall|k: int| 0 <= k < prefix.len() ==> prefix[k] == s[k]);
        lemma_dec_str_of_dec_val(prefix);
        let vp = dec_val(prefix);
        let d = digit_val(c);
        let v = dec_val(s);
        assert(v == vp * 10 + d);
        lemma_dec_val_take_le(prefix, 1);
        assert(prefix.take(1).drop_last() =~= Seq::<char>::empty());
        assert(prefix.take(1).last() == prefix[0]);
        assert(dec_val(Seq::<char>::empty()) == 0);
        assert(dec_val(prefix.take(1)) == digit_val(prefix[0]));
        assert(is_dec_digit(prefix[0]) && prefix[0] != '0');
        assert(prefix[0] as u32 != 48) by {
            assert('0' as u32 == 48);
            if prefix[0] as u32 == 48 {
                vstd::utf8::char_u32_cast(prefix[0], 48);
                vstd::utf8::char_u32_cast('0', 48);
                assert(prefix[0] == '0');
            }
        }
        assert(digit_val(prefix[0]) >= 1);
        assert(vp >= 1);
        assert(v >= 10) by (nonlinear_arith)
            requires
                v == vp * 10 + d,
                vp >= 1,
                d >= 0,
        ;
        assert(v / 10 == vp && v % 10 == d) by (nonlinear_arith)
            requires
                v == vp * 10 + d,
                0 <= d < 10,
                vp >= 0,
        ;
        assert(digit_char(d) as u32 == c as u32);
        vstd::utf8::char_u32_cast(c, c as u32);
        assert(digit_char(d) == c);
        assert(dec_str(v) == dec_str(vp).push(digit_char(d)));
        assert(dec_str(v) =~= s);
    }
}

} // verus!
