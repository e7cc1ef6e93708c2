//! Parsing inbound JSON text into the wire vocabulary.
//!
//! A hand-written recursive-descent reader over characters: objects,
//! strings with the standard escapes, unsigned integers, booleans and
//! `null` are read into values; anything else — arrays, signed or
//! fractional numbers — is skipped as an uninterpreted span, as is any
//! member this layer does not know. Every value's span is kept so that
//! opaque payloads travel byte for byte. What the canonical text of
//! each message is, the renderers state exactly; the parsers here are
//! the inverse direction, exercised against the renderers by tests.

use crate::text::chars_to_string;
use vstd::prelude::*;

verus! {

/// The deepest value nesting the reader accepts; a hostile text cannot
/// drive the recursion beyond it.
pub const JSON_MAX_DEPTH: u64 = 128;

/// One parsed JSON value. Uninterpreted values keep only their extent.
#[derive(Debug)]
pub enum JsonValue {
    /// A string literal, with escapes decoded.
    Text(Vec<char>),
    /// An unsigned integer that fits a `u64`.
    UInt(u64),
    Bool(bool),
    Null,
    /// An object: its members in order, with each value's span.
    Obj(Vec<JsonMember>),
    /// A well-formed value this layer does not interpret.
    Other,
}

/// One object member: its decoded key, its value, and the span
/// `[start, end)` of the value's text in the parsed input.
#[derive(Debug)]
pub struct JsonMember {
    pub key: Vec<char>,
    pub value: JsonValue,
    pub start: usize,
    pub end: usize,
}

/// Relies on `char::from_u32`: a scalar in the valid ranges is exactly
/// the character with that code point.
#[verifier::external_body]
fn char_from_scalar(v: u32) -> (r: char)
    requires
        v < 0xD800 || (0xE000 <= v && v <= 0x10FFFF),
    ensures
        r as u32 == v,
{
    char::from_u32(v).unwrap()
}

/// The value of one hexadecimal digit character, either case.
fn hex_digit_value(c: char) -> (r: Option<u8>)
    ensures
        r matches Some(v) ==> v < 16,
{
    let cv = c as u32;
    if 48 <= cv && cv <= 57 {
        Some((cv - 48) as u8)
    } else if 97 <= cv && cv <= 102 {
        Some((cv - 87) as u8)
    } else if 65 <= cv && cv <= 70 {
        Some((cv - 55) as u8)
    } else {
        None
    }
}

/// Skip spaces, tabs and line breaks.
fn skip_ws(s: &Vec<char>, i: usize) -> (j: usize)
    requires
        i <= s@.len(),
    ensures
        i <= j <= s@.len(),
{
    let mut j = i;
    while j < s.len()
        invariant
            i <= j <= s@.len(),
        decreases s@.len() - j,
    {
        let c = s[j];
        if c == ' ' || c == '\t' || c == '\n' || c == '\r' {
            j = j + 1;
        } else {
            return j;
        }
    }
    j
}

/// Read a string literal's content, starting just past the opening
/// quote; returns the decoded characters and the position just past the
/// closing quote.
fn parse_string_body(s: &Vec<char>, i: usize) -> (r: Result<(Vec<char>, usize), ()>)
    requires
        i <= s@.len(),
    ensures
        r matches Ok(p) ==> i < p.1 <= s@.len(),
{
    let mut out: Vec<char> = Vec::new();
    let mut j = i;
    while j < s.len()
        invariant
            i <= j <= s@.len(),
        decreases s@.len() - j,
    {
        let c = s[j];
        if c == '"' {
            return Ok((out, j + 1));
        }
        if c == '\\' {
            if j + 1 >= s.len() {
                return Err(());
            }
            let e = s[j + 1];
            if e == '"' || e == '\\' || e == '/' {
                out.push(e);
                j = j + 2;
            } else if e == 'b' {
                out.push(char_from_scalar(8));
                j = j + 2;
            } else if e == 'f' {
                out.push(char_from_scalar(12));
                j = j + 2;
            } else if e == 'n' {
                out.push('\n');
                j = j + 2;
            } else if e == 'r' {
                out.push('\r');
                j = j + 2;
            } else if e == 't' {
                out.push('\t');
                j = j + 2;
            } else if e == 'u' {
                if s.len() - j < 6 {
                    return Err(());
                }
                let d1 = hex_digit_value(s[j + 2]);
                let d2 = hex_digit_value(s[j + 3]);
                let d3 = hex_digit_value(s[j + 4]);
                let d4 = hex_digit_value(s[j + 5]);
                let (h1, h2, h3, h4) = match (d1, d2, d3, d4) {
                    (Some(a), Some(b), Some(c2), Some(d)) => (a, b, c2, d),
                    _ => {
                        return Err(());
                    },
                };
                let v: u32 = ((h1 as u32) * 4096) + ((h2 as u32) * 256) + ((h3 as u32) * 16) + (
                h4 as u32);
                if 0xD800 <= v && v < 0xE000 {
                    return Err(());
                }
                out.push(char_from_scalar(v));
                j = j + 6;
            } else {
                return Err(());
            }
        } else {
            let cv = c as u32;
            if cv < 32 {
                return Err(());
            }
            out.push(c);
            j = j + 1;
        }
    }
    Err(())
}

/// Read one JSON value starting at `i` (which must not be whitespace);
/// returns the value and the position just past it. `depth` bounds how
/// much deeper the value may nest.
pub fn parse_value(s: &Vec<char>, i: usize, depth: u64) -> (r: Result<(JsonValue, usize), ()>)
    requires
        i <= s@.len(),
    ensures
        r matches Ok(p) ==> i < p.1 <= s@.len(),
    decreases s@.len() - i, 1int,
{
    if depth == 0 {
        return Err(());
    }
    if i >= s.len() {
        return Err(());
    }
    let c = s[i];
    if c == '"' {
        let (content, j) = parse_string_body(s, i + 1)?;
        Ok((JsonValue::Text(content), j))
    } else if c == '{' {
        parse_object_body(s, i + 1, depth - 1)
    } else if c == '[' {
        parse_array_rest(s, i + 1, depth - 1)
    } else if c == 't' {
        if s.len() - i >= 4 && s[i + 1] == 'r' && s[i + 2] == 'u' && s[i + 3] == 'e' {
            Ok((JsonValue::Bool(true), i + 4))
        } else {
            Err(())
        }
    } else if c == 'f' {
        if s.len() - i >= 5 && s[i + 1] == 'a' && s[i + 2] == 'l' && s[i + 3] == 's' && s[i + 4]
            == 'e' {
            Ok((JsonValue::Bool(false), i + 5))
        } else {
            Err(())
        }
    } else if c == 'n' {
        if s.len() - i >= 4 && s[i + 1] == 'u' && s[i + 2] == 'l' && s[i + 3] == 'l' {
            Ok((JsonValue::Null, i + 4))
        } else {
            Err(())
        }
    } else {
        let cv = c as u32;
        if cv == 45 || (48 <= cv && cv <= 57) {
            parse_number(s, i)
        } else {
            Err(())
        }
    }
}

/// Read a number starting at `i`: an unsigned integer that fits a `u64`
/// becomes a value; any other well-formed number is kept uninterpreted.
fn parse_number(s: &Vec<char>, i: usize) -> (r: Result<(JsonValue, usize), ()>)
    requires
        i < s@.len(),
    ensures
        r matches Ok(p) ==> i < p.1 <= s@.len(),
{
    let n = s.len();
    let mut j = i;
    let mut plain = true;
    if s[j] == '-' {
        plain = false;
        j = j + 1;
    }
    let mut acc: u128 = 0;
    let mut digits: usize = 0;
    while j < s.len()
        invariant
            i <= j <= s@.len(),
            acc <= u64::MAX as u128 + 1,
            digits <= j - i,
        decreases s@.len() - j,
    {
        let c = s[j];
        let cv = c as u32;
        if 48 <= cv && cv <= 57 {
            if acc <= u64::MAX as u128 {
                acc = acc * 10 + (cv - 48) as u128;
                if acc > u64::MAX as u128 {
                    acc = u64::MAX as u128 + 1;
                    plain = false;
                }
            }
            digits = digits + 1;
            j = j + 1;
        } else if c == '.' || c == 'e' || c == 'E' || c == '+' || c == '-' {
            plain = false;
            j = j + 1;
        } else {
            break;
        }
    }
    if digits == 0 {
        return Err(());
    }
    if j == i {
        return Err(());
    }
    if plain && acc <= u64::MAX as u128 {
        Ok((JsonValue::UInt(acc as u64), j))
    } else {
        Ok((JsonValue::Other, j))
    }
}

/// Read an object's members, starting just past the `{`.
fn parse_object_body(s: &Vec<char>, i: usize, depth: u64) -> (r: Result<(JsonValue, usize), ()>)
    requires
        i <= s@.len(),
    ensures
        r matches Ok(p) ==> i < p.1 <= s@.len(),
    decreases s@.len() - i, 2int,
{
    let mut members: Vec<JsonMember> = Vec::new();
    let mut j = skip_ws(s, i);
    if j < s.len() && s[j] == '}' {
        return Ok((JsonValue::Obj(members), j + 1));
    }
    loop
        invariant
            i <= j <= s@.len(),
        decreases s@.len() - j,
    {
        if j >= s.len() || s[j] != '"' {
            return Err(());
        }
        let (key, after_key) = parse_string_body(s, j + 1)?;
        let colon = skip_ws(s, after_key);
        if colon >= s.len() || s[colon] != ':' {
            return Err(());
        }
        let value_start = skip_ws(s, colon + 1);
        let (value, value_end) = parse_value(s, value_start, depth)?;
        members.push(JsonMember { key, value, start: value_start, end: value_end });
        let after = skip_ws(s, value_end);
        if after >= s.len() {
            return Err(());
        }
        if s[after] == '}' {
            return Ok((JsonValue::Obj(members), after + 1));
        }
        if s[after] != ',' {
            return Err(());
        }
        let next = skip_ws(s, after + 1);
        if next <= j {
            return Err(());
        }
        j = next;
    }
}

/// Skip an array, starting just past the `[`; the whole array is one
/// uninterpreted value.
fn parse_array_rest(s: &Vec<char>, i: usize, depth: u64) -> (r: Result<(JsonValue, usize), ()>)
    requires
        i <= s@.len(),
    ensures
        r matches Ok(p) ==> i < p.1 <= s@.len(),
    decreases s@.len() - i, 2int,
{
    let mut j = skip_ws(s, i);
    if j < s.len() && s[j] == ']' {
        return Ok((JsonValue::Other, j + 1));
    }
    loop
        invariant
            i <= j <= s@.len(),
        decreases s@.len() - j,
    {
        if j >= s.len() {
            return Err(());
        }
        let (_, value_end) = parse_value(s, j, depth)?;
        let after = skip_ws(s, value_end);
        if after >= s.len() {
            return Err(());
        }
        if s[after] == ']' {
            return Ok((JsonValue::Other, after + 1));
        }
        if s[after] != ',' {
            return Err(());
        }
        let next = skip_ws(s, after + 1);
        if next <= j {
            return Err(());
        }
        j = next;
    }
}

/// Parse a whole text as one JSON value with nothing but whitespace
/// around it.
pub fn parse_document(s: &Vec<char>) -> (r: Result<JsonValue, ()>)
{
    let start = skip_ws(s, 0);
    let (value, end) = parse_value(s, start, JSON_MAX_DEPTH)?;
    let rest = skip_ws(s, end);
    if rest < s.len() {
        return Err(());
    }
    Ok(value)
}

/// Whether the decoded key characters spell the given name.
pub fn key_is(key: &Vec<char>, name: &str) -> (r: bool)
    ensures
        r == (key@ == name@),
{
    let want = crate::text::string_to_chars(name);
    if key.len() != want.len() {
        proof {
            assert(key@.len() != name@.len());
        }
        return false;
    }
    let mut k: usize = 0;
    while k < key.len()
        invariant
            k <= key@.len(),
            key@.len() == want@.len(),
            want@ == name@,
            forall|m: int| 0 <= m < k ==> key@[m] == want@[m],
        decreases key@.len() - k,
    {
        if key[k] != want[k] {
            proof {
                assert(key@[k as int] != name@[k as int]);
            }
            return false;
        }
        k = k + 1;
    }
    proof {
        assert(key@ =~= name@);
    }
    true
}

/// Whether `s` begins with `prefix`.
pub(crate) fn chars_start_with(s: &Vec<char>, prefix: &Vec<char>) -> (r: bool)
    ensures
        r == (s@.len() >= prefix@.len() && s@.take(prefix@.len() as int) == prefix@),
{
    if s.len() < prefix.len() {
        return false;
    }
    let mut k: usize = 0;
    while k < prefix.len()
        invariant
            k <= prefix@.len() <= s@.len(),
            forall|m: int| 0 <= m < k ==> s@[m] == #[trigger] prefix@[m],
        decreases prefix@.len() - k,
    {
        if s[k] != prefix[k] {
            proof {
                assert(s@.take(prefix@.len() as int)[k as int] == s@[k as int]);
            }
            return false;
        }
        k = k + 1;
    }
    proof {
        assert(s@.take(prefix@.len() as int) =~= prefix@);
    }
    true
}

/// Find the first member with the given key: `Some` is a member of the
/// list bearing that key; `None` means no member bears it.
pub fn find_member<'a>(members: &'a Vec<JsonMember>, name: &str) -> (r: Option<&'a JsonMember>)
    ensures
        r matches Some(m) ==> m.key@ == name@ && exists|k: int|
            0 <= k < members@.len() && members@[k] == *m,
        r is None ==> forall|k: int|
            0 <= k < members@.len() ==> (#[trigger] members@[k].key@) != name@,
{
    let mut k: usize = 0;
    while k < members.len()
        invariant
            k <= members@.len(),
            forall|j: int| 0 <= j < k ==> (#[trigger] members@[j].key@) != name@,
        decreases members@.len() - k,
    {
        if key_is(&members[k].key, name) {
            return Some(&members[k]);
        }
        k = k + 1;
    }
    None
}

/// Copy the span `[start, end)` of the parsed text into a string: how
/// an uninterpreted payload travels on, byte for byte.
pub fn span_text(s: &Vec<char>, start: usize, end: usize) -> (r: Option<String>)
    ensures
        r matches Some(t) ==> start <= end <= s@.len() && t@ == s@.subrange(
            start as int,
            end as int,
        ),
{
    if !(start <= end && end <= s.len()) {
        return None;
    }
    let mut out: Vec<char> = Vec::new();
    let mut k = start;
    while k < end
        invariant
            start <= k <= end <= s@.len(),
            out@ == s@.subrange(start as int, k as int),
        decreases end - k,
    {
        out.push(s[k]);
        proof {
            assert(out@ =~= s@.subrange(start as int, k + 1));
        }
        k = k + 1;
    }
    Some(chars_to_string(&out))
}

} // verus!
