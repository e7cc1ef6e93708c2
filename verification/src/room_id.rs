//! Room identifiers: integers below `26^6`, written on the wire as six
//! uppercase letters in base 26, most significant letter first and
//! zero-padded with `'A'`.

use crate::text::chars_to_string;
use vstd::prelude::*;

verus! {

/// Number of distinct room identifiers: `26^6`.
pub const ROOM_ID_SPACE: u64 = 308915776;

/// `26^w`.
pub open spec fn pow26(w: nat) -> nat
    decreases w,
{
    if w == 0 {
        1
    } else {
        26 * pow26((w - 1) as nat)
    }
}

/// True for `'A'..='Z'`.
pub open spec fn is_upper_letter(c: char) -> bool {
    65 <= c as u32 && c as u32 <= 90
}

/// True for `'A'..='Z'` and `'a'..='z'`: parsing folds lowercase input to
/// uppercase before reading it.
pub open spec fn is_room_letter(c: char) -> bool {
    is_upper_letter(c) || (97 <= c as u32 && c as u32 <= 122)
}

/// The uppercase form of a letter; other characters are unchanged.
pub open spec fn fold_upper(c: char) -> char {
    if 97 <= c as u32 && c as u32 <= 122 {
        ((c as u32 - 32) as char)
    } else {
        c
    }
}

/// Base-26 digit value of a letter, after case folding.
pub open spec fn letter_val(c: char) -> nat {
    (fold_upper(c) as u32 - 65) as nat
}

/// The uppercase letter for a base-26 digit.
pub open spec fn letter_char(d: nat) -> char {
    (65 + d) as char
}

/// Every character is a letter (either case).
pub open spec fn all_room_letters(s: Seq<char>) -> bool {
    forall|i: int| 0 <= i < s.len() ==> is_room_letter(#[trigger] s[i])
}

/// The `w`-letter base-26 rendering of `n % 26^w`, most significant
/// letter first.
pub open spec fn room_str(n: nat, w: nat) -> Seq<char>
    decreases w,
{
    if w == 0 {
        Seq::<char>::empty()
    } else {
        room_str(n / 26, (w - 1) as nat).push(letter_char(n % 26))
    }
}

/// The numeric value of a letter string, read left to right as base-26
/// digits after case folding.
pub open spec fn room_text_val(s: Seq<char>) -> nat
    decreases s.len(),
{
    if s.len() == 0 {
        0
    } else {
        room_text_val(s.drop_last()) * 26 + letter_val(s.last())
    }
}

/// The canonical six-letter wire form of a room id value.
pub open spec fn room_render(n: nat) -> Seq<char> {
    room_str(n, 6)
}

/// A logical collaboration channel's identifier. Always below
/// [`ROOM_ID_SPACE`]; construction from a larger integer fails rather
/// than wrapping.
#[derive(Debug, Clone, Copy, PartialEq, Eq, Structural)]
pub struct RoomId(u64);

/// Why an integer was rejected as a room id.
#[derive(Debug, Clone, Copy, PartialEq, Eq, Structural)]
pub enum RoomIdError {
    /// The integer is `26^6` or larger.
    OutOfRange,
}

/// Why a text failed to parse as a room id.
#[derive(Debug, Clone, Copy, PartialEq, Eq, Structural)]
pub enum RoomIdParseError {
    /// More than six characters.
    TooLong,
    /// Fewer than six characters.
    TooShort,
    /// A character that is not a letter.
    InvalidCharacter,
}

impl RoomId {
    /// The invariant every room id carries.
    #[verifier::type_invariant]
    spec fn wf(self) -> bool {
        self.0 < ROOM_ID_SPACE
    }

    /// The integer behind this id, as a spec-level value.
    pub closed spec fn id_spec(self) -> u64 {
        self.0
    }

    /// Make a room id from an integer. Fails exactly when the integer is
    /// out of range; it is never reduced modulo the range.
    pub fn from_int(id_int: u64) -> (r: Result<Self, RoomIdError>)
        ensures
            r is Ok <==> id_int < ROOM_ID_SPACE,
            r matches Ok(v) ==> v.id_spec() == id_int,
    {
        if id_int < ROOM_ID_SPACE {
            Ok(Self(id_int))
        } else {
            Err(RoomIdError::OutOfRange)
        }
    }

    /// The integer behind this id.
    pub fn get_int(self) -> (r: u64)
        ensures
            r == self.id_spec(),
            r < ROOM_ID_SPACE,
    {
        proof {
            use_type_invariant(self);
        }
        self.0
    }

    /// Reduce an arbitrary machine word into the id range; used to draw
    /// random candidates when creating a room.
    pub fn from_entropy(raw: u64) -> (r: Self)
        ensures
            r.id_spec() == raw % ROOM_ID_SPACE,
    {
        Self(raw % ROOM_ID_SPACE)
    }

    /// Render the canonical six-letter form.
    pub fn to_text(&self) -> (r: String)
        ensures
            r@ == room_render(self.id_spec() as nat),
    {
        proof {
            use_type_invariant(self);
        }
        let mut out: Vec<char> = Vec::new();
        render_room(self.0, 6, &mut out);
        proof {
            assert(out@ =~= room_render(self.id_spec() as nat));
        }
        chars_to_string(&out)
    }

    /// Parse a six-letter id, folding lowercase input to uppercase.
    /// Succeeds exactly on six letters; too-short, too-long and
    /// non-letter input are told apart.
    pub fn parse_text(s: &Vec<char>) -> (r: Result<Self, RoomIdParseError>)
        ensures
            r is Ok <==> s@.len() == 6 && all_room_letters(s@),
            r matches Ok(v) ==> v.id_spec() == room_text_val(s@),
            r == Err::<RoomId, RoomIdParseError>(RoomIdParseError::TooShort) <==> s@.len() < 6
                && all_room_letters(s@),
            r == Err::<RoomId, RoomIdParseError>(RoomIdParseError::TooLong) <==> s@.len() > 6
                && all_room_letters(s@.take(6)),
            r == Err::<RoomId, RoomIdParseError>(RoomIdParseError::InvalidCharacter)
                <==> !all_room_letters(s@.take(if s@.len() < 6 {
                s@.len() as int
            } else {
                6
            })),
    {
        proof {
            lemma_pow26_6();
        }
        let mut i: usize = 0;
        let mut acc: u64 = 0;
        while i < s.len()
            invariant
                0 <= i <= s.len(),
                i <= 6,
                all_room_letters(s@.take(i as int)),
                acc == room_text_val(s@.take(i as int)),
                acc < pow26(i as nat),
                pow26(i as nat) <= pow26(6),
                pow26(6) == ROOM_ID_SPACE,
            decreases s.len() - i,
        {
            if i >= 6 {
                proof {
                    assert(s@.take(6) =~= s@.take(i as int));
                }
                return Err(RoomIdParseError::TooLong);
            }
            let c = s[i];
            let v0 = c as u32;
            let v = if 97 <= v0 && v0 <= 122 {
                v0 - 32
            } else {
                v0
            };
            if !(65 <= v && v <= 90) {
                proof {
                    let m = if s@.len() < 6 {
                        s@.len() as int
                    } else {
                        6
                    };
                    assert(s@.take(m)[i as int] == c);
                    assert(!is_room_letter(c));
                }
                return Err(RoomIdParseError::InvalidCharacter);
            }
            let d = (v - 65) as u64;
            proof {
                assert(s@.take(i + 1).drop_last() =~= s@.take(i as int));
                assert(s@.take(i + 1).last() == c);
                assert(letter_val(c) == d);
                lemma_pow26_step((i + 1) as nat);
                assert(acc * 26 + d < pow26((i + 1) as nat)) by (nonlinear_arith)
                    requires
                        acc < pow26(i as nat),
                        d < 26,
                        pow26((i + 1) as nat) == 26 * pow26(i as nat),
                ;
                lemma_pow26_le((i + 1) as nat, 6);
            }
            acc = acc * 26 + d;
            i = i + 1;
        }
        if i < 6 {
            proof {
                assert(s@.take(s@.len() as int) =~= s@);
            }
            return Err(RoomIdParseError::TooShort);
        }
        proof {
            assert(s@.take(s@.len() as int) =~= s@);
        }
        Ok(Self(acc))
    }
}

/// `26^6` evaluates to [`ROOM_ID_SPACE`].
proof fn lemma_pow26_6()
    ensures
        pow26(6) == ROOM_ID_SPACE,
{
    assert(pow26(0) == 1);
    assert(pow26(1) == 26);
    assert(pow26(2) == 676);
    assert(pow26(3) == 17576);
    assert(pow26(4) == 456976);
    assert(pow26(5) == 11881376);
    assert(pow26(6) == 308915776);
}

/// `26^(w) == 26 * 26^(w-1)` unfolding helper.
proof fn lemma_pow26_step(w: nat)
    requires
        w >= 1,
    ensures
        pow26(w) == 26 * pow26((w - 1) as nat),
{
}

/// `26^a <= 26^b` for `a <= b`.
proof fn lemma_pow26_le(a: nat, b: nat)
    requires
        a <= b,
    ensures
        pow26(a) <= pow26(b),
    decreases b,
{
    if a < b {
        lemma_pow26_le(a, (b - 1) as nat);
        assert(pow26(b) == 26 * pow26((b - 1) as nat));
    }
}

/// Append the `w`-letter base-26 rendering of `n % 26^w` to `out`.
fn render_room(n: u64, w: usize, out: &mut Vec<char>)
    ensures
        final(out)@ == old(out)@ + room_str(n as nat, w as nat),
    decreases w,
{
    if w == 0 {
        proof {
            assert(out@ =~= old(out)@ + room_str(n as nat, 0));
        }
    } else {
        render_room(n / 26, w - 1, out);
        out.push((65 + (n % 26) as u8) as char);
        proof {
            assert(letter_char((n % 26) as nat) as u32 == 65 + (n % 26));
            assert(out@ =~= old(out)@ + room_str(n as nat, w as nat));
        }
    }
}

/// Rendering is injective on the id range: parsing the six-letter form of
/// `n` gives `n` back, and the form is six uppercase letters.
pub proof fn lemma_room_text_val_of_room_str(n: nat, w: nat)
    requires
        n < pow26(w),
    ensures
        room_str(n, w).len() == w,
        forall|i: int| 0 <= i < w ==> is_upper_letter(#[trigger] room_str(n, w)[i]),
        room_text_val(room_str(n, w)) == n,
    decreases w,
{
    if w == 0 {
    } else {
        let prev = (w - 1) as nat;
        assert(pow26(w) == 26 * pow26(prev));
        assert(n / 26 < pow26(prev)) by (nonlinear_arith)
            requires
                n < 26 * pow26(prev),
        ;
        lemma_room_text_val_of_room_str(n / 26, prev);
        let s = room_str(n, w);
        let d = n % 26;
        assert(s == room_str(n / 26, prev).push(letter_char(d)));
        assert(letter_char(d) as u32 == 65 + d);
        assert(is_upper_letter(letter_char(d)));
        assert(letter_val(letter_char(d)) == d);
        assert(s.drop_last() =~= room_str(n / 26, prev));
        assert(s.last() == letter_char(d));
        assert(room_text_val(s) == (n / 26) * 26 + d);
        assert((n / 26) * 26 + n % 26 == n) by (nonlinear_arith);
    }
}

/// Parsing is injective on six-letter uppercase strings: re-rendering the
/// parsed value gives the same string back. Together with
/// [`lemma_room_text_val_of_room_str`] this is the round trip both ways.
pub proof fn lemma_room_str_of_room_text_val(s: Seq<char>)
    requires
        forall|i: int| 0 <= i < s.len() ==> is_upper_letter(#[trigger] s[i]),
    ensures
        room_text_val(s) < pow26(s.len() as nat),
        room_str(room_text_val(s), s.len() as nat) == s,
    decreases s.len(),
{
    if s.len() == 0 {
        assert(room_str(0, 0) =~= s);
    } else {
        let prefix = s.drop_last();
        let c = s.last();
        lemma_room_str_of_room_text_val(prefix);
        let vp = room_text_val(prefix);
        let d = letter_val(c);
        let v = room_text_val(s);
        assert(v == vp * 26 + d);
        assert(d < 26);
        assert(v < pow26(s.len() as nat)) by (nonlinear_arith)
            requires
                v == vp * 26 + d,
                vp < pow26((s.len() - 1) as nat),
                d < 26,
                pow26(s.len() as nat) == 26 * pow26((s.len() - 1) as nat),
        ;
        assert(v / 26 == vp && v % 26 == d) by (nonlinear_arith)
            requires
                v == vp * 26 + d,
                0 <= d < 26,
                vp >= 0,
        ;
        assert(fold_upper(c) == c);
        assert(letter_char(d) as u32 == 65 + d);
        assert(letter_char(d) == c);
        assert(room_str(v, s.len() as nat) == room_str(vp, (s.len() - 1) as nat).push(c));
        assert(room_str(v, s.len() as nat) =~= s);
    }
}

/// The six-letter wire form of any room id round-trips: rendering then
/// parsing restores the id, and parsing six uppercase letters then
/// rendering restores the text.
pub proof fn lemma_room_id_round_trip(n: nat, s: Seq<char>)
    requires
        n < ROOM_ID_SPACE,
        s.len() == 6,
        forall|i: int| 0 <= i < s.len() ==> is_upper_letter(#[trigger] s[i]),
    ensures
        room_text_val(room_render(n)) == n,
        room_render(room_text_val(s)) == s,
{
    lemma_pow26_6();
    lemma_room_text_val_of_room_str(n, 6);
    lemma_room_str_of_room_text_val(s);
}

} // verus!
