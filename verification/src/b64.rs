//! Standard base64 (with padding) for keys and signatures on the wire.
//!
//! Encoding and decoding are done by the `base64` crate; what the calls
//! return is named by the spec function [`b64_of`], against which parse
//! and render contracts in the rest of the crate are stated.

use vstd::prelude::*;

verus! {

/// The standard, padded base64 rendering of a byte string. Encoding is a
/// pure function of the bytes alone; its exact table is the `base64`
/// crate's business and is not restated here.
pub uninterp spec fn b64_of(bytes: Seq<u8>) -> Seq<char>;

/// Characters that can appear in a standard padded base64 text.
pub open spec fn is_base64_char(c: char) -> bool {
    ||| (65 <= c as u32 && c as u32 <= 90)
    ||| (97 <= c as u32 && c as u32 <= 122)
    ||| (48 <= c as u32 && c as u32 <= 57)
    ||| c == '+'
    ||| c == '/'
    ||| c == '='
}

/// The decoded text was not a canonical standard base64 encoding.
#[derive(Debug, Clone, Copy, PartialEq, Eq, Structural)]
pub struct Base64DecodeError;

/// Relies on `base64::Engine::encode` with the `STANDARD` engine: the
/// result is the padded standard encoding of the input — four alphabet
/// characters for every three bytes begun — and no two byte strings
/// share an encoding.
#[verifier::external_body]
pub fn encode_base64(value: &[u8]) -> (r: String)
    ensures
        r@ == b64_of(value@),
        r@.len() == 4 * ((value@.len() + 2) / 3),
        forall|i: int| 0 <= i < r@.len() ==> is_base64_char(#[trigger] r@[i]),
        forall|x: Seq<u8>| b64_of(x) == r@ ==> x =~= value@,
{
    base64::Engine::encode(&base64::engine::general_purpose::STANDARD, value)
}

/// Relies on `base64::Engine::decode` with the `STANDARD` engine, whose
/// configuration requires canonical padding and zero trailing bits: it
/// accepts exactly the canonical encodings, decoding inverts
/// [`encode_base64`], and only one byte string encodes to any given
/// text.
#[verifier::external_body]
pub fn decode_base64(value: &str) -> (r: Result<Vec<u8>, Base64DecodeError>)
    ensures
        r matches Ok(v) ==> value@ == b64_of(v@),
        r matches Ok(v) ==> forall|x: Seq<u8>| value@ == b64_of(x) ==> x =~= v@,
        (exists|x: Seq<u8>| value@ == b64_of(x)) ==> r is Ok,
{
    base64::Engine::decode(&base64::engine::general_purpose::STANDARD, value).map_err(
        |_| Base64DecodeError,
    )
}

/// Why a bounded-buffer decode failed.
#[derive(Debug, Clone, Copy, PartialEq, Eq, Structural)]
pub enum DecodeSliceError {
    /// The text was not canonical base64.
    DecodeError,
    /// The decoded bytes do not fit in the buffer.
    OutputSliceTooSmall,
}

/// Why an exact-length decode failed.
#[derive(Debug, Clone, Copy, PartialEq, Eq, Structural)]
pub enum DecodeExactError {
    /// The text was not base64 that fits the buffer.
    DecodeError,
    /// The decoded bytes were not exactly the demanded length.
    BadLength,
}

/// Decode base64 text into the front of `output`, leaving the rest of
/// the buffer unchanged and returning how many bytes were written. Fails
/// when the text is not canonical base64 or the buffer is too small.
pub fn decode_base64_slice(value: &str, output: &mut Vec<u8>) -> (r: Result<
    usize,
    DecodeSliceError,
>)
    ensures
        final(output)@.len() == old(output)@.len(),
        r matches Ok(n) ==> {
            &&& n <= old(output)@.len()
            &&& value@ == b64_of(final(output)@.take(n as int))
            &&& final(output)@.skip(n as int) == old(output)@.skip(n as int)
            &&& forall|x: Seq<u8>| value@ == b64_of(x) ==> x =~= final(output)@.take(n as int)
        },
        r is Err ==> final(output)@ == old(output)@,
        r == Err::<usize, DecodeSliceError>(DecodeSliceError::DecodeError) <==> !(exists|
            x: Seq<u8>,
        |
            value@ == b64_of(x)),
        (exists|x: Seq<u8>| value@ == b64_of(x) && x.len() <= old(output)@.len()) ==> r is Ok,
{
    let decoded = match decode_base64(value) {
        Ok(v) => v,
        Err(_) => {
            return Err(DecodeSliceError::DecodeError);
        },
    };
    if decoded.len() > output.len() {
        return Err(DecodeSliceError::OutputSliceTooSmall);
    }
    let n = decoded.len();
    let mut i: usize = 0;
    while i < n
        invariant
            i <= n <= output@.len(),
            output@.len() == old(output)@.len(),
            decoded@.len() == n,
            output@.take(i as int) == decoded@.take(i as int),
            output@.skip(i as int) == old(output)@.skip(i as int),
        decreases n - i,
    {
        let ghost prev = output@;
        output[i] = decoded[i];
        proof {
            assert(output@ == prev.update(i as int, decoded@[i as int]));
            assert(output@.take(i + 1) =~= decoded@.take(i + 1));
            assert forall|k: int| 0 <= k < output@.len() - (i + 1) implies #[trigger] output@.skip(
                i + 1,
            )[k] == old(output)@.skip(i + 1)[k] by {
                assert(prev.skip(i as int)[k + 1] == old(output)@.skip(i as int)[k + 1]);
            }
            assert(output@.skip(i + 1) =~= old(output)@.skip(i + 1));
        }
        i = i + 1;
    }
    proof {
        assert(output@.take(n as int) =~= decoded@);
    }
    Ok(n)
}

/// Decode base64 text that must fill exactly `length` bytes of the front
/// of `output`. Succeeds exactly when the text encodes `length` bytes;
/// malformed base64 and base64 of any other length are told apart.
pub fn decode_base64_slice_exact(value: &str, length: usize, output: &mut Vec<u8>) -> (r: Result<
    (),
    DecodeExactError,
>)
    requires
        length <= old(output)@.len(),
    ensures
        final(output)@.len() == old(output)@.len(),
        r is Ok <==> (exists|x: Seq<u8>| value@ == b64_of(x) && x.len() == length),
        r is Ok ==> value@ == b64_of(final(output)@.take(length as int)),
        r is Ok ==> final(output)@.skip(length as int) == old(output)@.skip(length as int),
        r == Err::<(), DecodeExactError>(DecodeExactError::DecodeError) <==> !(exists|x: Seq<u8>|
            value@ == b64_of(x) && x.len() <= old(output)@.len()),
    {
    match decode_base64_slice(value, output) {
        Ok(n) => {
            if n == length {
                Ok(())
            } else {
                Err(DecodeExactError::BadLength)
            }
        },
        Err(DecodeSliceError::DecodeError) => Err(DecodeExactError::DecodeError),
        Err(DecodeSliceError::OutputSliceTooSmall) => Err(DecodeExactError::DecodeError),
    }
}

} // verus!
