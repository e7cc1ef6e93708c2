//! Identity keys and signatures.
//!
//! An identity is a NIST P-256 ECDSA verifying key, carried canonically
//! as the base64 of its 33-byte compressed SEC1 point. Signatures are 64
//! raw bytes (`r || s`), base64-coded on the wire. The curve arithmetic
//! itself is the `p256` crate's; what its calls return is named by the
//! spec functions below, and every contract about signing in this crate
//! speaks through those names.

use crate::b64::{b64_of, decode_base64, encode_base64, Base64DecodeError};
use p256::ecdsa::signature::{Signer, Verifier};
use vstd::prelude::*;

verus! {

/// The bytes are a SEC1 encoding of a point on the P-256 curve, as
/// `p256::ecdsa::VerifyingKey::from_sec1_bytes` accepts it.
pub uninterp spec fn is_public_key_sec1(bytes: Seq<u8>) -> bool;

/// The bytes are a valid 64-byte ECDSA signature (`r` and `s` both
/// nonzero scalars), as `p256::ecdsa::Signature::from_slice` accepts it.
pub uninterp spec fn is_signature_bytes(bytes: Seq<u8>) -> bool;

/// The bytes are a valid 32-byte signing-key scalar, as
/// `p256::ecdsa::SigningKey::from_slice` accepts it.
pub uninterp spec fn is_signing_key_bytes(bytes: Seq<u8>) -> bool;

/// The compressed SEC1 bytes of the verifying key that corresponds to a
/// signing key.
pub uninterp spec fn ecdsa_public_of(signing_key: Seq<u8>) -> Seq<u8>;

/// The signature the deterministic (RFC 6979) ECDSA signing operation
/// produces for a signing key and a message text.
pub uninterp spec fn sig_of(signing_key: Seq<u8>, msg: Seq<char>) -> Seq<u8>;

/// Whether ECDSA verification accepts `sig` for `msg` under the public
/// key encoded by `public_key`. A pure function of its three arguments.
pub uninterp spec fn sig_checks(public_key: Seq<u8>, msg: Seq<char>, sig: Seq<u8>) -> bool;

/// Relies on `p256::ecdsa::VerifyingKey::from_sec1_bytes`: it accepts a
/// byte string exactly when it is a SEC1 encoding of a curve point.
#[verifier::external_body]
fn public_key_bytes_valid(bytes: &[u8]) -> (r: bool)
    ensures
        r == is_public_key_sec1(bytes@),
{
    p256::ecdsa::VerifyingKey::from_sec1_bytes(bytes).is_ok()
}

/// Relies on `p256::ecdsa::Signature::from_slice`: it accepts exactly
/// 64-byte strings holding two valid nonzero scalars.
#[verifier::external_body]
fn signature_bytes_valid(bytes: &[u8]) -> (r: bool)
    ensures
        r == is_signature_bytes(bytes@),
        r ==> bytes@.len() == 64,
{
    p256::ecdsa::Signature::from_slice(bytes).is_ok()
}

/// Relies on `p256::ecdsa::SigningKey::from_slice`: it accepts 24- to
/// 32-byte big-endian encodings of a nonzero scalar, zero-padding the
/// short ones; this crate only ever passes it 32 bytes.
#[verifier::external_body]
fn signing_key_bytes_valid(bytes: &[u8]) -> (r: bool)
    ensures
        r == is_signing_key_bytes(bytes@),
{
    p256::ecdsa::SigningKey::from_slice(bytes).is_ok()
}

/// Relies on `p256::ecdsa::SigningKey::random` over the operating
/// system's entropy source: the result is a valid signing key; nothing
/// is claimed about its value.
#[verifier::external_body]
fn generate_signing_key_bytes() -> (r: Vec<u8>)
    ensures
        is_signing_key_bytes(r@),
        r@.len() == 32,
{
    let key = p256::ecdsa::SigningKey::random(&mut rand_core::OsRng);
    key.to_bytes().to_vec()
}

/// Relies on `p256::ecdsa::SigningKey::verifying_key` and
/// `VerifyingKey::to_encoded_point(true)`: the compressed SEC1 form of
/// the corresponding public key, 33 bytes led by 2 or 3, itself a valid
/// key encoding.
#[verifier::external_body]
fn derive_verifying_key(key: &[u8]) -> (r: Vec<u8>)
    requires
        is_signing_key_bytes(key@),
    ensures
        r@ == ecdsa_public_of(key@),
        r@.len() == 33,
        r@[0] == 2 || r@[0] == 3,
        is_public_key_sec1(r@),
{
    let sk = p256::ecdsa::SigningKey::from_slice(key).unwrap();
    sk.verifying_key().to_encoded_point(true).as_bytes().to_vec()
}

/// Relies on `p256::ecdsa::SigningKey::sign`, which is deterministic
/// (RFC 6979): the signature is a function of key and message alone, is
/// a valid 64-byte signature, and verifies under the key's own
/// verifying key.
#[verifier::external_body]
fn sign_message(key: &[u8], msg: &str) -> (r: Vec<u8>)
    requires
        is_signing_key_bytes(key@),
    ensures
        r@ == sig_of(key@, msg@),
        r@.len() == 64,
        is_signature_bytes(r@),
        sig_checks(ecdsa_public_of(key@), msg@, r@),
{
    let sk = p256::ecdsa::SigningKey::from_slice(key).unwrap();
    let sig: p256::ecdsa::Signature = sk.sign(msg.as_bytes());
    sig.to_bytes().to_vec()
}

/// Relies on `p256::ecdsa::VerifyingKey::verify`: acceptance is a pure
/// function of public key bytes, message and signature bytes.
#[verifier::external_body]
fn verify_message(public_key: &[u8], msg: &str, sig: &[u8]) -> (r: bool)
    requires
        is_public_key_sec1(public_key@),
        is_signature_bytes(sig@),
    ensures
        r == sig_checks(public_key@, msg@, sig@),
{
    let vk = p256::ecdsa::VerifyingKey::from_sec1_bytes(public_key).unwrap();
    let parsed = p256::ecdsa::Signature::from_slice(sig).unwrap();
    vk.verify(msg.as_bytes(), &parsed).is_ok()
}

/// Why a base64 text failed to become a public key.
#[derive(Debug, Clone, Copy, PartialEq, Eq, Structural)]
pub enum VerifyingKeyFromBase64Error {
    /// Not canonical base64.
    BytesFromBase64Error,
    /// Decoded bytes are not a compressed P-256 point.
    KeyFromBytesError,
}

/// Why a base64 text failed to become a signature.
#[derive(Debug, Clone, Copy, PartialEq, Eq, Structural)]
pub enum SignatureFromBase64Error {
    /// Not canonical base64.
    BytesFromBase64Error,
    /// Decoded bytes are not a 64-byte signature.
    SignatureFromBytesError,
}

/// A compressed, validated P-256 public key encoding: 33 bytes led by
/// 2 or 3 that name a point on the curve.
pub open spec fn valid_compressed_key(bytes: Seq<u8>) -> bool {
    &&& bytes.len() == 33
    &&& (bytes[0] == 2 || bytes[0] == 3)
    &&& is_public_key_sec1(bytes)
}

/// An identity: a P-256 verifying key held in its canonical compressed
/// SEC1 encoding. Equality of identities is equality of these bytes;
/// only the compressed form is accepted on the wire, so an uncompressed
/// encoding of the same point is not an identity here.
#[derive(Debug)]
pub struct EcdsaPublicKeyWrapper {
    bytes: Vec<u8>,
}

impl EcdsaPublicKeyWrapper {
    /// Every identity key carries a valid compressed point encoding.
    #[verifier::type_invariant]
    spec fn wf(self) -> bool {
        valid_compressed_key(self.bytes@)
    }

    /// The canonical encoding, as a spec-level value.
    pub closed spec fn bytes_spec(self) -> Seq<u8> {
        self.bytes@
    }

    /// Adopt a compressed SEC1 encoding after validating it.
    pub fn from_sec1_bytes(bytes: Vec<u8>) -> (r: Option<Self>)
        ensures
            r is Some <==> valid_compressed_key(bytes@),
            r matches Some(k) ==> k.bytes_spec() == bytes@,
    {
        if bytes.len() != 33 {
            return None;
        }
        let lead = bytes[0];
        if !(lead == 2 || lead == 3) {
            return None;
        }
        if !public_key_bytes_valid(bytes.as_slice()) {
            return None;
        }
        Some(Self { bytes })
    }

    /// Parse the canonical base64 text form. Succeeds exactly on the
    /// base64 of a valid compressed key encoding; bad base64 and a bad
    /// curve point are told apart.
    pub fn from_base64(s: &str) -> (r: Result<Self, VerifyingKeyFromBase64Error>)
        ensures
            r matches Ok(k) ==> s@ == b64_of(k.bytes_spec()) && valid_compressed_key(
                k.bytes_spec(),
            ),
            r matches Ok(k) ==> forall|x: Seq<u8>| s@ == b64_of(x) ==> x =~= k.bytes_spec(),
            r is Ok <==> (exists|x: Seq<u8>| s@ == b64_of(x) && valid_compressed_key(x)),
            r == Err::<Self, VerifyingKeyFromBase64Error>(
                VerifyingKeyFromBase64Error::BytesFromBase64Error,
            ) <==> !(exists|x: Seq<u8>| s@ == b64_of(x)),
    {
        let bytes = match decode_base64(s) {
            Ok(v) => v,
            Err(Base64DecodeError) => {
                return Err(VerifyingKeyFromBase64Error::BytesFromBase64Error);
            },
        };
        match Self::from_sec1_bytes(bytes) {
            Some(k) => Ok(k),
            None => Err(VerifyingKeyFromBase64Error::KeyFromBytesError),
        }
    }

    /// Render the canonical base64 text form.
    pub fn to_base64(&self) -> (r: String)
        ensures
            r@ == b64_of(self.bytes_spec()),
    {
        encode_base64(self.bytes.as_slice())
    }

    /// Whether `sig` is a valid signature over the exact text `msg`
    /// under this identity.
    pub fn verify_text(&self, msg: &str, sig: &EcdsaSignatureWrapper) -> (r: bool)
        ensures
            r == sig_checks(self.bytes_spec(), msg@, sig.bytes_spec()),
    {
        proof {
            use_type_invariant(self);
            use_type_invariant(sig);
        }
        verify_message(self.bytes.as_slice(), msg, sig.bytes.as_slice())
    }
}

/// A 64-byte ECDSA signature, base64-coded on the wire.
#[derive(Debug)]
pub struct EcdsaSignatureWrapper {
    bytes: Vec<u8>,
}

impl EcdsaSignatureWrapper {
    /// Every signature value holds 64 valid signature bytes.
    #[verifier::type_invariant]
    spec fn wf(self) -> bool {
        self.bytes@.len() == 64 && is_signature_bytes(self.bytes@)
    }

    /// The raw signature bytes, as a spec-level value.
    pub closed spec fn bytes_spec(self) -> Seq<u8> {
        self.bytes@
    }

    /// Adopt raw signature bytes after validating them.
    pub fn from_bytes(bytes: Vec<u8>) -> (r: Option<Self>)
        ensures
            r is Some <==> is_signature_bytes(bytes@),
            r matches Some(k) ==> k.bytes_spec() == bytes@,
    {
        if !signature_bytes_valid(bytes.as_slice()) {
            return None;
        }
        Some(Self { bytes })
    }

    /// Parse the base64 text form. Succeeds exactly on the base64 of
    /// valid signature bytes; bad base64 and bad signature bytes are
    /// told apart.
    pub fn from_base64(s: &str) -> (r: Result<Self, SignatureFromBase64Error>)
        ensures
            r matches Ok(k) ==> s@ == b64_of(k.bytes_spec()) && is_signature_bytes(k.bytes_spec()),
            r matches Ok(k) ==> forall|x: Seq<u8>| s@ == b64_of(x) ==> x =~= k.bytes_spec(),
            r is Ok <==> (exists|x: Seq<u8>| s@ == b64_of(x) && is_signature_bytes(x)),
            r == Err::<Self, SignatureFromBase64Error>(
                SignatureFromBase64Error::BytesFromBase64Error,
            ) <==> !(exists|x: Seq<u8>| s@ == b64_of(x)),
    {
        let bytes = match decode_base64(s) {
            Ok(v) => v,
            Err(Base64DecodeError) => {
                return Err(SignatureFromBase64Error::BytesFromBase64Error);
            },
        };
        match Self::from_bytes(bytes) {
            Some(k) => Ok(k),
            None => Err(SignatureFromBase64Error::SignatureFromBytesError),
        }
    }

    /// Render the base64 text form.
    pub fn to_base64(&self) -> (r: String)
        ensures
            r@ == b64_of(self.bytes_spec()),
    {
        encode_base64(self.bytes.as_slice())
    }
}

/// A client's signing key: the 32-byte P-256 scalar it signs with.
#[derive(Debug)]
pub struct ClientSigningKey {
    bytes: Vec<u8>,
}

impl ClientSigningKey {
    /// Every signing key holds a valid 32-byte scalar.
    #[verifier::type_invariant]
    spec fn wf(self) -> bool {
        self.bytes@.len() == 32 && is_signing_key_bytes(self.bytes@)
    }

    /// The raw scalar bytes, as a spec-level value.
    pub closed spec fn bytes_spec(self) -> Seq<u8> {
        self.bytes@
    }

    /// Draw a fresh signing key from the operating system's entropy.
    pub fn generate() -> (r: Self)
    {
        let bytes = generate_signing_key_bytes();
        Self { bytes }
    }

    /// Adopt a full-length raw scalar after validating it.
    pub fn from_bytes(bytes: Vec<u8>) -> (r: Option<Self>)
        ensures
            r is Some <==> bytes@.len() == 32 && is_signing_key_bytes(bytes@),
            r matches Some(k) ==> k.bytes_spec() == bytes@,
    {
        if bytes.len() != 32 {
            return None;
        }
        if !signing_key_bytes_valid(bytes.as_slice()) {
            return None;
        }
        Some(Self { bytes })
    }

    /// The identity this key signs for.
    pub fn verifying_key(&self) -> (r: EcdsaPublicKeyWrapper)
        ensures
            r.bytes_spec() == ecdsa_public_of(self.bytes_spec()),
    {
        proof {
            use_type_invariant(self);
        }
        let derived = derive_verifying_key(self.bytes.as_slice());
        EcdsaPublicKeyWrapper::from_sec1_bytes(derived).unwrap()
    }

    /// Sign the exact text `msg`. The result is the deterministic ECDSA
    /// signature for this key and text, and it verifies under this
    /// key's identity.
    pub fn sign_text(&self, msg: &str) -> (r: EcdsaSignatureWrapper)
        ensures
            r.bytes_spec() == sig_of(self.bytes_spec(), msg@),
            sig_checks(ecdsa_public_of(self.bytes_spec()), msg@, r.bytes_spec()),
    {
        proof {
            use_type_invariant(self);
        }
        let bytes = sign_message(self.bytes.as_slice(), msg);
        EcdsaSignatureWrapper::from_bytes(bytes).unwrap()
    }
}

impl Clone for EcdsaPublicKeyWrapper {
    /// Cloning keeps the key bytes.
    fn clone(&self) -> (r: Self)
        ensures
            r.bytes_spec() == self.bytes_spec(),
    {
        proof {
            use_type_invariant(self);
        }
        Self { bytes: self.bytes.clone() }
    }
}

impl Clone for EcdsaSignatureWrapper {
    /// Cloning keeps the signature bytes.
    fn clone(&self) -> (r: Self)
        ensures
            r.bytes_spec() == self.bytes_spec(),
    {
        proof {
            use_type_invariant(self);
        }
        Self { bytes: self.bytes.clone() }
    }
}

impl Clone for ClientSigningKey {
    /// Cloning keeps the key bytes.
    fn clone(&self) -> (r: Self)
        ensures
            r.bytes_spec() == self.bytes_spec(),
    {
        proof {
            use_type_invariant(self);
        }
        Self { bytes: self.bytes.clone() }
    }
}

} // verus!
