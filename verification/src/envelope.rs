//! The signed call envelope: canonical serialization, signing, and the
//! signature and timestamp checks the server runs before admitting a
//! call.
//!
//! A call's content is serialized once; the exact text is kept beside
//! the parsed structure and is the only thing ever signed or verified.
//! Verification never re-serializes the structure, so a semantically
//! equal but differently encoded text cannot stand in for the signed
//! one.

use crate::b64::b64_of;
use crate::digits::dec_str;
use crate::keys::{ecdsa_public_of, sig_checks, sig_of, ClientSigningKey, EcdsaSignatureWrapper};
use crate::render::{escape_str, quoted, render_content, render_content_text};
use crate::text::{chars_to_string, push_str_chars};
use crate::wire::MethodCallContent;
use vstd::prelude::*;

verus! {

/// How far in the past a call's timestamp may lie, in seconds,
/// exclusive.
pub const TIMESTAMP_PAST_WINDOW: u64 = 300;

/// How far in the future a call's timestamp may lie, in seconds,
/// exclusive.
pub const TIMESTAMP_FUTURE_WINDOW: u64 = 10;

/// A call's content together with the exact serialized text of it. For
/// an outbound call the text is the canonical rendering; for an inbound
/// one it is the text as it arrived, byte for byte.
#[derive(Debug, Clone)]
pub struct MethodCall {
    pub json: String,
    pub call: MethodCallContent,
}

impl MethodCall {
    /// The stored serialized text, as a spec-level value.
    pub open spec fn json_spec(self) -> Seq<char> {
        self.json@
    }

    /// Serialize content canonically, keeping the exact text beside the
    /// structure.
    pub fn from_content(call: MethodCallContent) -> (r: Self)
        ensures
            r.call == call,
            r.json_spec() == render_content(call),
    {
        let json = render_content_text(&call);
        Self { json, call }
    }

    /// Pair an already-serialized text with the structure parsed from
    /// it; the text is kept as given.
    pub fn from_parts(json: String, call: MethodCallContent) -> (r: Self)
        ensures
            r.call == call,
            r.json_spec() == json@,
    {
        Self { json, call }
    }

    /// The stored serialized text.
    pub fn json(&self) -> (r: &str)
        ensures
            r@ == self.json_spec(),
    {
        self.json.as_str()
    }
}

/// The signature did not verify over the stored text under the embedded
/// caller key.
#[derive(Debug, Clone, Copy, PartialEq, Eq, Structural)]
pub struct SignatureError;

/// A signed method call: the serialized content, the caller's signature
/// over exactly that text, and the caller-chosen correlation id.
#[derive(Debug, Clone)]
pub struct SignedMethodCall {
    pub call_id: u64,
    pub signed_call: MethodCall,
    pub signature: EcdsaSignatureWrapper,
}

/// The timestamp window check: `ts` lies strictly within
/// `(now - past, now + future)`.
pub open spec fn timestamp_in_window(ts: u64, now: u64, past: u64, future: u64) -> bool {
    ts + past > now && now + future > ts
}

impl SignedMethodCall {
    /// The signature bytes, as a spec-level value.
    pub open spec fn signature_spec(self) -> Seq<u8> {
        self.signature.bytes_spec()
    }

    /// Assemble a signed call from its parts.
    pub fn new(call_id: u64, signed_call: MethodCall, signature: EcdsaSignatureWrapper) -> (r:
        Self)
        ensures
            r.call_id == call_id,
            r.signed_call == signed_call,
            r.signature_spec() == signature.bytes_spec(),
    {
        Self { call_id, signed_call, signature }
    }

    /// The caller's signature.
    pub fn signature(&self) -> (r: &EcdsaSignatureWrapper)
        ensures
            r.bytes_spec() == self.signature_spec(),
    {
        &self.signature
    }

    /// Whether the call's timestamp lies strictly within the given
    /// window around `now`: more recent than `past` seconds ago and
    /// less than `future` seconds ahead, both bounds excluded.
    pub fn validate_timestamp_with(&self, now: u64, past: u64, future: u64) -> (r: bool)
        ensures
            r == timestamp_in_window(
                self.signed_call.call.common_arguments.nonce.timestamp,
                now,
                past,
                future,
            ),
    {
        let ts = self.signed_call.call.common_arguments.nonce.timestamp;
        (ts as u128) + (past as u128) > (now as u128) && (now as u128) + (future as u128) > (
        ts as u128)
    }

    /// The standard freshness check: the timestamp is newer than five
    /// minutes ago and less than ten seconds ahead, both bounds
    /// excluded.
    pub fn validate_timestamp(&self, now: u64) -> (r: bool)
        ensures
            r == timestamp_in_window(
                self.signed_call.call.common_arguments.nonce.timestamp,
                now,
                TIMESTAMP_PAST_WINDOW,
                TIMESTAMP_FUTURE_WINDOW,
            ),
    {
        self.validate_timestamp_with(now, TIMESTAMP_PAST_WINDOW, TIMESTAMP_FUTURE_WINDOW)
    }

    /// Verify the signature over exactly the stored text, under the
    /// caller key embedded in the call. Succeeds precisely when ECDSA
    /// verification accepts that triple; the structure is never
    /// re-serialized for this check.
    pub fn validate_signature(&self) -> (r: Result<(), SignatureError>)
        ensures
            r is Ok <==> sig_checks(
                self.signed_call.call.common_arguments.caller_id.bytes_spec(),
                self.signed_call.json_spec(),
                self.signature_spec(),
            ),
    {
        if self.signed_call.call.common_arguments.caller_id.verify_text(
            self.signed_call.json.as_str(),
            &self.signature,
        ) {
            Ok(())
        } else {
            Err(SignatureError)
        }
    }

    /// Wrap this call into the outer client-to-server envelope.
    pub fn into_message(self) -> (r: ClientToServerMessage)
        ensures
            ({
                &&& r matches ClientToServerMessage::SignedMethodCall(
                    SignedMethodCallOrPartial::Full(c),
                )
                &&& c == self
            }),
    {
        ClientToServerMessage::SignedMethodCall(SignedMethodCallOrPartial::Full(self))
    }
}

impl MethodCallContent {
    /// Serialize this content canonically and sign exactly that text.
    /// The signature is the deterministic ECDSA signature of the
    /// canonical text; when the content names the signer's own identity
    /// as caller, the produced call passes
    /// [`SignedMethodCall::validate_signature`].
    pub fn sign(self, call_id: u64, signing_key: &ClientSigningKey) -> (r: SignedMethodCall)
        ensures
            r.call_id == call_id,
            r.signed_call.call == self,
            r.signed_call.json_spec() == render_content(self),
            r.signature_spec() == sig_of(signing_key.bytes_spec(), render_content(self)),
            self.common_arguments.caller_id.bytes_spec() == ecdsa_public_of(
                signing_key.bytes_spec(),
            ) ==> sig_checks(
                self.common_arguments.caller_id.bytes_spec(),
                r.signed_call.json_spec(),
                r.signature_spec(),
            ),
    {
        let signed_call = MethodCall::from_content(self);
        let signature = signing_key.sign_text(signed_call.json());
        SignedMethodCall { call_id, signed_call, signature }
    }
}

/// A signed call as the server received it: either fully parsed, or
/// only far enough to recover the correlation id, so that a parse
/// error can still be answered to the right call.
#[derive(Debug, Clone)]
pub enum SignedMethodCallOrPartial {
    Full(SignedMethodCall),
    Partial(u64),
}

/// Everything a client can send the server.
#[derive(Debug, Clone)]
pub enum ClientToServerMessage {
    Ping,
    SignedMethodCall(SignedMethodCallOrPartial),
}

/// The canonical JSON of a signed call.
pub open spec fn render_signed_call(sc: SignedMethodCall) -> Seq<char> {
    "{\"call_id\":"@ + dec_str(sc.call_id as nat) + ",\"signed_call\":"@ + quoted(
        escape_str(sc.signed_call.json_spec()),
    ) + ",\"signature\":"@ + quoted(b64_of(sc.signature_spec())) + "}"@
}

/// The canonical JSON of a full or partial signed call.
pub open spec fn render_or_partial(c: SignedMethodCallOrPartial) -> Seq<char> {
    match c {
        SignedMethodCallOrPartial::Full(sc) => render_signed_call(sc),
        SignedMethodCallOrPartial::Partial(id) => dec_str(id as nat),
    }
}

/// The canonical JSON of everything a client sends the server.
pub open spec fn render_client_message(m: ClientToServerMessage) -> Seq<char> {
    match m {
        ClientToServerMessage::Ping => "{\"message_type\":\"ping\"}"@,
        ClientToServerMessage::SignedMethodCall(c) =>
            "{\"message_type\":\"signed_method_call\",\"message_content\":"@ + render_or_partial(c)
            + "}"@,
    }
}

/// Render a client-to-server message to its canonical JSON.
pub fn render_client_message_text(m: &ClientToServerMessage) -> (r: String)
    ensures
        r@ == render_client_message(*m),
{
    let mut out: Vec<char> = Vec::new();
    match m {
        ClientToServerMessage::Ping => {
            push_str_chars(&mut out, "{\"message_type\":\"ping\"}");
        },
        ClientToServerMessage::SignedMethodCall(c) => {
            push_str_chars(
                &mut out,
                "{\"message_type\":\"signed_method_call\",\"message_content\":",
            );
            match c {
                SignedMethodCallOrPartial::Full(sc) => {
                    push_str_chars(&mut out, "{\"call_id\":");
                    crate::digits::render_u64(sc.call_id, &mut out);
                    push_str_chars(&mut out, ",\"signed_call\":");
                    out.push('"');
                    crate::render::push_escaped(&mut out, sc.signed_call.json());
                    out.push('"');
                    push_str_chars(&mut out, ",\"signature\":");
                    out.push('"');
                    let sig_b64 = sc.signature.to_base64();
                    push_str_chars(&mut out, sig_b64.as_str());
                    out.push('"');
                    push_str_chars(&mut out, "}");
                },
                SignedMethodCallOrPartial::Partial(id) => {
                    crate::digits::render_u64(*id, &mut out);
                },
            }
            push_str_chars(&mut out, "}");
        },
    }
    proof {
        assert(out@ =~= render_client_message(*m));
    }
    chars_to_string(&out)
}

} // verus!
