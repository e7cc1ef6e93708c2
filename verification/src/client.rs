//! The calling client's state: its identity, its monotonic clock and
//! nonce, and the per-connection call-id counter that correlates
//! requests with their returns.

use crate::envelope::ClientToServerMessage;
use crate::keys::{ecdsa_public_of, sig_checks, sig_of, ClientSigningKey, EcdsaPublicKeyWrapper};
use crate::nonce::Nonce;
use crate::render::render_content;
use crate::wire::{MethodCallArgsVariants, MethodCallContent};
use vstd::prelude::*;

verus! {

/// A decrypted text message shown in a room, with the envelope fields a
/// client needs for ordering and attribution.
#[derive(Debug, Clone)]
pub struct RoomTextMessage {
    pub text: String,
    pub nonce: Nonce,
    pub sender_id: EcdsaPublicKeyWrapper,
}

/// A caller: the signing identity, the monotonic clock and nonce state
/// for replay protection, and the next call id for this connection.
#[derive(Debug)]
pub struct AppClient {
    pub signing_key: ClientSigningKey,
    pub caller_id: EcdsaPublicKeyWrapper,
    pub next_nonce: Nonce,
    pub last_time: u64,
    pub next_call_id: u64,
}

impl AppClient {
    /// The held identity signs for the held key.
    pub open spec fn key_matches(self) -> bool {
        self.caller_id.bytes_spec() == ecdsa_public_of(self.signing_key.bytes_spec())
    }

    /// A fresh caller with the given signing key, starting its clock at
    /// `now`.
    pub fn with_key(signing_key: ClientSigningKey, now: u64) -> (r: Self)
        ensures
            r.key_matches(),
            r.signing_key.bytes_spec() == signing_key.bytes_spec(),
            r.next_nonce.id == 0,
            r.next_nonce.timestamp == now,
            r.last_time == now,
            r.next_call_id == 0,
    {
        let caller_id = signing_key.verifying_key();
        Self { signing_key, caller_id, next_nonce: Nonce::new(now), last_time: now, next_call_id: 0 }
    }

    /// A fresh caller with a newly drawn signing key.
    pub fn new(now: u64) -> (r: Self)
        ensures
            r.key_matches(),
            r.next_nonce.id == 0,
            r.next_nonce.timestamp == now,
            r.last_time == now,
            r.next_call_id == 0,
    {
        Self::with_key(ClientSigningKey::generate(), now)
    }

    /// The caller's clock: never goes backwards, whatever the system
    /// clock reports.
    pub fn get_time(&mut self, now: u64) -> (r: u64)
        ensures
            r == if now > old(self).last_time {
                now
            } else {
                old(self).last_time
            },
            final(self).last_time == r,
            final(self).signing_key == old(self).signing_key,
            final(self).caller_id == old(self).caller_id,
            final(self).next_nonce == old(self).next_nonce,
            final(self).next_call_id == old(self).next_call_id,
    {
        let t = if now > self.last_time {
            now
        } else {
            self.last_time
        };
        self.last_time = t;
        t
    }

    /// Issue the next nonce: the stored one goes out, and its successor
    /// at the (monotonic) current time takes its place.
    pub fn next_nonce(&mut self, now: u64) -> (r: Nonce)
        requires
            old(self).next_nonce.id < u64::MAX,
        ensures
            r == old(self).next_nonce,
            final(self).last_time == if now > old(self).last_time {
                now
            } else {
                old(self).last_time
            },
            final(self).next_nonce.timestamp == final(self).last_time,
            final(self).next_nonce.id == if final(self).last_time > old(self).next_nonce.timestamp {
                0u64
            } else {
                (old(self).next_nonce.id + 1) as u64
            },
            final(self).signing_key == old(self).signing_key,
            final(self).caller_id == old(self).caller_id,
            final(self).next_call_id == old(self).next_call_id,
    {
        let time = self.get_time(now);
        let issued = self.next_nonce;
        self.next_nonce = issued.next(time);
        issued
    }

    /// Build, sign and wrap one method call: the stored nonce goes into
    /// the call, the canonical content text is signed with the caller's
    /// key under the next call id, and the counters advance.
    pub fn make_server_method_call(&mut self, args: MethodCallArgsVariants, now: u64) -> (r:
        ClientToServerMessage)
        requires
            old(self).next_nonce.id < u64::MAX,
            old(self).next_call_id < u64::MAX,
        ensures
            ({
                &&& r matches ClientToServerMessage::SignedMethodCall(
                    crate::envelope::SignedMethodCallOrPartial::Full(c),
                )
                &&& c.call_id == old(self).next_call_id
                &&& c.signed_call.call.common_arguments.caller_id.bytes_spec() == old(
                    self,
                ).caller_id.bytes_spec()
                &&& c.signed_call.call.common_arguments.nonce == old(self).next_nonce
                &&& c.signed_call.call.variant_arguments == args
                &&& c.signed_call.json_spec() == render_content(c.signed_call.call)
                &&& c.signature_spec() == sig_of(
                    old(self).signing_key.bytes_spec(),
                    c.signed_call.json_spec(),
                )
                &&& old(self).key_matches() ==> sig_checks(
                    c.signed_call.call.common_arguments.caller_id.bytes_spec(),
                    c.signed_call.json_spec(),
                    c.signature_spec(),
                )
            }),
            final(self).next_call_id == old(self).next_call_id + 1,
            final(self).signing_key == old(self).signing_key,
            final(self).caller_id == old(self).caller_id,
    {
        let nonce = self.next_nonce(now);
        let content = MethodCallContent::new(self.caller_id.clone(), nonce, args);
        let call = content.sign(self.next_call_id, &self.signing_key);
        self.next_call_id = self.next_call_id + 1;
        call.into_message()
    }
}

} // verus!
