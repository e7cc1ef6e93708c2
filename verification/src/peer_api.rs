//! The requests this core sends a Peer actor: the per-identity nonce
//! ledger consulted for replay detection. The actor is an external
//! collaborator; only the request body is built here.

use crate::nonce::Nonce;
use crate::render::{push_nonce, render_nonce};
use crate::text::{chars_to_string, push_str_chars};
use vstd::prelude::*;

verus! {

/// Ask whether the ledger has seen this nonce.
#[derive(Debug, Clone, Copy, PartialEq, Eq, Structural)]
pub struct CheckNonceMessage {
    pub nonce: Nonce,
}

/// Everything this core can ask a Peer actor.
#[derive(Debug, Clone, Copy, PartialEq, Eq, Structural)]
pub enum ToPeerMessage {
    CheckNonceIsUsed(CheckNonceMessage),
}

/// The canonical JSON body of a Peer actor request.
pub open spec fn render_peer_message(m: ToPeerMessage) -> Seq<char> {
    match m {
        ToPeerMessage::CheckNonceIsUsed(x) =>
            "{\"message_type\":\"check_nonce_is_used\",\"nonce\":"@ + render_nonce(x.nonce) + "}"@,
    }
}

/// Render a Peer actor request body to its canonical JSON; posting it
/// is the caller's affair.
pub fn render_peer_message_text(m: &ToPeerMessage) -> (r: String)
    ensures
        r@ == render_peer_message(*m),
{
    let mut out: Vec<char> = Vec::new();
    match m {
        ToPeerMessage::CheckNonceIsUsed(x) => {
            push_str_chars(&mut out, "{\"message_type\":\"check_nonce_is_used\",\"nonce\":");
            push_nonce(&mut out, &x.nonce);
            push_str_chars(&mut out, "}");
        },
    }
    proof {
        assert(out@ =~= render_peer_message(*m));
    }
    chars_to_string(&out)
}

} // verus!
