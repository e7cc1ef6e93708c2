//! The requests this core sends a Room actor, and their canonical JSON
//! bodies. The actor itself is an external collaborator; building the
//! request body is this crate's logic, posting it is not.

use crate::keys::EcdsaPublicKeyWrapper;
use crate::nonce::Nonce;
use crate::render::{push_bool, push_key, push_nonce, render_bool, render_key, render_nonce};
use crate::text::{chars_to_string, push_str_chars};
use crate::wire::JsonText;
use vstd::prelude::*;

verus! {

/// Initialize a room if absent, with its first (privileged) peer.
#[derive(Debug, Clone)]
pub struct InitialiseMessage {
    pub initial_peer_id: EcdsaPublicKeyWrapper,
}

/// Open a subscription for a peer.
#[derive(Debug, Clone)]
pub struct SubscribeMessage {
    pub subscriber_id: EcdsaPublicKeyWrapper,
}

/// Close one subscription.
#[derive(Debug, Clone, Copy, PartialEq, Eq, Structural)]
pub struct UnsubscribeMessage {
    pub subscription_id: u64,
}

/// Let one peer make another privileged.
#[derive(Debug, Clone)]
pub struct AddPrivilegedPeerMessage {
    pub adder_id: EcdsaPublicKeyWrapper,
    pub added_id: EcdsaPublicKeyWrapper,
}

/// Delete the room.
#[derive(Debug, Clone)]
pub struct DeleteMessage {
    pub deleter_id: Option<EcdsaPublicKeyWrapper>,
}

/// Fan a payload out to the room's subscribers.
#[derive(Debug, Clone)]
pub struct BroadcastDataMessage {
    pub data: JsonText,
    pub sender_id: EcdsaPublicKeyWrapper,
    pub nonce: Nonce,
    pub write_history: bool,
}

/// Send a payload to one peer of the room.
#[derive(Debug, Clone)]
pub struct UnicastDataMessage {
    pub data: JsonText,
    pub sender_id: EcdsaPublicKeyWrapper,
    pub receiver_id: EcdsaPublicKeyWrapper,
    pub nonce: Nonce,
    pub write_history: bool,
}

/// Delete one datum from the room's history.
#[derive(Debug, Clone)]
pub struct DeleteDataMessage {
    pub deleter_id: EcdsaPublicKeyWrapper,
    pub data_sender_id: EcdsaPublicKeyWrapper,
    pub data_nonce: Nonce,
}

/// Everything this core can ask a Room actor.
#[derive(Debug, Clone)]
pub enum ToRoomMessage {
    Initialise(InitialiseMessage),
    Subscribe(SubscribeMessage),
    AddPrivilegedPeer(AddPrivilegedPeerMessage),
    Delete(DeleteMessage),
    BroadcastData(BroadcastDataMessage),
    UnicastData(UnicastDataMessage),
    DeleteData(DeleteDataMessage),
}

/// The canonical JSON body of a Room actor request, tagged by
/// `message_type` with the fields beside the tag.
pub open spec fn render_room_message(m: ToRoomMessage) -> Seq<char> {
    match m {
        ToRoomMessage::Initialise(x) => "{\"message_type\":\"initialise\",\"initial_peer_id\":"@
            + render_key(x.initial_peer_id) + "}"@,
        ToRoomMessage::Subscribe(x) => "{\"message_type\":\"subscribe\",\"subscriber_id\":"@
            + render_key(x.subscriber_id) + "}"@,
        ToRoomMessage::AddPrivilegedPeer(x) =>
            "{\"message_type\":\"add_privileged_peer\",\"adder_id\":"@ + render_key(x.adder_id)
            + ",\"added_id\":"@ + render_key(x.added_id) + "}"@,
        ToRoomMessage::Delete(x) => "{\"message_type\":\"delete\",\"deleter_id\":"@ + (
        match x.deleter_id {
            Some(k) => render_key(k),
            None => "null"@,
        }) + "}"@,
        ToRoomMessage::BroadcastData(x) => "{\"message_type\":\"broadcast_data\",\"data\":"@
            + x.data.text_spec() + ",\"sender_id\":"@ + render_key(x.sender_id) + ",\"nonce\":"@
            + render_nonce(x.nonce) + ",\"write_history\":"@ + render_bool(x.write_history) + "}"@,
        ToRoomMessage::UnicastData(x) => "{\"message_type\":\"unicast_data\",\"data\":"@
            + x.data.text_spec() + ",\"sender_id\":"@ + render_key(x.sender_id)
            + ",\"receiver_id\":"@ + render_key(x.receiver_id) + ",\"nonce\":"@ + render_nonce(
            x.nonce,
        ) + ",\"write_history\":"@ + render_bool(x.write_history) + "}"@,
        ToRoomMessage::DeleteData(x) => "{\"message_type\":\"delete_data\",\"deleter_id\":"@
            + render_key(x.deleter_id) + ",\"data_sender_id\":"@ + render_key(x.data_sender_id)
            + ",\"data_nonce\":"@ + render_nonce(x.data_nonce) + "}"@,
    }
}

/// Render a Room actor request body to its canonical JSON; the
/// transport around it (method, path, headers) is the caller's affair.
pub fn render_room_message_text(m: &ToRoomMessage) -> (r: String)
    ensures
        r@ == render_room_message(*m),
{
    let mut out: Vec<char> = Vec::new();
    match m {
        ToRoomMessage::Initialise(x) => {
            push_str_chars(&mut out, "{\"message_type\":\"initialise\",\"initial_peer_id\":");
            push_key(&mut out, &x.initial_peer_id);
            push_str_chars(&mut out, "}");
        },
        ToRoomMessage::Subscribe(x) => {
            push_str_chars(&mut out, "{\"message_type\":\"subscribe\",\"subscriber_id\":");
            push_key(&mut out, &x.subscriber_id);
            push_str_chars(&mut out, "}");
        },
        ToRoomMessage::AddPrivilegedPeer(x) => {
            push_str_chars(&mut out, "{\"message_type\":\"add_privileged_peer\",\"adder_id\":");
            push_key(&mut out, &x.adder_id);
            push_str_chars(&mut out, ",\"added_id\":");
            push_key(&mut out, &x.added_id);
            push_str_chars(&mut out, "}");
        },
        ToRoomMessage::Delete(x) => {
            push_str_chars(&mut out, "{\"message_type\":\"delete\",\"deleter_id\":");
            match &x.deleter_id {
                Some(k) => push_key(&mut out, k),
                None => push_str_chars(&mut out, "null"),
            }
            push_str_chars(&mut out, "}");
        },
        ToRoomMessage::BroadcastData(x) => {
            push_str_chars(&mut out, "{\"message_type\":\"broadcast_data\",\"data\":");
            push_str_chars(&mut out, x.data.as_str());
            push_str_chars(&mut out, ",\"sender_id\":");
            push_key(&mut out, &x.sender_id);
            push_str_chars(&mut out, ",\"nonce\":");
            push_nonce(&mut out, &x.nonce);
            push_str_chars(&mut out, ",\"write_history\":");
            push_bool(&mut out, x.write_history);
            push_str_chars(&mut out, "}");
        },
        ToRoomMessage::UnicastData(x) => {
            push_str_chars(&mut out, "{\"message_type\":\"unicast_data\",\"data\":");
            push_str_chars(&mut out, x.data.as_str());
            push_str_chars(&mut out, ",\"sender_id\":");
            push_key(&mut out, &x.sender_id);
            push_str_chars(&mut out, ",\"receiver_id\":");
            push_key(&mut out, &x.receiver_id);
            push_str_chars(&mut out, ",\"nonce\":");
            push_nonce(&mut out, &x.nonce);
            push_str_chars(&mut out, ",\"write_history\":");
            push_bool(&mut out, x.write_history);
            push_str_chars(&mut out, "}");
        },
        ToRoomMessage::DeleteData(x) => {
            push_str_chars(&mut out, "{\"message_type\":\"delete_data\",\"deleter_id\":");
            push_key(&mut out, &x.deleter_id);
            push_str_chars(&mut out, ",\"data_sender_id\":");
            push_key(&mut out, &x.data_sender_id);
            push_str_chars(&mut out, ",\"data_nonce\":");
            push_nonce(&mut out, &x.data_nonce);
            push_str_chars(&mut out, "}");
        },
    }
    proof {
        assert(out@ =~= render_room_message(*m));
    }
    chars_to_string(&out)
}

} // verus!
