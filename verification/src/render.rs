//! The canonical JSON rendering of the wire vocabulary.
//!
//! Every message has exactly one canonical text; the spec functions here
//! define it character by character, and the executable renderers are
//! proved to produce it. The canonical rendering of a method call's
//! content is the exact text that gets signed.

use crate::b64::b64_of;
use crate::digits::dec_str;
use crate::keys::EcdsaPublicKeyWrapper;
use crate::nonce::Nonce;
use crate::room_id::{room_render, RoomId};
use crate::text::{chars_to_string, push_str_chars};
use crate::wire::{
    ErrorId, MethodCallArgsVariants, MethodCallContent, MethodCallError, MethodCallReturn,
    MethodCallReturnVariants, MethodCallSuccess, ServerToClientMessage, SubscriptionData,
};
use vstd::prelude::*;

verus! {

/// A lowercase hexadecimal digit character.
pub open spec fn hex_char(d: nat) -> char {
    if d < 10 {
        (48 + d) as char
    } else {
        (87 + d) as char
    }
}

/// How one character appears inside a JSON string literal: quotes and
/// backslashes gain a backslash, control characters become `\u00xx`,
/// everything else stands as itself.
pub open spec fn escape_char(c: char) -> Seq<char> {
    if c == '"' {
        seq!['\\', '"']
    } else if c == '\\' {
        seq!['\\', '\\']
    } else if (c as u32) < 32 {
        seq!['\\', 'u', '0', '0', hex_char((c as u32 / 16) as nat), hex_char((c as u32 % 16) as nat)]
    } else {
        seq![c]
    }
}

/// A text with each character escaped for a JSON string literal.
pub open spec fn escape_str(s: Seq<char>) -> Seq<char>
    decreases s.len(),
{
    if s.len() == 0 {
        Seq::<char>::empty()
    } else {
        escape_str(s.drop_last()) + escape_char(s.last())
    }
}

/// A quoted JSON string literal around already-safe content.
pub open spec fn quoted(s: Seq<char>) -> Seq<char> {
    seq!['"'] + s + seq!['"']
}

/// The canonical JSON of an identity key: its base64, quoted.
pub open spec fn render_key(k: EcdsaPublicKeyWrapper) -> Seq<char> {
    quoted(b64_of(k.bytes_spec()))
}

/// The canonical JSON of a nonce: its text form, quoted.
pub open spec fn render_nonce(n: Nonce) -> Seq<char> {
    quoted(n.text_spec())
}

/// The canonical JSON of a room id: its six letters, quoted.
pub open spec fn render_room_id(r: RoomId) -> Seq<char> {
    quoted(room_render(r.id_spec() as nat))
}

/// The canonical JSON of a boolean.
pub open spec fn render_bool(b: bool) -> Seq<char> {
    if b {
        "true"@
    } else {
        "false"@
    }
}

/// The canonical JSON members naming a method and its arguments.
pub open spec fn render_variant(v: MethodCallArgsVariants) -> Seq<char> {
    match v {
        MethodCallArgsVariants::CreateRoom => "\"method_name\":\"create_room\""@,
        MethodCallArgsVariants::SubscribeToRoom(a) =>
            "\"method_name\":\"subscribe_to_room\",\"method_arguments\":{\"room_id\":"@
            + render_room_id(a.room_id) + "}"@,
        MethodCallArgsVariants::UnsubscribeFromRoom(a) =>
            "\"method_name\":\"unsubscribe_from_room\",\"method_arguments\":{\"subscription_id\":"@
            + dec_str(a.subscription_id as nat) + "}"@,
        MethodCallArgsVariants::AddPrivilegedPeer(a) =>
            "\"method_name\":\"add_privileged_peer\",\"method_arguments\":{\"room_id\":"@
            + render_room_id(a.room_id) + ",\"allow_id\":"@ + render_key(a.allow_id) + "}"@,
        MethodCallArgsVariants::GetRoomDataHistory(a) =>
            "\"method_name\":\"get_room_data_history\",\"method_arguments\":{\"room_id\":"@
            + render_room_id(a.room_id) + ",\"from_timestamp\":"@ + dec_str(
            a.from_timestamp as nat,
        ) + "}"@,
        MethodCallArgsVariants::DeleteData(a) =>
            "\"method_name\":\"delete_data\",\"method_arguments\":{\"room_id\":"@ + render_room_id(
            a.room_id,
        ) + ",\"data_sender_id\":"@ + render_key(a.data_sender_id) + ",\"data_nonce\":"@
            + render_nonce(a.data_nonce) + "}"@,
        MethodCallArgsVariants::BroadcastData(a) =>
            "\"method_name\":\"broadcast_data\",\"method_arguments\":{\"room_id\":"@
            + render_room_id(a.common_args.room_id) + ",\"write_history\":"@ + render_bool(
            a.common_args.write_history,
        ) + ",\"data\":"@ + a.common_args.data.text_spec() + "}"@,
        MethodCallArgsVariants::UnicastData(a) =>
            "\"method_name\":\"unicast_data\",\"method_arguments\":{\"receiver_id\":"@
            + render_key(a.receiver_id) + ",\"room_id\":"@ + render_room_id(a.common_args.room_id)
            + ",\"write_history\":"@ + render_bool(a.common_args.write_history) + ",\"data\":"@
            + a.common_args.data.text_spec() + ",\"make_receiver_privileged\":"@ + render_bool(
            a.make_receiver_privileged,
        ) + "}"@,
    }
}

/// The canonical JSON of a method call's content: the text that gets
/// signed.
pub open spec fn render_content(c: MethodCallContent) -> Seq<char> {
    "{\"caller_id\":"@ + render_key(c.common_arguments.caller_id) + ",\"nonce\":"@ + render_nonce(
        c.common_arguments.nonce,
    ) + ","@ + render_variant(c.variant_arguments) + "}"@
}

/// The canonical JSON of a success payload.
pub open spec fn render_success(s: MethodCallSuccess) -> Seq<char> {
    match s {
        MethodCallSuccess::Value(j) => j.text_spec(),
        MethodCallSuccess::CreateRoom(c) => "{\"room_id\":"@ + render_room_id(c.room_id) + "}"@,
        MethodCallSuccess::SubscribeToRoom(c) => "{\"subscription_id\":"@ + dec_str(
            c.subscription_id as nat,
        ) + "}"@,
        MethodCallSuccess::Ack => "null"@,
    }
}

/// The canonical JSON tag of an error id.
pub open spec fn render_error_id(e: ErrorId) -> Seq<char> {
    match e {
        ErrorId::InternalError => "\"internal_error\""@,
        ErrorId::InvalidSignature => "\"invalid_signature\""@,
        ErrorId::ParseError => "\"parse_error\""@,
    }
}

/// The canonical JSON of an error payload.
pub open spec fn render_call_error(e: MethodCallError) -> Seq<char> {
    "{\"error_id\":"@ + render_error_id(e.error_id) + ",\"message\":"@ + (match e.message {
        Some(m) => quoted(escape_str(m@)),
        None => "null"@,
    }) + "}"@
}

/// The canonical JSON of a return envelope.
pub open spec fn render_return(ret: MethodCallReturn) -> Seq<char> {
    "{\"call_id\":"@ + dec_str(ret.call_id as nat) + (match ret.return_data {
        MethodCallReturnVariants::Success(s) => ",\"return_type\":\"success\",\"return_data\":"@
            + render_success(s),
        MethodCallReturnVariants::Error(e) => ",\"return_type\":\"error\",\"return_data\":"@
            + render_call_error(e),
    }) + "}"@
}

/// The canonical JSON of one subscription push.
pub open spec fn render_subscription_data(d: SubscriptionData) -> Seq<char> {
    "{\"subscription_id\":"@ + dec_str(d.subscription_id as nat) + ",\"room_id\":"@
        + render_room_id(d.room_id) + ",\"sender_id\":"@ + render_key(d.sender_id) + ",\"nonce\":"@
        + render_nonce(d.nonce) + ",\"data\":"@ + d.data.text_spec() + "}"@
}

/// The canonical JSON of everything the server sends a client.
pub open spec fn render_server_message(m: ServerToClientMessage) -> Seq<char> {
    match m {
        ServerToClientMessage::Pong => "{\"message_type\":\"pong\"}"@,
        ServerToClientMessage::MethodCallReturn(ret) =>
            "{\"message_type\":\"method_call_return\",\"message_content\":"@ + render_return(ret)
            + "}"@,
        ServerToClientMessage::SubscriptionData(d) =>
            "{\"message_type\":\"subscription_data\",\"message_content\":"@
            + render_subscription_data(d) + "}"@,
        ServerToClientMessage::Info(s) => "{\"message_type\":\"info\",\"message_content\":"@
            + quoted(escape_str(s@)) + "}"@,
    }
}

/// Append a character escaped for a JSON string literal.
fn push_escaped_char(out: &mut Vec<char>, c: char)
    ensures
        final(out)@ == old(out)@ + escape_char(c),
{
    if c == '"' {
        out.push('\\');
        out.push('"');
        proof {
            assert(out@ =~= old(out)@ + escape_char(c));
        }
    } else if c == '\\' {
        out.push('\\');
        out.push('\\');
        proof {
            assert(out@ =~= old(out)@ + escape_char(c));
        }
    } else {
        let v = c as u32;
        if v < 32 {
            out.push('\\');
            out.push('u');
            out.push('0');
            out.push('0');
            let hi = v / 16;
            let lo = v % 16;
            out.push(
                if hi < 10 {
                    (48 + hi as u8) as char
                } else {
                    (87 + hi as u8) as char
                },
            );
            out.push(
                if lo < 10 {
                    (48 + lo as u8) as char
                } else {
                    (87 + lo as u8) as char
                },
            );
            proof {
                assert(out@ =~= old(out)@ + escape_char(c));
            }
        } else {
            out.push(c);
            proof {
                assert(out@ =~= old(out)@ + escape_char(c));
            }
        }
    }
}

/// Append a whole text escaped for a JSON string literal.
pub(crate) fn push_escaped(out: &mut Vec<char>, s: &str)
    ensures
        final(out)@ == old(out)@ + escape_str(s@),
{
    let cs = crate::text::string_to_chars(s);
    let mut i: usize = 0;
    while i < cs.len()
        invariant
            i <= cs.len(),
            cs@ == s@,
            out@ == old(out)@ + escape_str(s@.take(i as int)),
        decreases cs.len() - i,
    {
        push_escaped_char(out, cs[i]);
        proof {
            assert(s@.take(i + 1).drop_last() =~= s@.take(i as int));
            assert(s@.take(i + 1).last() == s@[i as int]);
            assert(out@ =~= old(out)@ + escape_str(s@.take(i + 1)));
        }
        i = i + 1;
    }
    proof {
        assert(s@.take(s@.len() as int) =~= s@);
    }
}

/// Append a quoted, escaped JSON string literal.
pub(crate) fn push_quoted_escaped(out: &mut Vec<char>, s: &str)
    ensures
        final(out)@ == old(out)@ + quoted(escape_str(s@)),
{
    out.push('"');
    push_escaped(out, s);
    out.push('"');
    proof {
        assert(out@ =~= old(out)@ + quoted(escape_str(s@)));
    }
}

/// Append a key's canonical JSON.
pub(crate) fn push_key(out: &mut Vec<char>, k: &EcdsaPublicKeyWrapper)
    ensures
        final(out)@ == old(out)@ + render_key(*k),
{
    out.push('"');
    let b = k.to_base64();
    push_str_chars(out, b.as_str());
    out.push('"');
    proof {
        assert(out@ =~= old(out)@ + render_key(*k));
    }
}

/// Append a nonce's canonical JSON.
pub(crate) fn push_nonce(out: &mut Vec<char>, n: &Nonce)
    ensures
        final(out)@ == old(out)@ + render_nonce(*n),
{
    out.push('"');
    let t = n.to_text();
    push_str_chars(out, t.as_str());
    out.push('"');
    proof {
        assert(out@ =~= old(out)@ + render_nonce(*n));
    }
}

/// Append a room id's canonical JSON.
pub(crate) fn push_room_id(out: &mut Vec<char>, r: &RoomId)
    ensures
        final(out)@ == old(out)@ + render_room_id(*r),
{
    out.push('"');
    let t = r.to_text();
    push_str_chars(out, t.as_str());
    out.push('"');
    proof {
        assert(out@ =~= old(out)@ + render_room_id(*r));
    }
}

/// Append a boolean's canonical JSON.
pub(crate) fn push_bool(out: &mut Vec<char>, b: bool)
    ensures
        final(out)@ == old(out)@ + render_bool(b),
{
    if b {
        push_str_chars(out, "true");
    } else {
        push_str_chars(out, "false");
    }
}

/// Append the members naming `delete_data` and its arguments.
fn push_variant_delete_data(out: &mut Vec<char>, a: &crate::wire::DeleteDataArgs)
    ensures
        final(out)@ == old(out)@ + render_variant(MethodCallArgsVariants::DeleteData(*a)),
{
    push_str_chars(out, "\"method_name\":\"delete_data\",\"method_arguments\":{\"room_id\":");
    push_room_id(out, &a.room_id);
    push_str_chars(out, ",\"data_sender_id\":");
    push_key(out, &a.data_sender_id);
    push_str_chars(out, ",\"data_nonce\":");
    push_nonce(out, &a.data_nonce);
    push_str_chars(out, "}");
    proof {
        assert(out@ =~= old(out)@ + render_variant(MethodCallArgsVariants::DeleteData(*a)));
    }
}

/// Append the members naming `broadcast_data` and its arguments.
fn push_variant_broadcast(out: &mut Vec<char>, a: &crate::wire::BroadcastDataArgs)
    ensures
        final(out)@ == old(out)@ + render_variant(MethodCallArgsVariants::BroadcastData(*a)),
{
    push_str_chars(out, "\"method_name\":\"broadcast_data\",\"method_arguments\":{\"room_id\":");
    push_room_id(out, &a.common_args.room_id);
    push_str_chars(out, ",\"write_history\":");
    push_bool(out, a.common_args.write_history);
    push_str_chars(out, ",\"data\":");
    push_str_chars(out, a.common_args.data.as_str());
    push_str_chars(out, "}");
    proof {
        assert(out@ =~= old(out)@ + render_variant(MethodCallArgsVariants::BroadcastData(*a)));
    }
}

/// Append the members naming `unicast_data` and its arguments.
fn push_variant_unicast(out: &mut Vec<char>, a: &crate::wire::UnicastDataArgs)
    ensures
        final(out)@ == old(out)@ + render_variant(MethodCallArgsVariants::UnicastData(*a)),
{
    push_str_chars(out, "\"method_name\":\"unicast_data\",\"method_arguments\":{\"receiver_id\":");
    push_key(out, &a.receiver_id);
    push_str_chars(out, ",\"room_id\":");
    push_room_id(out, &a.common_args.room_id);
    push_str_chars(out, ",\"write_history\":");
    push_bool(out, a.common_args.write_history);
    push_str_chars(out, ",\"data\":");
    push_str_chars(out, a.common_args.data.as_str());
    push_str_chars(out, ",\"make_receiver_privileged\":");
    push_bool(out, a.make_receiver_privileged);
    push_str_chars(out, "}");
    proof {
        assert(out@ =~= old(out)@ + render_variant(MethodCallArgsVariants::UnicastData(*a)));
    }
}

/// Append the members naming a method and its arguments.
fn push_variant(out: &mut Vec<char>, v: &MethodCallArgsVariants)
    ensures
        final(out)@ == old(out)@ + render_variant(*v),
{
    match v {
        MethodCallArgsVariants::CreateRoom => {
            push_str_chars(out, "\"method_name\":\"create_room\"");
        },
        MethodCallArgsVariants::SubscribeToRoom(a) => {
            push_str_chars(
                out,
                "\"method_name\":\"subscribe_to_room\",\"method_arguments\":{\"room_id\":",
            );
            push_room_id(out, &a.room_id);
            push_str_chars(out, "}");
            proof {
                assert(out@ =~= old(out)@ + render_variant(*v));
            }
        },
        MethodCallArgsVariants::UnsubscribeFromRoom(a) => {
            push_str_chars(
                out,
                "\"method_name\":\"unsubscribe_from_room\",\"method_arguments\":{\"subscription_id\":",
            );
            crate::digits::render_u64(a.subscription_id, out);
            push_str_chars(out, "}");
            proof {
                assert(out@ =~= old(out)@ + render_variant(*v));
            }
        },
        MethodCallArgsVariants::AddPrivilegedPeer(a) => {
            push_str_chars(
                out,
                "\"method_name\":\"add_privileged_peer\",\"method_arguments\":{\"room_id\":",
            );
            push_room_id(out, &a.room_id);
            push_str_chars(out, ",\"allow_id\":");
            push_key(out, &a.allow_id);
            push_str_chars(out, "}");
            proof {
                assert(out@ =~= old(out)@ + render_variant(*v));
            }
        },
        MethodCallArgsVariants::GetRoomDataHistory(a) => {
            push_str_chars(
                out,
                "\"method_name\":\"get_room_data_history\",\"method_arguments\":{\"room_id\":",
            );
            push_room_id(out, &a.room_id);
            push_str_chars(out, ",\"from_timestamp\":");
            crate::digits::render_u64(a.from_timestamp, out);
            push_str_chars(out, "}");
            proof {
                assert(out@ =~= old(out)@ + render_variant(*v));
            }
        },
        MethodCallArgsVariants::DeleteData(a) => {
            push_variant_delete_data(out, a);
        },
        MethodCallArgsVariants::BroadcastData(a) => {
            push_variant_broadcast(out, a);
        },
        MethodCallArgsVariants::UnicastData(a) => {
            push_variant_unicast(out, a);
        },
    }
}

/// Render a method call's content to its canonical JSON: the exact text
/// that gets signed.
pub fn render_content_text(c: &MethodCallContent) -> (r: String)
    ensures
        r@ == render_content(*c),
{
    let mut out: Vec<char> = Vec::new();
    push_str_chars(&mut out, "{\"caller_id\":");
    push_key(&mut out, &c.common_arguments.caller_id);
    push_str_chars(&mut out, ",\"nonce\":");
    push_nonce(&mut out, &c.common_arguments.nonce);
    push_str_chars(&mut out, ",");
    push_variant(&mut out, &c.variant_arguments);
    push_str_chars(&mut out, "}");
    proof {
        assert(out@ =~= render_content(*c));
    }
    chars_to_string(&out)
}

/// Append a success payload's canonical JSON.
fn push_success(out: &mut Vec<char>, s: &MethodCallSuccess)
    ensures
        final(out)@ == old(out)@ + render_success(*s),
{
    match s {
        MethodCallSuccess::Value(j) => {
            push_str_chars(out, j.as_str());
        },
        MethodCallSuccess::CreateRoom(c) => {
            push_str_chars(out, "{\"room_id\":");
            push_room_id(out, &c.room_id);
            push_str_chars(out, "}");
            proof {
                assert(out@ =~= old(out)@ + render_success(*s));
            }
        },
        MethodCallSuccess::SubscribeToRoom(c) => {
            push_str_chars(out, "{\"subscription_id\":");
            crate::digits::render_u64(c.subscription_id, out);
            push_str_chars(out, "}");
            proof {
                assert(out@ =~= old(out)@ + render_success(*s));
            }
        },
        MethodCallSuccess::Ack => {
            push_str_chars(out, "null");
        },
    }
}

/// Append an error payload's canonical JSON.
fn push_call_error(out: &mut Vec<char>, e: &MethodCallError)
    ensures
        final(out)@ == old(out)@ + render_call_error(*e),
{
    push_str_chars(out, "{\"error_id\":");
    match e.error_id {
        ErrorId::InternalError => push_str_chars(out, "\"internal_error\""),
        ErrorId::InvalidSignature => push_str_chars(out, "\"invalid_signature\""),
        ErrorId::ParseError => push_str_chars(out, "\"parse_error\""),
    }
    push_str_chars(out, ",\"message\":");
    match &e.message {
        Some(m) => push_quoted_escaped(out, m.as_str()),
        None => push_str_chars(out, "null"),
    }
    push_str_chars(out, "}");
    proof {
        assert(out@ =~= old(out)@ + render_call_error(*e));
    }
}

/// Append a return envelope's canonical JSON.
fn push_return(out: &mut Vec<char>, ret: &MethodCallReturn)
    ensures
        final(out)@ == old(out)@ + render_return(*ret),
{
    push_str_chars(out, "{\"call_id\":");
    crate::digits::render_u64(ret.call_id, out);
    match &ret.return_data {
        MethodCallReturnVariants::Success(s) => {
            push_str_chars(out, ",\"return_type\":\"success\",\"return_data\":");
            push_success(out, s);
        },
        MethodCallReturnVariants::Error(e) => {
            push_str_chars(out, ",\"return_type\":\"error\",\"return_data\":");
            push_call_error(out, e);
        },
    }
    push_str_chars(out, "}");
    proof {
        assert(out@ =~= old(out)@ + render_return(*ret));
    }
}

/// Render a server-to-client message to its canonical JSON.
pub fn render_server_message_text(m: &ServerToClientMessage) -> (r: String)
    ensures
        r@ == render_server_message(*m),
{
    let mut out: Vec<char> = Vec::new();
    match m {
        ServerToClientMessage::Pong => {
            push_str_chars(&mut out, "{\"message_type\":\"pong\"}");
        },
        ServerToClientMessage::MethodCallReturn(ret) => {
            push_str_chars(&mut out, "{\"message_type\":\"method_call_return\",\"message_content\":");
            push_return(&mut out, ret);
            push_str_chars(&mut out, "}");
        },
        ServerToClientMessage::SubscriptionData(d) => {
            push_str_chars(&mut out, "{\"message_type\":\"subscription_data\",\"message_content\":");
            push_str_chars(&mut out, "{\"subscription_id\":");
            crate::digits::render_u64(d.subscription_id, &mut out);
            push_str_chars(&mut out, ",\"room_id\":");
            push_room_id(&mut out, &d.room_id);
            push_str_chars(&mut out, ",\"sender_id\":");
            push_key(&mut out, &d.sender_id);
            push_str_chars(&mut out, ",\"nonce\":");
            push_nonce(&mut out, &d.nonce);
            push_str_chars(&mut out, ",\"data\":");
            push_str_chars(&mut out, d.data.as_str());
            push_str_chars(&mut out, "}");
            push_str_chars(&mut out, "}");
        },
        ServerToClientMessage::Info(s) => {
            push_str_chars(&mut out, "{\"message_type\":\"info\",\"message_content\":");
            push_quoted_escaped(&mut out, s.as_str());
            push_str_chars(&mut out, "}");
        },
    }
    proof {
        assert(out@ =~= render_server_message(*m));
    }
    chars_to_string(&out)
}

} // verus!
