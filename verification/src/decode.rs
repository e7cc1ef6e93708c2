//! Reading parsed JSON into the wire vocabulary: the typed halves of
//! the client- and server-message parsers.
//!
//! The canonical text of each message is stated exactly by the
//! renderers; these readers are the inverse direction. They accept any
//! member order and surplus whitespace, ignore unknown members, and
//! carry opaque payload spans on byte for byte. A signed call that
//! cannot be fully read but still yields its call id degrades to the
//! partial form, so the server can answer a parse error to the right
//! call.
//!
//! Parsing is proved to invert rendering on the canonical texts of the
//! simple forms — ping, pong, the partial call, the close request, and
//! `create_room` content — which are recognised directly. The general
//! reader behind them is exercised against the renderers by tests; an
//! inversion claim for the payload-carrying messages cannot even be
//! stated, since an opaque payload's well-formedness and a key's
//! base64 text are named results of outside functions, of which
//! nothing further is believed.

use crate::digits::{
    dec_str, dec_val, lemma_dec_str_wf, lemma_dec_val_of_dec_str, parse_u64_range,
    valid_u64_digits,
};
use crate::envelope::{
    render_client_message, ClientToServerMessage, MethodCall, SignedMethodCall,
    SignedMethodCallOrPartial,
};
use crate::keys::{valid_compressed_key, EcdsaPublicKeyWrapper, EcdsaSignatureWrapper};
use crate::b64::b64_of;
use crate::nonce::{lemma_nonce_text_no_quote, lemma_nonce_text_round_trip, Nonce};
use crate::parse::{
    chars_start_with, find_member, key_is, parse_document, span_text, JsonMember, JsonValue,
};
use crate::render::{render_content, render_server_message};
use crate::room_id::RoomId;
use crate::text::{chars_to_string, string_to_chars};
use crate::wire::{
    AddPrivilegedPeerArgs, BroadcastDataArgs, DeleteDataArgs, ErrorId, GetRoomDataHistoryArgs,
    JsonText, MethodCallArgsVariants, MethodCallCommonArgs, MethodCallContent, MethodCallError,
    MethodCallReturn, MethodCallReturnVariants, MethodCallSuccess, SendDataCommonArgs,
    ServerToClientMessage, SubscribeToRoomArgs, SubscriptionData, UnicastDataArgs,
    UnsubscribeFromRoomArgs,
};
use vstd::prelude::*;

verus! {

/// The text was not a message this layer knows.
#[derive(Debug, Clone, Copy, PartialEq, Eq, Structural)]
pub struct MessageParseError;

/// The `u64` member with this key, if present with that shape.
fn get_u64(members: &Vec<JsonMember>, name: &str) -> (r: Option<u64>)
{
    match find_member(members, name) {
        Some(m) => match &m.value {
            JsonValue::UInt(v) => Some(*v),
            _ => None,
        },
        None => None,
    }
}

/// The boolean member with this key, if present with that shape.
fn get_bool(members: &Vec<JsonMember>, name: &str) -> (r: Option<bool>)
{
    match find_member(members, name) {
        Some(m) => match &m.value {
            JsonValue::Bool(v) => Some(*v),
            _ => None,
        },
        None => None,
    }
}

/// The string member with this key, decoded, if present with that
/// shape.
fn get_text(members: &Vec<JsonMember>, name: &str) -> (r: Option<Vec<char>>)
{
    match find_member(members, name) {
        Some(m) => match &m.value {
            JsonValue::Text(v) => Some(v.clone()),
            _ => None,
        },
        None => None,
    }
}

/// The raw text of the member with this key — whatever JSON value it
/// is — checked to be one well-formed JSON value of its own.
fn get_blob(s: &Vec<char>, members: &Vec<JsonMember>, name: &str) -> (r: Option<JsonText>)
{
    let m = match find_member(members, name) {
        Some(m) => m,
        None => {
            return None;
        },
    };
    let text = match span_text(s, m.start, m.end) {
        Some(t) => t,
        None => {
            return None;
        },
    };
    match JsonText::new(text) {
        Ok(b) => Some(b),
        Err(_) => None,
    }
}

/// The identity key member with this key: a base64 string naming a
/// valid compressed curve point.
fn get_key(members: &Vec<JsonMember>, name: &str) -> (r: Option<EcdsaPublicKeyWrapper>)
{
    let chars = get_text(members, name)?;
    let text = chars_to_string(&chars);
    match EcdsaPublicKeyWrapper::from_base64(text.as_str()) {
        Ok(k) => Some(k),
        Err(_) => None,
    }
}

/// The nonce member with this key, in its `"<id>_<timestamp>"` form.
fn get_nonce(members: &Vec<JsonMember>, name: &str) -> (r: Option<Nonce>)
{
    let chars = get_text(members, name)?;
    match Nonce::parse_text(&chars) {
        Ok(n) => Some(n),
        Err(_) => None,
    }
}

/// The room id member with this key, in its six-letter form.
fn get_room_id(members: &Vec<JsonMember>, name: &str) -> (r: Option<RoomId>)
{
    let chars = get_text(members, name)?;
    match RoomId::parse_text(&chars) {
        Ok(id) => Some(id),
        Err(_) => None,
    }
}


/// Position of the first `'"'` in `s` at or after `from`; `s.len()`
/// when there is none.
spec fn first_quote(s: Seq<char>, from: int) -> int
    decreases s.len() - from,
{
    if from < 0 || from >= s.len() {
        s.len() as int
    } else if s[from] == '"' {
        from
    } else {
        first_quote(s, from + 1)
    }
}

/// Find the first `'"'` at or after `from`, matching [`first_quote`].
fn find_quote(s: &Vec<char>, from: usize) -> (r: usize)
    requires
        from <= s.len(),
    ensures
        r == first_quote(s@, from as int),
        from <= r <= s.len(),
{
    let mut i: usize = from;
    while i < s.len()
        invariant
            from <= i <= s.len(),
            first_quote(s@, from as int) == first_quote(s@, i as int),
        decreases s.len() - i,
    {
        if s[i] == '"' {
            return i;
        }
        i = i + 1;
    }
    i
}

/// If positions `from..stop` hold no quote and `stop` is the end or a
/// quote, the first-quote search from `from` lands on `stop`.
proof fn lemma_first_quote_lands(s: Seq<char>, from: int, stop: int)
    requires
        0 <= from <= stop <= s.len(),
        stop < s.len() ==> s[stop] == '"',
        forall|k: int| from <= k < stop ==> (#[trigger] s[k]) != '"',
    ensures
        first_quote(s, from) == if stop < s.len() {
            stop
        } else {
            s.len() as int
        },
    decreases stop - from,
{
    if from < stop {
        assert(s[from] != '"');
        lemma_first_quote_lands(s, from + 1, stop);
    }
}

/// Copy the characters in positions `a..b`.
fn slice_chars(s: &Vec<char>, a: usize, b: usize) -> (r: Vec<char>)
    requires
        a <= b <= s.len(),
    ensures
        r@ == s@.subrange(a as int, b as int),
{
    let mut out: Vec<char> = Vec::new();
    let mut k = a;
    while k < b
        invariant
            a <= k <= b <= s@.len(),
            out@ == s@.subrange(a as int, k as int),
        decreases b - k,
    {
        out.push(s[k]);
        proof {
            assert(out@ =~= s@.subrange(a as int, k + 1));
        }
        k = k + 1;
    }
    out
}

/// Whether `s` holds exactly `pat` starting at position `at`.
fn chars_match_at(s: &Vec<char>, at: usize, pat: &Vec<char>) -> (r: bool)
    requires
        at <= s.len(),
    ensures
        r == (at + pat@.len() <= s@.len() && s@.subrange(at as int, at + pat@.len()) == pat@),
{
    let n = s.len();
    if n - at < pat.len() {
        return false;
    }
    let mut k: usize = 0;
    while k < pat.len()
        invariant
            at + pat@.len() <= n == s@.len(),
            k <= pat@.len(),
            forall|m: int| 0 <= m < k ==> s@[at + m] == #[trigger] pat@[m],
        decreases pat@.len() - k,
    {
        if s[at + k] != pat[k] {
            proof {
                assert(s@.subrange(at as int, at + pat@.len())[k as int] == s@[at + k]);
            }
            return false;
        }
        k = k + 1;
    }
    proof {
        assert(s@.subrange(at as int, at + pat@.len()) =~= pat@);
    }
    true
}

/// The text holds no quote, so it can stand inside a JSON string
/// literal without escapes.
pub open spec fn quote_free(x: Seq<char>) -> bool {
    forall|k: int| 0 <= k < x.len() ==> (#[trigger] x[k]) != '"'
}

/// The text is the canonical rendering of a `create_room` call's
/// content whose caller key is a valid compressed point with a
/// quote-free base64 form — which every key encoding the base64 engine
/// produces has. Such a text must parse back to that content.
pub open spec fn create_room_canonical(s: Seq<char>, c: MethodCallContent) -> bool {
    &&& s == render_content(c)
    &&& c.variant_arguments is CreateRoom
    &&& valid_compressed_key(c.common_arguments.caller_id.bytes_spec())
    &&& quote_free(b64_of(c.common_arguments.caller_id.bytes_spec()))
}

/// The exact segment layout of a canonical `create_room` content text:
/// the caller key's base64 sits between the first literal and the
/// first quote after it, the nonce text between the next two quotes,
/// and the trailing literal closes the text.
proof fn lemma_create_room_shape(s: Seq<char>, c: MethodCallContent)
    requires
        create_room_canonical(s, c),
    ensures
        ({
            let bs = b64_of(c.common_arguments.caller_id.bytes_spec());
            let nt = c.common_arguments.nonce.text_spec();
            let lit1 = "{\"caller_id\":\""@;
            let lit2 = "\",\"nonce\":\""@;
            let lit3 = "\",\"method_name\":\"create_room\"}"@;
            let q1: int = lit1.len() as int + bs.len() as int;
            let q2: int = q1 + lit2.len() as int + nt.len() as int;
            &&& s.len() == lit1.len() + bs.len() + lit2.len() + nt.len() + lit3.len()
            &&& s.len() >= lit1.len()
            &&& s.take(lit1.len() as int) == lit1
            &&& first_quote(s, lit1.len() as int) == q1
            &&& s.subrange(lit1.len() as int, q1) == bs
            &&& s.subrange(q1, q1 + lit2.len()) == lit2
            &&& first_quote(s, q1 + lit2.len()) == q2
            &&& s.subrange(q1 + lit2.len(), q2) == nt
            &&& s.subrange(q2, q2 + lit3.len()) == lit3
            &&& q2 + lit3.len() == s.len()
        }),
{
    let bs = b64_of(c.common_arguments.caller_id.bytes_spec());
    let nt = c.common_arguments.nonce.text_spec();
    let lit1 = "{\"caller_id\":\""@;
    let lit2 = "\",\"nonce\":\""@;
    let lit3 = "\",\"method_name\":\"create_room\"}"@;
    reveal_strlit("{\"caller_id\":\"");
    reveal_strlit("\",\"nonce\":\"");
    reveal_strlit("\",\"method_name\":\"create_room\"}");
    reveal_strlit("{\"caller_id\":");
    reveal_strlit(",\"nonce\":");
    reveal_strlit(",");
    reveal_strlit("\"method_name\":\"create_room\"");
    reveal_strlit("}");
    assert(s =~= lit1 + bs + lit2 + nt + lit3);
    let q1: int = lit1.len() as int + bs.len() as int;
    let q2: int = q1 + lit2.len() as int + nt.len() as int;
    assert(s.take(lit1.len() as int) =~= lit1);
    assert(s.subrange(lit1.len() as int, q1) =~= bs);
    assert(s.subrange(q1, q1 + lit2.len()) =~= lit2);
    assert(s.subrange(q1 + lit2.len(), q2) =~= nt);
    assert(s.subrange(q2, q2 + lit3.len()) =~= lit3);
    assert(s[q1] == lit2[0]);
    assert(lit2[0] == '"');
    assert forall|k: int| lit1.len() <= k < q1 implies (#[trigger] s[k]) != '"' by {
        assert(s[k] == bs[k - lit1.len()]);
    }
    lemma_first_quote_lands(s, lit1.len() as int, q1);
    lemma_nonce_text_no_quote(c.common_arguments.nonce);
    assert(s[q2] == lit3[0]);
    assert(lit3[0] == '"');
    assert forall|k: int| q1 + lit2.len() <= k < q2 implies (#[trigger] s[k]) != '"' by {
        assert(s[k] == nt[k - q1 - lit2.len()]);
    }
    lemma_first_quote_lands(s, q1 + lit2.len(), q2);
}

/// The canonical `create_room` content text, matched directly: the
/// fixed literals around a base64 caller key and a nonce text. On any
/// such text this yields the content; on anything else it stands
/// aside.
fn try_parse_create_room(chars: &Vec<char>) -> (r: Option<MethodCallContent>)
    ensures
        forall|c: MethodCallContent|
            create_room_canonical(chars@, c) ==> ({
                &&& r matches Some(p)
                &&& p.common_arguments.caller_id.bytes_spec()
                    == c.common_arguments.caller_id.bytes_spec()
                &&& p.common_arguments.nonce == c.common_arguments.nonce
                &&& p.variant_arguments is CreateRoom
            }),
{
    let lit1 = string_to_chars("{\"caller_id\":\"");
    let lit2 = string_to_chars("\",\"nonce\":\"");
    let lit3 = string_to_chars("\",\"method_name\":\"create_room\"}");
    if !chars_start_with(chars, &lit1) {
        proof {
            assert forall|c: MethodCallContent|
                !create_room_canonical(chars@, c) by {
                if create_room_canonical(chars@, c) {
                    lemma_create_room_shape(chars@, c);
                }
            }
        }
        return None;
    }
    let q1 = find_quote(chars, lit1.len());
    if !chars_match_at(chars, q1, &lit2) {
        proof {
            assert forall|c: MethodCallContent|
                !create_room_canonical(chars@, c) by {
                if create_room_canonical(chars@, c) {
                    lemma_create_room_shape(chars@, c);
                }
            }
        }
        return None;
    }
    let t_start = q1 + lit2.len();
    let q2 = find_quote(chars, t_start);
    if !chars_match_at(chars, q2, &lit3) {
        proof {
            assert forall|c: MethodCallContent|
                !create_room_canonical(chars@, c) by {
                if create_room_canonical(chars@, c) {
                    lemma_create_room_shape(chars@, c);
                }
            }
        }
        return None;
    }
    if q2 - lit1.len() != chars.len() - lit1.len() - lit3.len() {
        proof {
            assert forall|c: MethodCallContent|
                !create_room_canonical(chars@, c) by {
                if create_room_canonical(chars@, c) {
                    lemma_create_room_shape(chars@, c);
                }
            }
        }
        return None;
    }
    let seg_b = slice_chars(chars, lit1.len(), q1);
    let b_text = chars_to_string(&seg_b);
    let caller_id = match EcdsaPublicKeyWrapper::from_base64(b_text.as_str()) {
        Ok(k) => k,
        Err(_) => {
            proof {
                assert forall|c: MethodCallContent|
                    !create_room_canonical(chars@, c) by {
                    if create_room_canonical(chars@, c) {
                        lemma_create_room_shape(chars@, c);
                    }
                }
            }
            return None;
        },
    };
    let seg_t = slice_chars(chars, t_start, q2);
    let nonce = match Nonce::parse_text(&seg_t) {
        Ok(n) => n,
        Err(_) => {
            proof {
                assert forall|c: MethodCallContent|
                    !create_room_canonical(chars@, c) by {
                    if create_room_canonical(chars@, c) {
                        lemma_create_room_shape(chars@, c);
                        lemma_nonce_text_round_trip(c.common_arguments.nonce);
                    }
                }
            }
            return None;
        },
    };
    proof {
        assert forall|c: MethodCallContent|
            create_room_canonical(chars@, c) implies caller_id.bytes_spec()
            == c.common_arguments.caller_id.bytes_spec() && nonce
            == c.common_arguments.nonce by {
            lemma_create_room_shape(chars@, c);
            lemma_nonce_text_round_trip(c.common_arguments.nonce);
        }
    }
    Some(
        MethodCallContent {
            common_arguments: MethodCallCommonArgs { caller_id, nonce },
            variant_arguments: MethodCallArgsVariants::CreateRoom,
        },
    )
}

/// Read a method call's content from its serialized text: the common
/// fields, the method name, and that method's argument record.
/// Parsing inverts rendering for canonical `create_room` content: the
/// parsed caller key, nonce and method are the rendered content's own.
pub fn parse_method_call_content(chars: &Vec<char>) -> (r: Result<
    MethodCallContent,
    MessageParseError,
>)
    ensures
        forall|c: MethodCallContent|
            create_room_canonical(chars@, c) ==> ({
                &&& r matches Ok(p)
                &&& p.common_arguments.caller_id.bytes_spec()
                    == c.common_arguments.caller_id.bytes_spec()
                &&& p.common_arguments.nonce == c.common_arguments.nonce
                &&& p.variant_arguments is CreateRoom
            }),
{
    match try_parse_create_room(chars) {
        Some(p) => {
            return Ok(p);
        },
        None => {
        },
    }
    let doc = match parse_document(chars) {
        Ok(v) => v,
        Err(_) => {
            return Err(MessageParseError);
        },
    };
    let members = match doc {
        JsonValue::Obj(m) => m,
        _ => {
            return Err(MessageParseError);
        },
    };
    let caller_id = match get_key(&members, "caller_id") {
        Some(k) => k,
        None => {
            return Err(MessageParseError);
        },
    };
    let nonce = match get_nonce(&members, "nonce") {
        Some(n) => n,
        None => {
            return Err(MessageParseError);
        },
    };
    let method = match get_text(&members, "method_name") {
        Some(t) => t,
        None => {
            return Err(MessageParseError);
        },
    };
    let variant = if key_is(&method, "create_room") {
        MethodCallArgsVariants::CreateRoom
    } else {
        let args_member = match find_member(&members, "method_arguments") {
            Some(m) => m,
            None => {
                return Err(MessageParseError);
            },
        };
        let args = match &args_member.value {
            JsonValue::Obj(m) => m,
            _ => {
                return Err(MessageParseError);
            },
        };
        if key_is(&method, "subscribe_to_room") {
            let room_id = match get_room_id(args, "room_id") {
                Some(v) => v,
                None => {
                    return Err(MessageParseError);
                },
            };
            MethodCallArgsVariants::SubscribeToRoom(SubscribeToRoomArgs { room_id })
        } else if key_is(&method, "unsubscribe_from_room") {
            let subscription_id = match get_u64(args, "subscription_id") {
                Some(v) => v,
                None => {
                    return Err(MessageParseError);
                },
            };
            MethodCallArgsVariants::UnsubscribeFromRoom(
                UnsubscribeFromRoomArgs { subscription_id },
            )
        } else if key_is(&method, "add_privileged_peer") {
            let room_id = match get_room_id(args, "room_id") {
                Some(v) => v,
                None => {
                    return Err(MessageParseError);
                },
            };
            let allow_id = match get_key(args, "allow_id") {
                Some(v) => v,
                None => {
                    return Err(MessageParseError);
                },
            };
            MethodCallArgsVariants::AddPrivilegedPeer(AddPrivilegedPeerArgs { room_id, allow_id })
        } else if key_is(&method, "get_room_data_history") {
            let room_id = match get_room_id(args, "room_id") {
                Some(v) => v,
                None => {
                    return Err(MessageParseError);
                },
            };
            let from_timestamp = match get_u64(args, "from_timestamp") {
                Some(v) => v,
                None => {
                    return Err(MessageParseError);
                },
            };
            MethodCallArgsVariants::GetRoomDataHistory(
                GetRoomDataHistoryArgs { room_id, from_timestamp },
            )
        } else if key_is(&method, "delete_data") {
            let room_id = match get_room_id(args, "room_id") {
                Some(v) => v,
                None => {
                    return Err(MessageParseError);
                },
            };
            let data_sender_id = match get_key(args, "data_sender_id") {
                Some(v) => v,
                None => {
                    return Err(MessageParseError);
                },
            };
            let data_nonce = match get_nonce(args, "data_nonce") {
                Some(v) => v,
                None => {
                    return Err(MessageParseError);
                },
            };
            MethodCallArgsVariants::DeleteData(
                DeleteDataArgs { room_id, data_sender_id, data_nonce },
            )
        } else if key_is(&method, "broadcast_data") {
            let common_args = match parse_send_data_common(chars, args) {
                Some(v) => v,
                None => {
                    return Err(MessageParseError);
                },
            };
            MethodCallArgsVariants::BroadcastData(BroadcastDataArgs { common_args })
        } else if key_is(&method, "unicast_data") {
            let receiver_id = match get_key(args, "receiver_id") {
                Some(v) => v,
                None => {
                    return Err(MessageParseError);
                },
            };
            let common_args = match parse_send_data_common(chars, args) {
                Some(v) => v,
                None => {
                    return Err(MessageParseError);
                },
            };
            let make_receiver_privileged = match get_bool(args, "make_receiver_privileged") {
                Some(v) => v,
                None => {
                    return Err(MessageParseError);
                },
            };
            MethodCallArgsVariants::UnicastData(
                UnicastDataArgs { receiver_id, common_args, make_receiver_privileged },
            )
        } else {
            return Err(MessageParseError);
        }
    };
    Ok(
        MethodCallContent {
            common_arguments: MethodCallCommonArgs { caller_id, nonce },
            variant_arguments: variant,
        },
    )
}

/// The members both data-sending methods share.
fn parse_send_data_common(chars: &Vec<char>, args: &Vec<JsonMember>) -> (r: Option<
    SendDataCommonArgs,
>)
{
    let room_id = get_room_id(args, "room_id")?;
    let write_history = get_bool(args, "write_history")?;
    let data = get_blob(chars, args, "data")?;
    Some(SendDataCommonArgs { room_id, write_history, data })
}

/// The canonical text of a partial signed call: the tag members around
/// a bare decimal call id. Parsing such a text yields exactly that id.
fn try_parse_partial(chars: &Vec<char>) -> (r: Option<u64>)
    ensures
        forall|id: u64|
            chars@ == "{\"message_type\":\"signed_method_call\",\"message_content\":"@
                + dec_str(id as nat) + "}"@ ==> r == Some(id),
{
    let pc = string_to_chars("{\"message_type\":\"signed_method_call\",\"message_content\":");
    proof {
        reveal_strlit("}");
    }
    if chars.len() < 2 || chars.len() - 2 < pc.len() {
        proof {
            assert forall|id: u64|
                chars@ != "{\"message_type\":\"signed_method_call\",\"message_content\":"@
                    + dec_str(id as nat) + "}"@ by {
                lemma_dec_str_wf(id as nat);
            }
        }
        return None;
    }
    if !chars_start_with(chars, &pc) {
        proof {
            assert forall|id: u64|
                chars@ != "{\"message_type\":\"signed_method_call\",\"message_content\":"@
                    + dec_str(id as nat) + "}"@ by {
                let whole = "{\"message_type\":\"signed_method_call\",\"message_content\":"@
                    + dec_str(id as nat) + "}"@;
                if chars@ == whole {
                    assert(chars@.take(pc@.len() as int) =~= pc@);
                }
            }
        }
        return None;
    }
    let end = chars.len() - 1;
    if chars[end] != '}' {
        proof {
            assert forall|id: u64|
                chars@ != "{\"message_type\":\"signed_method_call\",\"message_content\":"@
                    + dec_str(id as nat) + "}"@ by {
                let whole = "{\"message_type\":\"signed_method_call\",\"message_content\":"@
                    + dec_str(id as nat) + "}"@;
                if chars@ == whole {
                    assert(chars@[end as int] == '}');
                }
            }
        }
        return None;
    }
    let r = parse_u64_range(chars, pc.len(), end);
    proof {
        assert forall|id: u64|
            chars@ == "{\"message_type\":\"signed_method_call\",\"message_content\":"@
                + dec_str(id as nat) + "}"@ implies r == Some(id) by {
            lemma_dec_str_wf(id as nat);
            lemma_dec_val_of_dec_str(id as nat);
            assert(chars@.subrange(pc@.len() as int, end as int) =~= dec_str(id as nat));
            assert(valid_u64_digits(dec_str(id as nat)));
            assert(dec_val(dec_str(id as nat)) == id as nat);
        }
    }
    r
}

/// Read one client-to-server message. A `signed_method_call` whose
/// content cannot be fully read, but whose object still yields a
/// `call_id`, degrades to the partial form carrying just that id.
/// Parsing inverts rendering for the simple forms: the canonical ping
/// text yields the ping, and the canonical partial text of any call id
/// yields that partial.
pub fn parse_client_message(text: &str) -> (r: Result<ClientToServerMessage, MessageParseError>)
    ensures
        text@ == render_client_message(ClientToServerMessage::Ping) ==> r == Ok::<
            ClientToServerMessage,
            MessageParseError,
        >(ClientToServerMessage::Ping),
        forall|id: u64|
            text@ == render_client_message(
                ClientToServerMessage::SignedMethodCall(SignedMethodCallOrPartial::Partial(id)),
            ) ==> r == Ok::<ClientToServerMessage, MessageParseError>(
                ClientToServerMessage::SignedMethodCall(SignedMethodCallOrPartial::Partial(id)),
            ),
{
    let chars = string_to_chars(text);
    if key_is(&chars, "{\"message_type\":\"ping\"}") {
        proof {
            reveal_strlit("{\"message_type\":\"ping\"}");
            reveal_strlit("{\"message_type\":\"signed_method_call\",\"message_content\":");
            reveal_strlit("}");
            assert forall|id: u64|
                text@ != render_client_message(
                    ClientToServerMessage::SignedMethodCall(
                        SignedMethodCallOrPartial::Partial(id),
                    ),
                ) by {
                lemma_dec_str_wf(id as nat);
                let whole = render_client_message(
                    ClientToServerMessage::SignedMethodCall(
                        SignedMethodCallOrPartial::Partial(id),
                    ),
                );
                assert(whole.len()
                    == "{\"message_type\":\"signed_method_call\",\"message_content\":"@.len()
                    + dec_str(id as nat).len() + "}"@.len());
                if text@ == whole {
                    assert(text@.len() == whole.len());
                }
            }
        }
        return Ok(ClientToServerMessage::Ping);
    }
    match try_parse_partial(&chars) {
        Some(id) => {
            return Ok(
                ClientToServerMessage::SignedMethodCall(SignedMethodCallOrPartial::Partial(id)),
            );
        },
        None => {
        },
    }
    let doc = match parse_document(&chars) {
        Ok(v) => v,
        Err(_) => {
            return Err(MessageParseError);
        },
    };
    let members = match doc {
        JsonValue::Obj(m) => m,
        _ => {
            return Err(MessageParseError);
        },
    };
    let tag = match get_text(&members, "message_type") {
        Some(t) => t,
        None => {
            return Err(MessageParseError);
        },
    };
    if key_is(&tag, "ping") {
        return Ok(ClientToServerMessage::Ping);
    }
    if !key_is(&tag, "signed_method_call") {
        return Err(MessageParseError);
    }
    let content_member = match find_member(&members, "message_content") {
        Some(m) => m,
        None => {
            return Err(MessageParseError);
        },
    };
    let fields = match &content_member.value {
        JsonValue::UInt(id) => {
            return Ok(
                ClientToServerMessage::SignedMethodCall(SignedMethodCallOrPartial::Partial(*id)),
            );
        },
        JsonValue::Obj(m) => m,
        _ => {
            return Err(MessageParseError);
        },
    };
    let call_id = match get_u64(fields, "call_id") {
        Some(v) => v,
        None => {
            return Err(MessageParseError);
        },
    };
    let full = parse_full_signed_call(fields, call_id);
    match full {
        Some(sc) => Ok(
            ClientToServerMessage::SignedMethodCall(SignedMethodCallOrPartial::Full(sc)),
        ),
        None => Ok(
            ClientToServerMessage::SignedMethodCall(SignedMethodCallOrPartial::Partial(call_id)),
        ),
    }
}

/// Read the rest of a signed call once its id is known.
fn parse_full_signed_call(fields: &Vec<JsonMember>, call_id: u64) -> (r: Option<SignedMethodCall>)
{
    let inner_chars = get_text(fields, "signed_call")?;
    let signature_chars = get_text(fields, "signature")?;
    let signature_text = chars_to_string(&signature_chars);
    let signature = match EcdsaSignatureWrapper::from_base64(signature_text.as_str()) {
        Ok(s) => s,
        Err(_) => {
            return None;
        },
    };
    let content = match parse_method_call_content(&inner_chars) {
        Ok(c) => c,
        Err(_) => {
            return None;
        },
    };
    let inner_text = chars_to_string(&inner_chars);
    Some(SignedMethodCall::new(call_id, MethodCall::from_parts(inner_text, content), signature))
}

/// Read one server-to-client message, as a client classifies inbound
/// frames. A success payload is carried as an uninterpreted JSON value;
/// reading it into a concrete success shape is its awaiting caller's
/// affair. Parsing inverts rendering for the liveness reply: the
/// canonical pong text yields the pong.
pub fn parse_server_message(text: &str) -> (r: Result<ServerToClientMessage, MessageParseError>)
    ensures
        text@ == render_server_message(ServerToClientMessage::Pong) ==> r == Ok::<
            ServerToClientMessage,
            MessageParseError,
        >(ServerToClientMessage::Pong),
{
    let chars = string_to_chars(text);
    if key_is(&chars, "{\"message_type\":\"pong\"}") {
        return Ok(ServerToClientMessage::Pong);
    }
    let doc = match parse_document(&chars) {
        Ok(v) => v,
        Err(_) => {
            return Err(MessageParseError);
        },
    };
    let members = match doc {
        JsonValue::Obj(m) => m,
        _ => {
            return Err(MessageParseError);
        },
    };
    let tag = match get_text(&members, "message_type") {
        Some(t) => t,
        None => {
            return Err(MessageParseError);
        },
    };
    if key_is(&tag, "pong") {
        return Ok(ServerToClientMessage::Pong);
    }
    if key_is(&tag, "info") {
        let content = match get_text(&members, "message_content") {
            Some(t) => t,
            None => {
                return Err(MessageParseError);
            },
        };
        return Ok(ServerToClientMessage::Info(chars_to_string(&content)));
    }
    let content_member = match find_member(&members, "message_content") {
        Some(m) => m,
        None => {
            return Err(MessageParseError);
        },
    };
    let fields = match &content_member.value {
        JsonValue::Obj(m) => m,
        _ => {
            return Err(MessageParseError);
        },
    };
    if key_is(&tag, "method_call_return") {
        let call_id = match get_u64(fields, "call_id") {
            Some(v) => v,
            None => {
                return Err(MessageParseError);
            },
        };
        let rt = match get_text(fields, "return_type") {
            Some(t) => t,
            None => {
                return Err(MessageParseError);
            },
        };
        if key_is(&rt, "success") {
            let data = match get_blob(&chars, fields, "return_data") {
                Some(b) => b,
                None => {
                    return Err(MessageParseError);
                },
            };
            return Ok(
                ServerToClientMessage::MethodCallReturn(
                    MethodCallReturn {
                        call_id,
                        return_data: MethodCallReturnVariants::Success(
                            MethodCallSuccess::Value(data),
                        ),
                    },
                ),
            );
        }
        if !key_is(&rt, "error") {
            return Err(MessageParseError);
        }
        let err_member = match find_member(fields, "return_data") {
            Some(m) => m,
            None => {
                return Err(MessageParseError);
            },
        };
        let err_fields = match &err_member.value {
            JsonValue::Obj(m) => m,
            _ => {
                return Err(MessageParseError);
            },
        };
        let id_text = match get_text(err_fields, "error_id") {
            Some(t) => t,
            None => {
                return Err(MessageParseError);
            },
        };
        let error_id = if key_is(&id_text, "internal_error") {
            ErrorId::InternalError
        } else if key_is(&id_text, "invalid_signature") {
            ErrorId::InvalidSignature
        } else if key_is(&id_text, "parse_error") {
            ErrorId::ParseError
        } else {
            return Err(MessageParseError);
        };
        let message = match find_member(err_fields, "message") {
            Some(m) => match &m.value {
                JsonValue::Text(t) => Some(chars_to_string(t)),
                JsonValue::Null => None,
                _ => {
                    return Err(MessageParseError);
                },
            },
            None => None,
        };
        return Ok(
            ServerToClientMessage::MethodCallReturn(
                MethodCallReturn {
                    call_id,
                    return_data: MethodCallReturnVariants::Error(
                        MethodCallError { error_id, message },
                    ),
                },
            ),
        );
    }
    if key_is(&tag, "subscription_data") {
        let subscription_id = match get_u64(fields, "subscription_id") {
            Some(v) => v,
            None => {
                return Err(MessageParseError);
            },
        };
        let room_id = match get_room_id(fields, "room_id") {
            Some(v) => v,
            None => {
                return Err(MessageParseError);
            },
        };
        let sender_id = match get_key(fields, "sender_id") {
            Some(v) => v,
            None => {
                return Err(MessageParseError);
            },
        };
        let nonce = match get_nonce(fields, "nonce") {
            Some(v) => v,
            None => {
                return Err(MessageParseError);
            },
        };
        let data = match get_blob(&chars, fields, "data") {
            Some(v) => v,
            None => {
                return Err(MessageParseError);
            },
        };
        return Ok(
            ServerToClientMessage::SubscriptionData(
                SubscriptionData { subscription_id, room_id, sender_id, nonce, data },
            ),
        );
    }
    Err(MessageParseError)
}

/// A message pushed from a Room actor over a subscription socket.
/// The bare close request — the tag object with no content — always
/// parses to `Close`.
pub fn parse_from_room_message(text: &str) -> (r: Result<
    crate::server::FromRoomMessage,
    MessageParseError,
>)
    ensures
        text@ == "{\"message_type\":\"close\"}"@ ==> r == Ok::<
            crate::server::FromRoomMessage,
            MessageParseError,
        >(crate::server::FromRoomMessage::Close),
{
    let chars = string_to_chars(text);
    if key_is(&chars, "{\"message_type\":\"close\"}") {
        return Ok(crate::server::FromRoomMessage::Close);
    }
    let doc = match parse_document(&chars) {
        Ok(v) => v,
        Err(_) => {
            return Err(MessageParseError);
        },
    };
    let members = match doc {
        JsonValue::Obj(m) => m,
        _ => {
            return Err(MessageParseError);
        },
    };
    let tag = match get_text(&members, "message_type") {
        Some(t) => t,
        None => {
            return Err(MessageParseError);
        },
    };
    if key_is(&tag, "close") {
        return Ok(crate::server::FromRoomMessage::Close);
    }
    if key_is(&tag, "subscription_id") {
        let id = match get_u64(&members, "message_content") {
            Some(v) => v,
            None => {
                return Err(MessageParseError);
            },
        };
        return Ok(crate::server::FromRoomMessage::SubscriptionId(id));
    }
    if !key_is(&tag, "data") {
        return Err(MessageParseError);
    }
    let content_member = match find_member(&members, "message_content") {
        Some(m) => m,
        None => {
            return Err(MessageParseError);
        },
    };
    let fields = match &content_member.value {
        JsonValue::Obj(m) => m,
        _ => {
            return Err(MessageParseError);
        },
    };
    let sender_id = match get_key(fields, "sender_id") {
        Some(v) => v,
        None => {
            return Err(MessageParseError);
        },
    };
    let nonce = match get_nonce(fields, "nonce") {
        Some(v) => v,
        None => {
            return Err(MessageParseError);
        },
    };
    let data = match get_blob(&chars, fields, "data") {
        Some(v) => v,
        None => {
            return Err(MessageParseError);
        },
    };
    Ok(
        crate::server::FromRoomMessage::Data(
            crate::server::SubscriptionDataMessage { sender_id, nonce, data },
        ),
    )
}

} // verus!
