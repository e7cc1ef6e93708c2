//! The server side of the protocol: admission of a signed call, the
//! dispatch of admitted calls to their handlers' requests, and the
//! return envelope sent back for every outcome.
//!
//! The outside work — posting to the Room and Peer actors, sending on
//! the socket — is the surrounding runtime's; every decision between
//! those steps is a function here.

use crate::digits::{dec_val, parse_u64_range, valid_u64_digits};
use crate::envelope::{
    timestamp_in_window, ClientToServerMessage, SignedMethodCall, SignedMethodCallOrPartial,
    TIMESTAMP_FUTURE_WINDOW, TIMESTAMP_PAST_WINDOW,
};
use crate::keys::sig_checks;
use crate::nonce::Nonce;
use crate::room_api::{
    AddPrivilegedPeerMessage, BroadcastDataMessage, InitialiseMessage, SubscribeMessage,
    ToRoomMessage,
};
use crate::room_id::RoomId;
use crate::text::string_to_chars;
use crate::wire::{
    ErrorId, JsonText, MethodCallArgsVariants, MethodCallCommonArgs, MethodCallError,
    MethodCallSuccess, ServerToClientMessage, SubscriptionData,
};
use vstd::prelude::*;

verus! {

/// A signed call failed admission: bad signature, stale or future
/// timestamp, or a nonce the signer used before. The caller is not told
/// which.
#[derive(Debug, Clone, Copy, PartialEq, Eq, Structural)]
pub struct CheckSignedMethodCallError;

/// Full admission of a signed call at time `now`, given what the Peer
/// actor's ledger said about the nonce: the signature verifies over the
/// stored text, the timestamp is fresh, and the nonce is new.
pub open spec fn admissible(sc: SignedMethodCall, now: u64, nonce_used: bool) -> bool {
    &&& sig_checks(
        sc.signed_call.call.common_arguments.caller_id.bytes_spec(),
        sc.signed_call.json_spec(),
        sc.signature_spec(),
    )
    &&& timestamp_in_window(
        sc.signed_call.call.common_arguments.nonce.timestamp,
        now,
        TIMESTAMP_PAST_WINDOW,
        TIMESTAMP_FUTURE_WINDOW,
    )
    &&& !nonce_used
}

/// The checks that need no collaborator: signature and timestamp. A
/// runtime short-circuits on `false` without consulting the nonce
/// ledger.
pub fn signature_and_timestamp_valid(sc: &SignedMethodCall, now: u64) -> (r: bool)
    ensures
        r == (sig_checks(
            sc.signed_call.call.common_arguments.caller_id.bytes_spec(),
            sc.signed_call.json_spec(),
            sc.signature_spec(),
        ) && timestamp_in_window(
            sc.signed_call.call.common_arguments.nonce.timestamp,
            now,
            TIMESTAMP_PAST_WINDOW,
            TIMESTAMP_FUTURE_WINDOW,
        )),
{
    let sig_ok = sc.validate_signature().is_ok();
    let ts_ok = sc.validate_timestamp(now);
    sig_ok && ts_ok
}

/// Admit or reject a signed call, given the time and the ledger's
/// answer for its nonce. Succeeds exactly on admissible calls; every
/// failure is the same opaque rejection.
pub fn check_signed_method_call(sc: &SignedMethodCall, now: u64, nonce_used: bool) -> (r: Result<
    (),
    CheckSignedMethodCallError,
>)
    ensures
        r is Ok <==> admissible(*sc, now, nonce_used),
{
    if signature_and_timestamp_valid(sc, now) && !nonce_used {
        Ok(())
    } else {
        Err(CheckSignedMethodCallError)
    }
}

/// The rejection a caller sees when admission fails: an
/// `invalid_signature` error with no detail about which check failed.
pub fn admission_rejection(call_id: u64) -> (r: ServerToClientMessage)
    ensures
        ({
            &&& r matches ServerToClientMessage::MethodCallReturn(ret)
            &&& ret.call_id == call_id
            &&& ret.return_data matches crate::wire::MethodCallReturnVariants::Error(e)
            &&& e.error_id == ErrorId::InvalidSignature
            &&& e.message is None
        }),
{
    ServerToClientMessage::call_error(call_id, ErrorId::InvalidSignature, None)
}

/// What one handler invocation came to.
#[derive(Debug, Clone)]
pub enum HandlerOutcome {
    /// The method succeeded with this payload.
    Success(MethodCallSuccess),
    /// The method itself refused; its error is forwarded verbatim.
    MethodError(MethodCallError),
    /// The handler's collaborator failed; the caller only learns of an
    /// internal error, never the detail.
    TransportError,
}

/// The return envelope for one handler outcome: success and business
/// errors pass through; a transport fault is masked as the default
/// internal error.
pub fn response_for_outcome(call_id: u64, outcome: HandlerOutcome) -> (r: ServerToClientMessage)
    ensures
        ({
            &&& r matches ServerToClientMessage::MethodCallReturn(ret)
            &&& ret.call_id == call_id
            &&& match outcome {
                HandlerOutcome::Success(s) => ({
                    &&& ret.return_data matches crate::wire::MethodCallReturnVariants::Success(p)
                    &&& p == s
                }),
                HandlerOutcome::MethodError(e) => ({
                    &&& ret.return_data matches crate::wire::MethodCallReturnVariants::Error(p)
                    &&& p == e
                }),
                HandlerOutcome::TransportError => ({
                    &&& ret.return_data matches crate::wire::MethodCallReturnVariants::Error(p)
                    &&& p.error_id == ErrorId::InternalError
                    &&& p.message matches Some(m)
                    &&& m@ == ErrorId::InternalError.default_message_spec()
                }),
            }
        }),
{
    match outcome {
        HandlerOutcome::Success(s) => ServerToClientMessage::from_success(call_id, s),
        HandlerOutcome::MethodError(e) => ServerToClientMessage::from_error(call_id, e),
        HandlerOutcome::TransportError => ServerToClientMessage::from_error(
            call_id,
            MethodCallError::internal(),
        ),
    }
}

/// What the dispatcher does with one parsed inbound message.
#[derive(Debug, Clone)]
pub enum ServerStep {
    /// Answer at once with this message.
    Reply(ServerToClientMessage),
    /// Run admission and a handler for this signed call.
    HandleCall(SignedMethodCall),
}

/// Decide the step for a parsed inbound message: a ping is answered
/// with a pong; a call parsed only as far as its id is answered with a
/// `parse_error` return for that id; a full signed call goes to
/// admission.
pub fn handle_parsed_message(message: ClientToServerMessage) -> (r: ServerStep)
    ensures
        message is Ping ==> ({
            &&& r matches ServerStep::Reply(m)
            &&& m is Pong
        }),
        ({
            message matches ClientToServerMessage::SignedMethodCall(
                SignedMethodCallOrPartial::Partial(id),
            ) ==> {
                &&& r matches ServerStep::Reply(m)
                &&& m matches ServerToClientMessage::MethodCallReturn(ret)
                &&& ret.call_id == id
                &&& ret.return_data matches crate::wire::MethodCallReturnVariants::Error(e)
                &&& e.error_id == ErrorId::ParseError
                &&& e.message matches Some(t) && t@ == ErrorId::ParseError.default_message_spec()
            }
        }),
        ({
            message matches ClientToServerMessage::SignedMethodCall(
                SignedMethodCallOrPartial::Full(sc),
            ) ==> ({
                &&& r matches ServerStep::HandleCall(c)
                &&& c == sc
            })
        }),
{
    match message {
        ClientToServerMessage::Ping => ServerStep::Reply(ServerToClientMessage::pong()),
        ClientToServerMessage::SignedMethodCall(SignedMethodCallOrPartial::Partial(id)) => {
            ServerStep::Reply(
                ServerToClientMessage::from_error(
                    id,
                    ErrorId::ParseError.with_default_message(),
                ),
            )
        },
        ClientToServerMessage::SignedMethodCall(SignedMethodCallOrPartial::Full(sc)) => {
            ServerStep::HandleCall(sc)
        },
    }
}

/// Which room an admitted call concerns: none for `create_room`, whose
/// room is yet to be drawn; the named room otherwise, where the method
/// names one.
pub fn room_target(variant: &MethodCallArgsVariants) -> (r: Option<RoomId>)
    ensures
        r == match *variant {
            MethodCallArgsVariants::CreateRoom => None::<RoomId>,
            MethodCallArgsVariants::SubscribeToRoom(a) => Some(a.room_id),
            MethodCallArgsVariants::UnsubscribeFromRoom(_) => None::<RoomId>,
            MethodCallArgsVariants::AddPrivilegedPeer(a) => Some(a.room_id),
            MethodCallArgsVariants::GetRoomDataHistory(a) => Some(a.room_id),
            MethodCallArgsVariants::DeleteData(a) => Some(a.room_id),
            MethodCallArgsVariants::BroadcastData(a) => Some(a.common_args.room_id),
            MethodCallArgsVariants::UnicastData(a) => Some(a.common_args.room_id),
        },
{
    match variant {
        MethodCallArgsVariants::CreateRoom => None,
        MethodCallArgsVariants::SubscribeToRoom(a) => Some(a.room_id),
        MethodCallArgsVariants::UnsubscribeFromRoom(_) => None,
        MethodCallArgsVariants::AddPrivilegedPeer(a) => Some(a.room_id),
        MethodCallArgsVariants::GetRoomDataHistory(a) => Some(a.room_id),
        MethodCallArgsVariants::DeleteData(a) => Some(a.room_id),
        MethodCallArgsVariants::BroadcastData(a) => Some(a.common_args.room_id),
        MethodCallArgsVariants::UnicastData(a) => Some(a.common_args.room_id),
    }
}

/// The Room actor request an admitted call's handler sends, where the
/// method has a handler: `create_room` initializes, `subscribe_to_room`
/// subscribes, `add_privileged_peer` and `broadcast_data` carry their
/// records. The methods without a served handler yield `None`; the
/// dispatcher answers those with an internal error instead of a panic.
pub fn room_request_for(variant: &MethodCallArgsVariants, common: &MethodCallCommonArgs) -> (r:
    Option<ToRoomMessage>)
    ensures
        match *variant {
            MethodCallArgsVariants::CreateRoom => ({
                &&& r matches Some(ToRoomMessage::Initialise(x))
                &&& x.initial_peer_id.bytes_spec() == common.caller_id.bytes_spec()
            }),
            MethodCallArgsVariants::SubscribeToRoom(_) => ({
                &&& r matches Some(ToRoomMessage::Subscribe(x))
                &&& x.subscriber_id.bytes_spec() == common.caller_id.bytes_spec()
            }),
            MethodCallArgsVariants::AddPrivilegedPeer(a) => {
                &&& r matches Some(ToRoomMessage::AddPrivilegedPeer(x))
                &&& x.adder_id.bytes_spec() == common.caller_id.bytes_spec()
                &&& x.added_id.bytes_spec() == a.allow_id.bytes_spec()
            },
            MethodCallArgsVariants::BroadcastData(a) => {
                &&& r matches Some(ToRoomMessage::BroadcastData(x))
                &&& x.data.text_spec() == a.common_args.data.text_spec()
                &&& x.sender_id.bytes_spec() == common.caller_id.bytes_spec()
                &&& x.nonce == common.nonce
                &&& x.write_history == a.common_args.write_history
            },
            MethodCallArgsVariants::UnsubscribeFromRoom(_) => r is None,
            MethodCallArgsVariants::GetRoomDataHistory(_) => r is None,
            MethodCallArgsVariants::DeleteData(_) => r is None,
            MethodCallArgsVariants::UnicastData(_) => r is None,
        },
{
    match variant {
        MethodCallArgsVariants::CreateRoom => Some(
            ToRoomMessage::Initialise(InitialiseMessage { initial_peer_id: common.caller_id.clone() }),
        ),
        MethodCallArgsVariants::SubscribeToRoom(_) => Some(
            ToRoomMessage::Subscribe(SubscribeMessage { subscriber_id: common.caller_id.clone() }),
        ),
        MethodCallArgsVariants::AddPrivilegedPeer(a) => Some(
            ToRoomMessage::AddPrivilegedPeer(
                AddPrivilegedPeerMessage {
                    adder_id: common.caller_id.clone(),
                    added_id: a.allow_id.clone(),
                },
            ),
        ),
        MethodCallArgsVariants::BroadcastData(a) => Some(
            ToRoomMessage::BroadcastData(
                BroadcastDataMessage {
                    data: a.common_args.data.clone(),
                    sender_id: common.caller_id.clone(),
                    nonce: common.nonce,
                    write_history: a.common_args.write_history,
                },
            ),
        ),
        MethodCallArgsVariants::UnsubscribeFromRoom(_) => None,
        MethodCallArgsVariants::GetRoomDataHistory(_) => None,
        MethodCallArgsVariants::DeleteData(_) => None,
        MethodCallArgsVariants::UnicastData(_) => None,
    }
}

/// Parse the decimal subscription id a Room actor returns in its
/// `Subscription-Id` response header.
pub fn parse_subscription_id(s: &str) -> (r: Option<u64>)
    ensures
        r is Some <==> valid_u64_digits(s@),
        r matches Some(v) ==> v == dec_val(s@),
{
    let cs = string_to_chars(s);
    let n = cs.len();
    let r = parse_u64_range(&cs, 0, n);
    proof {
        assert(cs@.subrange(0, cs@.len() as int) =~= s@);
    }
    r
}

/// Decide the step for one raw inbound text: parse it and treat the
/// parsed message; a text that is no known message is answered with an
/// informational note rather than dropped or fatal. The canonical ping
/// text is answered with a pong, and the canonical partial text of any
/// call id with a `parse_error` return for that id; every reply is
/// either a message or a call to run, never a crash.
pub fn handle_message(text: &str) -> (r: ServerStep)
    ensures
        text@ == crate::envelope::render_client_message(ClientToServerMessage::Ping) ==> ({
            &&& r matches ServerStep::Reply(m)
            &&& m is Pong
        }),
        forall|id: u64|
            text@ == crate::envelope::render_client_message(
                ClientToServerMessage::SignedMethodCall(SignedMethodCallOrPartial::Partial(id)),
            ) ==> ({
                &&& r matches ServerStep::Reply(m)
                &&& m matches ServerToClientMessage::MethodCallReturn(ret)
                &&& ret.call_id == id
                &&& ret.return_data matches crate::wire::MethodCallReturnVariants::Error(e)
                &&& e.error_id == ErrorId::ParseError
                &&& e.message matches Some(t)
                &&& t@ == ErrorId::ParseError.default_message_spec()
            }),
{
    match crate::decode::parse_client_message(text) {
        Ok(message) => handle_parsed_message(message),
        Err(_) => ServerStep::Reply(
            ServerToClientMessage::info("A message failed to be parsed."),
        ),
    }
}

/// What the server does with one admitted-or-not signed call, given the
/// time and the nonce ledger's answer.
#[derive(Debug)]
pub enum CallDecision {
    /// Admission failed: send this opaque rejection.
    Reject(ServerToClientMessage),
    /// Admitted: send this request to the Room actor — the named room's,
    /// or a resolver-drawn room for `create_room` — and answer from its
    /// response.
    CallRoom(Option<RoomId>, ToRoomMessage),
    /// Admitted, but the method has no served handler: send this
    /// internal-error return.
    RespondInternal(ServerToClientMessage),
}

/// Decide one signed call end to end: reject inadmissible calls with
/// the opaque `invalid_signature` return; for admitted calls of a
/// served method, name the Room actor request the handler sends; for
/// an admitted call of an unserved method, answer the default internal
/// error rather than crash.
pub fn dispatch_signed_call(sc: &SignedMethodCall, now: u64, nonce_used: bool) -> (r: CallDecision)
    ensures
        ({
            if !admissible(*sc, now, nonce_used) {
                {
                    &&& r matches CallDecision::Reject(m)
                    &&& m matches ServerToClientMessage::MethodCallReturn(ret)
                    &&& ret.call_id == sc.call_id
                    &&& ret.return_data matches crate::wire::MethodCallReturnVariants::Error(e)
                    &&& e.error_id == ErrorId::InvalidSignature
                    &&& e.message is None
                }
            } else {
                match sc.signed_call.call.variant_arguments {
                    MethodCallArgsVariants::CreateRoom => ({
                        &&& r matches CallDecision::CallRoom(target, ToRoomMessage::Initialise(_))
                        &&& target is None
                    }),
                    MethodCallArgsVariants::SubscribeToRoom(a) => ({
                        &&& r matches CallDecision::CallRoom(target, ToRoomMessage::Subscribe(_))
                        &&& target == Some(a.room_id)
                    }),
                    MethodCallArgsVariants::AddPrivilegedPeer(a) => ({
                        &&& r matches CallDecision::CallRoom(
                            target,
                            ToRoomMessage::AddPrivilegedPeer(_),
                        )
                        &&& target == Some(a.room_id)
                    }),
                    MethodCallArgsVariants::BroadcastData(a) => ({
                        &&& r matches CallDecision::CallRoom(
                            target,
                            ToRoomMessage::BroadcastData(_),
                        )
                        &&& target == Some(a.common_args.room_id)
                    }),
                    _ => ({
                        &&& r matches CallDecision::RespondInternal(m)
                        &&& m matches ServerToClientMessage::MethodCallReturn(ret)
                        &&& ret.call_id == sc.call_id
                        &&& ret.return_data matches crate::wire::MethodCallReturnVariants::Error(e)
                        &&& e.error_id == ErrorId::InternalError
                    }),
                }
            }
        }),
{
    if check_signed_method_call(sc, now, nonce_used).is_err() {
        return CallDecision::Reject(admission_rejection(sc.call_id));
    }
    let common = &sc.signed_call.call.common_arguments;
    let variant = &sc.signed_call.call.variant_arguments;
    match room_request_for(variant, common) {
        Some(request) => CallDecision::CallRoom(room_target(variant), request),
        None => CallDecision::RespondInternal(
            ServerToClientMessage::from_error(sc.call_id, MethodCallError::internal()),
        ),
    }
}

/// What consulting the Peer actor's nonce ledger came to.
#[derive(Debug, Clone, Copy, PartialEq, Eq, Structural)]
pub enum NonceLedgerAnswer {
    /// The ledger has not seen this nonce.
    Unused,
    /// The ledger has seen this nonce before.
    Used,
    /// The ledger could not be reached or did not answer sensibly.
    Unavailable,
}

/// The admission verdict once the ledger has been consulted.
#[derive(Debug)]
pub enum AdmissionDecision {
    /// The call is admitted; dispatch it.
    Admitted,
    /// The call fails admission; send this opaque rejection.
    RejectSignature(ServerToClientMessage),
    /// The ledger itself failed: a collaborator fault, answered with
    /// this opaque internal error and never with admission detail.
    RespondInternal(ServerToClientMessage),
}

/// Admission including the ledger's own health: an unreachable ledger
/// is an infrastructure fault and yields the default internal error;
/// otherwise the call is admitted exactly when signature, freshness
/// window and nonce novelty all hold, and rejected opaquely otherwise.
pub fn admit_with_ledger(sc: &SignedMethodCall, now: u64, answer: NonceLedgerAnswer) -> (r:
    AdmissionDecision)
    ensures
        answer is Unavailable ==> ({
            &&& r matches AdmissionDecision::RespondInternal(m)
            &&& m matches ServerToClientMessage::MethodCallReturn(ret)
            &&& ret.call_id == sc.call_id
            &&& ret.return_data matches crate::wire::MethodCallReturnVariants::Error(e)
            &&& e.error_id == ErrorId::InternalError
        }),
        answer is Unused ==> (r is Admitted <==> admissible(*sc, now, false)),
        answer is Used ==> (r is Admitted <==> admissible(*sc, now, true)),
        !(answer is Unavailable) && !admissible(*sc, now, answer is Used) ==> ({
            &&& r matches AdmissionDecision::RejectSignature(m)
            &&& m matches ServerToClientMessage::MethodCallReturn(ret)
            &&& ret.call_id == sc.call_id
            &&& ret.return_data matches crate::wire::MethodCallReturnVariants::Error(e)
            &&& e.error_id == ErrorId::InvalidSignature
            &&& e.message is None
        }),
{
    match answer {
        NonceLedgerAnswer::Unavailable => AdmissionDecision::RespondInternal(
            ServerToClientMessage::from_error(sc.call_id, MethodCallError::internal()),
        ),
        NonceLedgerAnswer::Unused => {
            if check_signed_method_call(sc, now, false).is_ok() {
                AdmissionDecision::Admitted
            } else {
                AdmissionDecision::RejectSignature(admission_rejection(sc.call_id))
            }
        },
        NonceLedgerAnswer::Used => {
            if check_signed_method_call(sc, now, true).is_ok() {
                AdmissionDecision::Admitted
            } else {
                AdmissionDecision::RejectSignature(admission_rejection(sc.call_id))
            }
        },
    }
}

/// A message pushed by a Room actor over the subscription socket.
#[derive(Debug, Clone)]
pub enum FromRoomMessage {
    /// The actor asks this side to close the subscription.
    Close,
    /// A datum for the subscriber.
    Data(SubscriptionDataMessage),
    /// The subscription id, repeated; carries nothing to act on.
    SubscriptionId(u64),
}

/// The payload of a Room actor's data push.
#[derive(Debug, Clone)]
pub struct SubscriptionDataMessage {
    pub sender_id: crate::keys::EcdsaPublicKeyWrapper,
    pub nonce: Nonce,
    pub data: JsonText,
}

/// What the subscription-forwarding loop does with one Room actor
/// message.
#[derive(Debug, Clone)]
pub enum RoomStreamAction {
    /// Forward this message to the subscribed client.
    Forward(ServerToClientMessage),
    /// Close the connection to the Room actor and stop.
    CloseConnection,
    /// Nothing to do for this message.
    Ignore,
}

/// Decide what one Room actor push means for the subscribed client: a
/// close request closes, a datum is forwarded as subscription data
/// under this subscription's id and room, anything else is ignored.
pub fn room_event_action(message: FromRoomMessage, subscription_id: u64, room_id: RoomId) -> (r:
    RoomStreamAction)
    ensures
        message is Close ==> r is CloseConnection,
        message is SubscriptionId ==> r is Ignore,
        ({
            message matches FromRoomMessage::Data(d) ==> {
                &&& r matches RoomStreamAction::Forward(m)
                &&& m matches ServerToClientMessage::SubscriptionData(s)
                &&& s.subscription_id == subscription_id
                &&& s.room_id == room_id
                &&& s.sender_id.bytes_spec() == d.sender_id.bytes_spec()
                &&& s.nonce == d.nonce
                &&& s.data.text_spec() == d.data.text_spec()
            }
        }),
{
    match message {
        FromRoomMessage::Close => RoomStreamAction::CloseConnection,
        FromRoomMessage::SubscriptionId(_) => RoomStreamAction::Ignore,
        FromRoomMessage::Data(d) => RoomStreamAction::Forward(
            SubscriptionData {
                subscription_id,
                room_id,
                sender_id: d.sender_id,
                nonce: d.nonce,
                data: d.data,
            }.into_message(),
        ),
    }
}

} // verus!
