//! The wire vocabulary: method-call argument records, the tagged unions
//! exchanged between client and server, return envelopes and their error
//! set, and the opaque JSON payload blob.

use crate::keys::EcdsaPublicKeyWrapper;
use crate::nonce::Nonce;
use crate::room_id::RoomId;
use vstd::prelude::*;

verus! {

/// The text is one well-formed JSON value, exactly as `serde_json` would
/// accept it.
pub uninterp spec fn is_json_text(s: Seq<char>) -> bool;

/// Relies on `serde_json::from_str::<serde_json::Value>`: acceptance is
/// a pure function of the text.
#[verifier::external_body]
fn json_text_valid(s: &str) -> (r: bool)
    ensures
        r == is_json_text(s@),
{
    serde_json::from_str::<serde_json::Value>(s).is_ok()
}

/// The text was not a well-formed JSON value.
#[derive(Debug, Clone, Copy, PartialEq, Eq, Structural)]
pub struct NotJsonError;

/// An opaque JSON payload: this layer carries it untouched and never
/// looks inside; it only guarantees the text is well-formed JSON, so
/// that embedding it verbatim in a larger message keeps that message
/// well-formed.
#[derive(Debug)]
pub struct JsonText {
    text: String,
}

impl JsonText {
    /// Every payload blob holds well-formed JSON.
    #[verifier::type_invariant]
    spec fn wf(self) -> bool {
        is_json_text(self.text@)
    }

    /// The carried text, as a spec-level value.
    pub closed spec fn text_spec(self) -> Seq<char> {
        self.text@
    }

    /// Adopt a text after checking it is one JSON value.
    pub fn new(text: String) -> (r: Result<Self, NotJsonError>)
        ensures
            r is Ok <==> is_json_text(text@),
            r matches Ok(v) ==> v.text_spec() == text@,
    {
        if json_text_valid(text.as_str()) {
            Ok(Self { text })
        } else {
            Err(NotJsonError)
        }
    }

    /// Read the carried text.
    pub fn as_str(&self) -> (r: &str)
        ensures
            r@ == self.text_spec(),
            is_json_text(self.text_spec()),
    {
        proof {
            use_type_invariant(self);
        }
        self.text.as_str()
    }
}

impl Clone for JsonText {
    /// Cloning keeps the text.
    fn clone(&self) -> (r: Self)
        ensures
            r.text_spec() == self.text_spec(),
    {
        proof {
            use_type_invariant(self);
        }
        Self { text: self.text.clone() }
    }
}

/// The fields every method call carries: who calls, and their nonce.
#[derive(Debug, Clone)]
pub struct MethodCallCommonArgs {
    pub caller_id: EcdsaPublicKeyWrapper,
    pub nonce: Nonce,
}

/// Arguments of `subscribe_to_room`.
#[derive(Debug, Clone, Copy, PartialEq, Eq, Structural)]
pub struct SubscribeToRoomArgs {
    pub room_id: RoomId,
}

/// Arguments of `unsubscribe_from_room`.
#[derive(Debug, Clone, Copy, PartialEq, Eq, Structural)]
pub struct UnsubscribeFromRoomArgs {
    pub subscription_id: u64,
}

/// Arguments of `add_privileged_peer`.
#[derive(Debug, Clone)]
pub struct AddPrivilegedPeerArgs {
    pub room_id: RoomId,
    pub allow_id: EcdsaPublicKeyWrapper,
}

/// Arguments of `get_room_data_history`.
#[derive(Debug, Clone, Copy, PartialEq, Eq, Structural)]
pub struct GetRoomDataHistoryArgs {
    pub room_id: RoomId,
    pub from_timestamp: u64,
}

/// Arguments of `delete_data`.
#[derive(Debug, Clone)]
pub struct DeleteDataArgs {
    pub room_id: RoomId,
    pub data_sender_id: EcdsaPublicKeyWrapper,
    pub data_nonce: Nonce,
}

/// The fields both data-sending calls share.
#[derive(Debug, Clone)]
pub struct SendDataCommonArgs {
    pub room_id: RoomId,
    pub write_history: bool,
    pub data: JsonText,
}

/// Arguments of `broadcast_data`.
#[derive(Debug, Clone)]
pub struct BroadcastDataArgs {
    pub common_args: SendDataCommonArgs,
}

/// Arguments of `unicast_data`.
#[derive(Debug, Clone)]
pub struct UnicastDataArgs {
    pub receiver_id: EcdsaPublicKeyWrapper,
    pub common_args: SendDataCommonArgs,
    pub make_receiver_privileged: bool,
}

/// The closed set of methods a call can name, each with its arguments.
#[derive(Debug, Clone)]
pub enum MethodCallArgsVariants {
    CreateRoom,
    SubscribeToRoom(SubscribeToRoomArgs),
    UnsubscribeFromRoom(UnsubscribeFromRoomArgs),
    AddPrivilegedPeer(AddPrivilegedPeerArgs),
    GetRoomDataHistory(GetRoomDataHistoryArgs),
    DeleteData(DeleteDataArgs),
    BroadcastData(BroadcastDataArgs),
    UnicastData(UnicastDataArgs),
}

/// The content of a method call: the common fields and the chosen
/// method with its arguments. Its canonical JSON rendering is the exact
/// text that gets signed.
#[derive(Debug, Clone)]
pub struct MethodCallContent {
    pub common_arguments: MethodCallCommonArgs,
    pub variant_arguments: MethodCallArgsVariants,
}

impl MethodCallContent {
    /// Assemble call content from its parts.
    pub fn new(caller_id: EcdsaPublicKeyWrapper, nonce: Nonce, args: MethodCallArgsVariants) -> (r:
        Self)
        ensures
            r.common_arguments.caller_id == caller_id,
            r.common_arguments.nonce == nonce,
            r.variant_arguments == args,
    {
        Self { common_arguments: MethodCallCommonArgs { caller_id, nonce }, variant_arguments: args }
    }
}

/// What `create_room` answers: the fresh room's id.
#[derive(Debug, Clone, Copy, PartialEq, Eq, Structural)]
pub struct CreateRoomSuccess {
    pub room_id: RoomId,
}

/// What `subscribe_to_room` answers: the subscription's id.
#[derive(Debug, Clone, Copy, PartialEq, Eq, Structural)]
pub struct SubscribeSuccess {
    pub subscription_id: u64,
}

/// A successful method call's payload.
#[derive(Debug, Clone)]
pub enum MethodCallSuccess {
    /// An uninterpreted payload, for calls whose answer this layer does
    /// not model.
    Value(JsonText),
    CreateRoom(CreateRoomSuccess),
    SubscribeToRoom(SubscribeSuccess),
    /// A bare acknowledgement.
    Ack,
}

/// The closed set of error identifiers a call can fail with.
#[derive(Debug, Clone, Copy, PartialEq, Eq, Structural)]
pub enum ErrorId {
    InternalError,
    InvalidSignature,
    ParseError,
}

/// A failed method call's payload: the error id and an optional
/// human-readable message.
#[derive(Debug, Clone)]
pub struct MethodCallError {
    pub error_id: ErrorId,
    pub message: Option<String>,
}

impl ErrorId {
    /// This error with a chosen message.
    pub fn with_message(self, message: String) -> (r: MethodCallError)
        ensures
            r.error_id == self,
            r.message matches Some(m) && m@ == message@,
    {
        MethodCallError { error_id: self, message: Some(message) }
    }

    /// The default human-readable message for this error id.
    pub open spec fn default_message_spec(self) -> Seq<char> {
        match self {
            ErrorId::InternalError => "An unexpected internal error occured."@,
            ErrorId::InvalidSignature => "The request was not signed correctly."@,
            ErrorId::ParseError => "The request could not be parsed."@,
        }
    }

    /// This error with its default message.
    pub fn with_default_message(self) -> (r: MethodCallError)
        ensures
            r.error_id == self,
            r.message matches Some(m) && m@ == self.default_message_spec(),
    {
        let message: &str = match self {
            ErrorId::InternalError => "An unexpected internal error occured.",
            ErrorId::InvalidSignature => "The request was not signed correctly.",
            ErrorId::ParseError => "The request could not be parsed.",
        };
        self.with_message(message.to_owned())
    }
}

impl MethodCallError {
    /// The opaque internal-fault error, with its default message.
    pub fn internal() -> (r: Self)
        ensures
            r.error_id == ErrorId::InternalError,
            r.message matches Some(m) && m@ == ErrorId::InternalError.default_message_spec(),
    {
        ErrorId::InternalError.with_default_message()
    }
}

/// Success or error: how a call's return is tagged.
#[derive(Debug, Clone)]
pub enum MethodCallReturnVariants {
    Success(MethodCallSuccess),
    Error(MethodCallError),
}

/// The return envelope for one call, correlated by the caller's call id.
#[derive(Debug, Clone)]
pub struct MethodCallReturn {
    pub call_id: u64,
    pub return_data: MethodCallReturnVariants,
}

/// Data pushed asynchronously for one subscription.
#[derive(Debug, Clone)]
pub struct SubscriptionData {
    pub subscription_id: u64,
    pub room_id: RoomId,
    pub sender_id: EcdsaPublicKeyWrapper,
    pub nonce: Nonce,
    pub data: JsonText,
}

/// Everything the server can push to a client.
#[derive(Debug, Clone)]
pub enum ServerToClientMessage {
    Pong,
    MethodCallReturn(MethodCallReturn),
    SubscriptionData(SubscriptionData),
    Info(String),
}

impl SubscriptionData {
    /// Wrap this push into the outer server-to-client envelope.
    pub fn into_message(self) -> (r: ServerToClientMessage)
        ensures
            r matches ServerToClientMessage::SubscriptionData(d) && d == self,
    {
        ServerToClientMessage::SubscriptionData(self)
    }
}

impl ServerToClientMessage {
    /// The liveness reply.
    pub fn pong() -> (r: Self)
        ensures
            r is Pong,
    {
        Self::Pong
    }

    /// An error return for the call `call_id`, with the default message
    /// unless one is supplied.
    pub fn call_error(call_id: u64, error_id: ErrorId, message: Option<String>) -> (r: Self)
        ensures
            ({
                &&& r matches ServerToClientMessage::MethodCallReturn(ret)
                &&& ret.call_id == call_id
                &&& ret.return_data matches MethodCallReturnVariants::Error(e)
                &&& e.error_id == error_id
                &&& e.message == message
            }),
    {
        Self::MethodCallReturn(
            MethodCallReturn {
                call_id,
                return_data: MethodCallReturnVariants::Error(
                    MethodCallError { error_id, message },
                ),
            },
        )
    }

    /// An error return carrying a ready-made error payload.
    pub fn from_error(call_id: u64, error: MethodCallError) -> (r: Self)
        ensures
            ({
                &&& r matches ServerToClientMessage::MethodCallReturn(ret)
                &&& ret.call_id == call_id
                &&& ret.return_data matches MethodCallReturnVariants::Error(e)
                &&& e == error
            }),
    {
        Self::MethodCallReturn(
            MethodCallReturn { call_id, return_data: MethodCallReturnVariants::Error(error) },
        )
    }

    /// A success return carrying a ready-made payload.
    pub fn from_success(call_id: u64, data: MethodCallSuccess) -> (r: Self)
        ensures
            ({
                &&& r matches ServerToClientMessage::MethodCallReturn(ret)
                &&& ret.call_id == call_id
                &&& ret.return_data matches MethodCallReturnVariants::Success(s)
                &&& s == data
            }),
    {
        Self::MethodCallReturn(
            MethodCallReturn { call_id, return_data: MethodCallReturnVariants::Success(data) },
        )
    }

    /// An out-of-band informational note.
    pub fn info(text: &str) -> (r: Self)
        ensures
            r matches ServerToClientMessage::Info(t) && t@ == text@,
    {
        Self::Info(text.to_owned())
    }
}

} // verus!
