use zend::decode::parse_client_message;
use zend::envelope::render_client_message_text;
use zend::keys::ClientSigningKey;
use zend::nonce::Nonce;
use zend::room_id::RoomId;
use zend::server::{
    admission_rejection, admit_with_ledger, check_signed_method_call, dispatch_signed_call,
    handle_message, handle_parsed_message, parse_subscription_id, response_for_outcome,
    room_event_action, room_request_for, room_target, signature_and_timestamp_valid,
    AdmissionDecision, CallDecision, FromRoomMessage, HandlerOutcome, NonceLedgerAnswer,
    RoomStreamAction, ServerStep, SubscriptionDataMessage,
};
use zend::wire::{
    ErrorId, JsonText, MethodCallArgsVariants, MethodCallContent, MethodCallError,
    MethodCallReturnVariants, MethodCallSuccess, ServerToClientMessage, SubscribeSuccess,
    SubscribeToRoomArgs,
};
use zend::room_api::ToRoomMessage;

fn fixed_key() -> ClientSigningKey {
    let mut bytes = vec![0u8; 32];
    bytes[31] = 5;
    ClientSigningKey::from_bytes(bytes).unwrap()
}

fn subscribe_call(key: &ClientSigningKey, ts: u64) -> zend::envelope::SignedMethodCall {
    MethodCallContent::new(
        key.verifying_key(),
        Nonce { id: 0, timestamp: ts },
        MethodCallArgsVariants::SubscribeToRoom(SubscribeToRoomArgs {
            room_id: RoomId::from_int(0).unwrap(),
        }),
    )
    .sign(7, key)
}

/// End to end: the client signs a subscribe call for room AAAAAA with
/// call id 7; the server rejects it as invalid_signature when the nonce
/// timestamp is 301 seconds old, and admits and dispatches it when the
/// timestamp is current.
#[test]
fn signed_subscribe_is_rejected_when_stale_and_dispatched_when_fresh() {
    let key = fixed_key();
    let now: u64 = 1_700_000_000;

    // stale call: now - 301 is outside the (now - 300, now + 10) window
    let stale = subscribe_call(&key, now - 301);
    let wire = render_client_message_text(&stale.clone().into_message());
    let received = parse_client_message(&wire).unwrap();
    match handle_parsed_message(received) {
        ServerStep::HandleCall(sc) => {
            assert!(sc.validate_signature().is_ok());
            assert!(!signature_and_timestamp_valid(&sc, now));
            assert!(check_signed_method_call(&sc, now, false).is_err());
            let reply = admission_rejection(sc.call_id);
            match reply {
                ServerToClientMessage::MethodCallReturn(ret) => {
                    assert_eq!(ret.call_id, 7);
                    assert!(matches!(
                        ret.return_data,
                        MethodCallReturnVariants::Error(MethodCallError {
                            error_id: ErrorId::InvalidSignature,
                            message: None,
                        })
                    ));
                }
                _ => panic!("expected a return"),
            }
        }
        _ => panic!("expected a call to handle"),
    }

    // fresh call: admitted and dispatched to the room
    let fresh = subscribe_call(&key, now);
    let wire = render_client_message_text(&fresh.into_message());
    let received = parse_client_message(&wire).unwrap();
    match handle_parsed_message(received) {
        ServerStep::HandleCall(sc) => {
            assert!(check_signed_method_call(&sc, now, false).is_ok());
            assert_eq!(
                room_target(&sc.signed_call.call.variant_arguments).map(|r| r.get_int()),
                Some(0)
            );
            match room_request_for(
                &sc.signed_call.call.variant_arguments,
                &sc.signed_call.call.common_arguments,
            ) {
                Some(ToRoomMessage::Subscribe(sub)) => {
                    assert_eq!(sub.subscriber_id.to_base64(), key.verifying_key().to_base64());
                }
                other => panic!("unexpected request: {other:?}"),
            }
        }
        _ => panic!("expected a call to handle"),
    }
}

#[test]
fn dispatch_decides_per_method() {
    let key = fixed_key();
    let now: u64 = 900_000;
    let fresh = subscribe_call(&key, now);
    match dispatch_signed_call(&fresh, now, false) {
        CallDecision::CallRoom(Some(room), ToRoomMessage::Subscribe(_)) => {
            assert_eq!(room.get_int(), 0);
        }
        other => panic!("unexpected: {other:?}"),
    }
    // a replayed nonce is rejected outright
    assert!(matches!(
        dispatch_signed_call(&fresh, now, true),
        CallDecision::Reject(_)
    ));
    // an unserved method is answered with an internal error, not a crash
    let unserved = MethodCallContent::new(
        key.verifying_key(),
        Nonce { id: 0, timestamp: now },
        MethodCallArgsVariants::UnsubscribeFromRoom(zend::wire::UnsubscribeFromRoomArgs {
            subscription_id: 2,
        }),
    )
    .sign(4, &key);
    match dispatch_signed_call(&unserved, now, false) {
        CallDecision::RespondInternal(ServerToClientMessage::MethodCallReturn(ret)) => {
            assert_eq!(ret.call_id, 4);
            assert!(matches!(
                ret.return_data,
                MethodCallReturnVariants::Error(MethodCallError {
                    error_id: ErrorId::InternalError,
                    ..
                })
            ));
        }
        other => panic!("unexpected: {other:?}"),
    }
    // create_room names no target room: the resolver draws one
    let create = MethodCallContent::new(
        key.verifying_key(),
        Nonce { id: 1, timestamp: now },
        MethodCallArgsVariants::CreateRoom,
    )
    .sign(5, &key);
    assert!(matches!(
        dispatch_signed_call(&create, now, false),
        CallDecision::CallRoom(None, ToRoomMessage::Initialise(_))
    ));
}

#[test]
fn replayed_nonce_is_rejected() {
    let key = fixed_key();
    let now: u64 = 500_000;
    let call = subscribe_call(&key, now);
    assert!(check_signed_method_call(&call, now, false).is_ok());
    assert!(check_signed_method_call(&call, now, true).is_err());
}

#[test]
fn ledger_fault_is_masked_as_internal_error() {
    let key = fixed_key();
    let now: u64 = 600_000;
    let call = subscribe_call(&key, now);
    assert!(matches!(
        admit_with_ledger(&call, now, NonceLedgerAnswer::Unused),
        AdmissionDecision::Admitted
    ));
    match admit_with_ledger(&call, now, NonceLedgerAnswer::Used) {
        AdmissionDecision::RejectSignature(ServerToClientMessage::MethodCallReturn(ret)) => {
            assert!(matches!(
                ret.return_data,
                MethodCallReturnVariants::Error(MethodCallError {
                    error_id: ErrorId::InvalidSignature,
                    message: None,
                })
            ));
        }
        other => panic!("unexpected: {other:?}"),
    }
    match admit_with_ledger(&call, now, NonceLedgerAnswer::Unavailable) {
        AdmissionDecision::RespondInternal(ServerToClientMessage::MethodCallReturn(ret)) => {
            assert_eq!(ret.call_id, 7);
            assert!(matches!(
                ret.return_data,
                MethodCallReturnVariants::Error(MethodCallError {
                    error_id: ErrorId::InternalError,
                    ..
                })
            ));
        }
        other => panic!("unexpected: {other:?}"),
    }
}

#[test]
fn ping_gets_a_pong() {
    match handle_message("{\"message_type\":\"ping\"}") {
        ServerStep::Reply(ServerToClientMessage::Pong) => {}
        other => panic!("unexpected: {other:?}"),
    }
}

#[test]
fn partial_call_gets_a_parse_error_for_its_id() {
    let text = "{\"message_type\":\"signed_method_call\",\"message_content\":{\
                \"call_id\":9,\"signed_call\":\"broken\",\"signature\":\"x\"}}";
    match handle_message(text) {
        ServerStep::Reply(ServerToClientMessage::MethodCallReturn(ret)) => {
            assert_eq!(ret.call_id, 9);
            match ret.return_data {
                MethodCallReturnVariants::Error(e) => {
                    assert_eq!(e.error_id, ErrorId::ParseError);
                    assert_eq!(e.message.as_deref(), Some("The request could not be parsed."));
                }
                _ => panic!("expected error"),
            }
        }
        other => panic!("unexpected: {other:?}"),
    }
}

#[test]
fn unparseable_text_gets_an_info_note() {
    match handle_message("complete garbage") {
        ServerStep::Reply(ServerToClientMessage::Info(t)) => {
            assert_eq!(t, "A message failed to be parsed.");
        }
        other => panic!("unexpected: {other:?}"),
    }
}

#[test]
fn outcomes_map_to_returns_with_transport_faults_masked() {
    let ok = response_for_outcome(
        1,
        HandlerOutcome::Success(MethodCallSuccess::SubscribeToRoom(SubscribeSuccess {
            subscription_id: 3,
        })),
    );
    assert!(matches!(
        ok,
        ServerToClientMessage::MethodCallReturn(ref ret)
            if ret.call_id == 1
                && matches!(ret.return_data, MethodCallReturnVariants::Success(_))
    ));

    let business = response_for_outcome(
        2,
        HandlerOutcome::MethodError(ErrorId::ParseError.with_message("no".to_string())),
    );
    match business {
        ServerToClientMessage::MethodCallReturn(ret) => match ret.return_data {
            MethodCallReturnVariants::Error(e) => assert_eq!(e.message.as_deref(), Some("no")),
            _ => panic!("expected error"),
        },
        _ => panic!("expected return"),
    }

    let masked = response_for_outcome(3, HandlerOutcome::TransportError);
    match masked {
        ServerToClientMessage::MethodCallReturn(ret) => match ret.return_data {
            MethodCallReturnVariants::Error(e) => {
                assert_eq!(e.error_id, ErrorId::InternalError);
                assert_eq!(e.message.as_deref(), Some("An unexpected internal error occured."));
            }
            _ => panic!("expected error"),
        },
        _ => panic!("expected return"),
    }
}

#[test]
fn unserved_methods_have_no_room_request() {
    let key = fixed_key();
    let common = zend::wire::MethodCallCommonArgs {
        caller_id: key.verifying_key(),
        nonce: Nonce::new(1),
    };
    let unsub = MethodCallArgsVariants::UnsubscribeFromRoom(
        zend::wire::UnsubscribeFromRoomArgs { subscription_id: 1 },
    );
    assert!(room_request_for(&unsub, &common).is_none());
}

#[test]
fn subscription_id_header_parses_digits_only() {
    assert_eq!(parse_subscription_id("42"), Some(42));
    assert_eq!(parse_subscription_id("0"), Some(0));
    assert_eq!(parse_subscription_id(""), None);
    assert_eq!(parse_subscription_id("4x"), None);
    assert_eq!(parse_subscription_id("+4"), None);
    assert_eq!(parse_subscription_id("18446744073709551616"), None);
}

#[test]
fn room_pushes_forward_or_close() {
    let key = fixed_key().verifying_key();
    let room = RoomId::from_int(3).unwrap();
    assert!(matches!(
        room_event_action(FromRoomMessage::Close, 1, room),
        RoomStreamAction::CloseConnection
    ));
    assert!(matches!(
        room_event_action(FromRoomMessage::SubscriptionId(1), 1, room),
        RoomStreamAction::Ignore
    ));
    let data = FromRoomMessage::Data(SubscriptionDataMessage {
        sender_id: key,
        nonce: Nonce { id: 1, timestamp: 9 },
        data: JsonText::new("null".to_string()).unwrap(),
    });
    match room_event_action(data, 12, room) {
        RoomStreamAction::Forward(ServerToClientMessage::SubscriptionData(s)) => {
            assert_eq!(s.subscription_id, 12);
            assert_eq!(s.room_id.get_int(), 3);
            assert_eq!(s.nonce, Nonce { id: 1, timestamp: 9 });
            assert_eq!(s.data.as_str(), "null");
        }
        other => panic!("unexpected: {other:?}"),
    }
}
