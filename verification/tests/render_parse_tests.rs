use zend::decode::{parse_client_message, parse_from_room_message, parse_server_message};
use zend::envelope::{ClientToServerMessage, SignedMethodCallOrPartial};
use zend::keys::ClientSigningKey;
use zend::nonce::Nonce;
use zend::render::render_server_message_text;
use zend::room_id::RoomId;
use zend::server::FromRoomMessage;
use zend::wire::{
    ErrorId, JsonText, MethodCallError, MethodCallReturn, MethodCallReturnVariants,
    MethodCallSuccess, ServerToClientMessage, SubscriptionData,
};

fn fixed_key() -> ClientSigningKey {
    let mut bytes = vec![0u8; 32];
    bytes[31] = 9;
    ClientSigningKey::from_bytes(bytes).unwrap()
}

#[test]
fn pong_round_trips() {
    let text = render_server_message_text(&ServerToClientMessage::Pong);
    assert_eq!(text, "{\"message_type\":\"pong\"}");
    assert!(matches!(parse_server_message(&text), Ok(ServerToClientMessage::Pong)));
}

#[test]
fn info_round_trips_with_escapes() {
    let tricky = "a \"quoted\" \\ backslash \n newline \t tab \u{1}";
    let text = render_server_message_text(&ServerToClientMessage::Info(tricky.to_string()));
    assert!(serde_json::from_str::<serde_json::Value>(&text).is_ok());
    match parse_server_message(&text) {
        Ok(ServerToClientMessage::Info(t)) => assert_eq!(t, tricky),
        other => panic!("unexpected: {other:?}"),
    }
}

#[test]
fn error_return_round_trips() {
    let msg = ServerToClientMessage::MethodCallReturn(MethodCallReturn {
        call_id: 11,
        return_data: MethodCallReturnVariants::Error(MethodCallError {
            error_id: ErrorId::ParseError,
            message: Some("The request could not be parsed.".to_string()),
        }),
    });
    let text = render_server_message_text(&msg);
    assert_eq!(
        text,
        "{\"message_type\":\"method_call_return\",\"message_content\":{\"call_id\":11,\
         \"return_type\":\"error\",\"return_data\":{\"error_id\":\"parse_error\",\
         \"message\":\"The request could not be parsed.\"}}}"
    );
    match parse_server_message(&text) {
        Ok(ServerToClientMessage::MethodCallReturn(ret)) => {
            assert_eq!(ret.call_id, 11);
            match ret.return_data {
                MethodCallReturnVariants::Error(e) => {
                    assert_eq!(e.error_id, ErrorId::ParseError);
                    assert_eq!(e.message.as_deref(), Some("The request could not be parsed."));
                }
                _ => panic!("expected error"),
            }
        }
        other => panic!("unexpected: {other:?}"),
    }
}

#[test]
fn error_return_with_null_message_round_trips() {
    let msg = ServerToClientMessage::call_error(3, ErrorId::InvalidSignature, None);
    let text = render_server_message_text(&msg);
    assert!(text.contains("\"message\":null"));
    match parse_server_message(&text) {
        Ok(ServerToClientMessage::MethodCallReturn(ret)) => match ret.return_data {
            MethodCallReturnVariants::Error(e) => {
                assert_eq!(e.error_id, ErrorId::InvalidSignature);
                assert!(e.message.is_none());
            }
            _ => panic!("expected error"),
        },
        other => panic!("unexpected: {other:?}"),
    }
}

#[test]
fn success_return_payload_travels_verbatim() {
    let payload = JsonText::new("{\"room_id\":\"ROOMAB\"}".to_string()).unwrap();
    let msg = ServerToClientMessage::from_success(8, MethodCallSuccess::Value(payload));
    let text = render_server_message_text(&msg);
    assert_eq!(
        text,
        "{\"message_type\":\"method_call_return\",\"message_content\":{\"call_id\":8,\
         \"return_type\":\"success\",\"return_data\":{\"room_id\":\"ROOMAB\"}}}"
    );
    match parse_server_message(&text) {
        Ok(ServerToClientMessage::MethodCallReturn(ret)) => match ret.return_data {
            MethodCallReturnVariants::Success(MethodCallSuccess::Value(blob)) => {
                assert_eq!(blob.as_str(), "{\"room_id\":\"ROOMAB\"}");
            }
            _ => panic!("expected an uninterpreted success payload"),
        },
        other => panic!("unexpected: {other:?}"),
    }
}

#[test]
fn subscription_data_round_trips() {
    let key = fixed_key().verifying_key();
    let msg = SubscriptionData {
        subscription_id: 4,
        room_id: RoomId::from_int(17).unwrap(),
        sender_id: key.clone(),
        nonce: Nonce { id: 2, timestamp: 99 },
        data: JsonText::new("[1,2,{\"x\":null}]".to_string()).unwrap(),
    }
    .into_message();
    let text = render_server_message_text(&msg);
    assert!(serde_json::from_str::<serde_json::Value>(&text).is_ok());
    match parse_server_message(&text) {
        Ok(ServerToClientMessage::SubscriptionData(d)) => {
            assert_eq!(d.subscription_id, 4);
            assert_eq!(d.room_id.get_int(), 17);
            assert_eq!(d.sender_id.to_base64(), key.to_base64());
            assert_eq!(d.nonce, Nonce { id: 2, timestamp: 99 });
            assert_eq!(d.data.as_str(), "[1,2,{\"x\":null}]");
        }
        other => panic!("unexpected: {other:?}"),
    }
}

#[test]
fn client_ping_parses_with_whitespace_and_extra_members() {
    let text = " { \"ignored\" : [1, -2.5e3, []] , \"message_type\" : \"ping\" } ";
    assert!(matches!(parse_client_message(text), Ok(ClientToServerMessage::Ping)));
}

#[test]
fn unparseable_text_is_an_error() {
    assert!(parse_client_message("garbage").is_err());
    assert!(parse_client_message("{\"message_type\":\"unknown\"}").is_err());
    assert!(parse_server_message("{\"message_type\":17}").is_err());
}

#[test]
fn broken_signed_call_with_call_id_degrades_to_partial() {
    let text = "{\"message_type\":\"signed_method_call\",\"message_content\":{\
                \"call_id\":7,\"signed_call\":\"not json\",\"signature\":\"@@@\"}}";
    match parse_client_message(text) {
        Ok(ClientToServerMessage::SignedMethodCall(SignedMethodCallOrPartial::Partial(id))) => {
            assert_eq!(id, 7);
        }
        other => panic!("unexpected: {other:?}"),
    }
}

#[test]
fn signed_call_without_call_id_is_a_plain_parse_error() {
    let text = "{\"message_type\":\"signed_method_call\",\"message_content\":{\
                \"signed_call\":\"x\"}}";
    assert!(parse_client_message(text).is_err());
}

#[test]
fn hostile_nesting_is_rejected_not_fatal() {
    let mut deep = String::new();
    for _ in 0..4000 {
        deep.push('[');
    }
    for _ in 0..4000 {
        deep.push(']');
    }
    let wrapped = format!(
        "{{\"message_type\":\"ping\",\"extra\":{deep}}}"
    );
    assert!(parse_client_message(&wrapped).is_err());
    // moderate nesting is fine
    let shallow = "{\"message_type\":\"ping\",\"extra\":[[[[[1]]]]]}";
    assert!(matches!(parse_client_message(shallow), Ok(ClientToServerMessage::Ping)));
}

#[test]
fn canonical_create_room_content_round_trips() {
    let key = fixed_key();
    let content = zend::wire::MethodCallContent::new(
        key.verifying_key(),
        Nonce { id: 3, timestamp: 44 },
        zend::wire::MethodCallArgsVariants::CreateRoom,
    );
    let text = zend::render::render_content_text(&content);
    let chars: Vec<char> = text.chars().collect();
    let parsed = zend::decode::parse_method_call_content(&chars).unwrap();
    assert_eq!(
        parsed.common_arguments.caller_id.to_base64(),
        key.verifying_key().to_base64()
    );
    assert_eq!(parsed.common_arguments.nonce, Nonce { id: 3, timestamp: 44 });
    assert!(matches!(
        parsed.variant_arguments,
        zend::wire::MethodCallArgsVariants::CreateRoom
    ));
}

#[test]
fn room_actor_messages_parse() {
    assert!(matches!(
        parse_from_room_message("{\"message_type\":\"close\"}"),
        Ok(FromRoomMessage::Close)
    ));
    let key = fixed_key().verifying_key();
    let text = format!(
        "{{\"message_type\":\"data\",\"message_content\":{{\"sender_id\":\"{}\",\
         \"nonce\":\"1_2\",\"data\":{{\"k\":true}}}}}}",
        key.to_base64()
    );
    match parse_from_room_message(&text) {
        Ok(FromRoomMessage::Data(d)) => {
            assert_eq!(d.nonce, Nonce { id: 1, timestamp: 2 });
            assert_eq!(d.data.as_str(), "{\"k\":true}");
        }
        other => panic!("unexpected: {other:?}"),
    }
}
