use zend::envelope::{
    render_client_message_text, ClientToServerMessage, MethodCall, SignedMethodCall,
    SignedMethodCallOrPartial,
};
use zend::keys::ClientSigningKey;
use zend::nonce::Nonce;
use zend::render::render_content_text;
use zend::room_id::RoomId;
use zend::wire::{MethodCallArgsVariants, MethodCallContent, SubscribeToRoomArgs};

fn fixed_key() -> ClientSigningKey {
    let mut bytes = vec![0u8; 32];
    bytes[31] = 7;
    ClientSigningKey::from_bytes(bytes).unwrap()
}

fn sample_content(key: &ClientSigningKey) -> MethodCallContent {
    MethodCallContent::new(
        key.verifying_key(),
        Nonce { id: 3, timestamp: 1000 },
        MethodCallArgsVariants::SubscribeToRoom(SubscribeToRoomArgs {
            room_id: RoomId::from_int(0).unwrap(),
        }),
    )
}

#[test]
fn canonical_content_text_is_exact() {
    let key = fixed_key();
    let content = sample_content(&key);
    let expected = format!(
        "{{\"caller_id\":\"{}\",\"nonce\":\"3_1000\",\"method_name\":\"subscribe_to_room\",\
         \"method_arguments\":{{\"room_id\":\"AAAAAA\"}}}}",
        key.verifying_key().to_base64()
    );
    assert_eq!(render_content_text(&content), expected);
}

#[test]
fn sign_then_validate_succeeds() {
    let key = fixed_key();
    let signed = sample_content(&key).sign(7, &key);
    assert_eq!(signed.call_id, 7);
    assert!(signed.validate_signature().is_ok());
}

#[test]
fn validation_fails_after_any_byte_of_the_text_changes() {
    let key = fixed_key();
    let signed = sample_content(&key).sign(7, &key);
    let mut tampered_json = signed.signed_call.json.clone();
    // flip one byte of the stored text: replace the nonce id 3 with 4
    tampered_json = tampered_json.replacen("3_1000", "4_1000", 1);
    assert_ne!(tampered_json, signed.signed_call.json);
    let tampered = SignedMethodCall::new(
        signed.call_id,
        MethodCall::from_parts(tampered_json, signed.signed_call.call.clone()),
        signed.signature().clone(),
    );
    assert!(tampered.validate_signature().is_err());
}

#[test]
fn validation_fails_under_a_different_caller_key() {
    let key = fixed_key();
    let other = ClientSigningKey::generate();
    // content names the OTHER identity as caller, but is signed with `key`
    let content = MethodCallContent::new(
        other.verifying_key(),
        Nonce { id: 0, timestamp: 5 },
        MethodCallArgsVariants::CreateRoom,
    );
    let signed = content.sign(1, &key);
    assert!(signed.validate_signature().is_err());
}

#[test]
fn timestamp_window_bounds_are_exclusive() {
    let key = fixed_key();
    let now: u64 = 10_000;
    for (ts, ok) in [
        (now - 299, true),
        (now - 300, false),
        (now + 9, true),
        (now + 10, false),
        (now, true),
    ] {
        let content = MethodCallContent::new(
            key.verifying_key(),
            Nonce { id: 0, timestamp: ts },
            MethodCallArgsVariants::CreateRoom,
        );
        let signed = content.sign(1, &key);
        assert_eq!(signed.validate_timestamp(now), ok, "timestamp {ts}");
    }
}

#[test]
fn ping_renders_exactly() {
    assert_eq!(
        render_client_message_text(&ClientToServerMessage::Ping),
        "{\"message_type\":\"ping\"}"
    );
}

#[test]
fn signed_call_message_renders_with_escaped_inner_text() {
    let key = fixed_key();
    let signed = sample_content(&key).sign(7, &key);
    let inner = signed.signed_call.json.clone();
    let sig = signed.signature().to_base64();
    let rendered =
        render_client_message_text(&ClientToServerMessage::SignedMethodCall(
            SignedMethodCallOrPartial::Full(signed),
        ));
    let expected = format!(
        "{{\"message_type\":\"signed_method_call\",\"message_content\":{{\"call_id\":7,\
         \"signed_call\":\"{}\",\"signature\":\"{}\"}}}}",
        inner.replace('\\', "\\\\").replace('"', "\\\""),
        sig
    );
    assert_eq!(rendered, expected);
    // the whole thing is valid JSON
    assert!(serde_json::from_str::<serde_json::Value>(&rendered).is_ok());
}

#[test]
fn partial_renders_as_bare_number() {
    let rendered = render_client_message_text(&ClientToServerMessage::SignedMethodCall(
        SignedMethodCallOrPartial::Partial(42),
    ));
    assert_eq!(
        rendered,
        "{\"message_type\":\"signed_method_call\",\"message_content\":42}"
    );
}
