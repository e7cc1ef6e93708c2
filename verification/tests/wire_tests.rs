use zend::wire::{
    ErrorId, JsonText, MethodCallError, MethodCallReturnVariants, MethodCallSuccess,
    ServerToClientMessage, SubscribeSuccess,
};

#[test]
fn default_messages_are_fixed() {
    let e = ErrorId::InternalError.with_default_message();
    assert_eq!(e.message.as_deref(), Some("An unexpected internal error occured."));
    let e = ErrorId::InvalidSignature.with_default_message();
    assert_eq!(e.message.as_deref(), Some("The request was not signed correctly."));
    let e = ErrorId::ParseError.with_default_message();
    assert_eq!(e.message.as_deref(), Some("The request could not be parsed."));
}

#[test]
fn with_message_keeps_the_text() {
    let e = ErrorId::ParseError.with_message("why".to_string());
    assert_eq!(e.error_id, ErrorId::ParseError);
    assert_eq!(e.message.as_deref(), Some("why"));
}

#[test]
fn internal_is_the_default_internal_error() {
    let e = MethodCallError::internal();
    assert_eq!(e.error_id, ErrorId::InternalError);
    assert_eq!(e.message.as_deref(), Some("An unexpected internal error occured."));
}

#[test]
fn json_text_accepts_only_json() {
    assert!(JsonText::new("{\"a\":[1,2,null]}".to_string()).is_ok());
    assert!(JsonText::new("\"plain string\"".to_string()).is_ok());
    assert!(JsonText::new("17".to_string()).is_ok());
    assert!(JsonText::new("{\"a\":".to_string()).is_err());
    assert!(JsonText::new("not json".to_string()).is_err());
}

#[test]
fn constructors_build_the_expected_shapes() {
    assert!(matches!(ServerToClientMessage::pong(), ServerToClientMessage::Pong));

    let m = ServerToClientMessage::call_error(5, ErrorId::InvalidSignature, None);
    match m {
        ServerToClientMessage::MethodCallReturn(ret) => {
            assert_eq!(ret.call_id, 5);
            match ret.return_data {
                MethodCallReturnVariants::Error(e) => {
                    assert_eq!(e.error_id, ErrorId::InvalidSignature);
                    assert!(e.message.is_none());
                }
                _ => panic!("expected an error return"),
            }
        }
        _ => panic!("expected a method call return"),
    }

    let m = ServerToClientMessage::from_success(
        6,
        MethodCallSuccess::SubscribeToRoom(SubscribeSuccess { subscription_id: 9 }),
    );
    match m {
        ServerToClientMessage::MethodCallReturn(ret) => {
            assert_eq!(ret.call_id, 6);
            assert!(matches!(
                ret.return_data,
                MethodCallReturnVariants::Success(MethodCallSuccess::SubscribeToRoom(
                    SubscribeSuccess { subscription_id: 9 }
                ))
            ));
        }
        _ => panic!("expected a method call return"),
    }

    match ServerToClientMessage::info("note") {
        ServerToClientMessage::Info(t) => assert_eq!(t, "note"),
        _ => panic!("expected info"),
    }
}
