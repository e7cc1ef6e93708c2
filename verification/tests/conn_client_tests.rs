use zend::client::AppClient;
use zend::conn::{
    pinger_step, AwaitStateOutcome, OwnerCount, PingerAction, SocketAction, WebSocketRetry,
    WrappedSocketEvent,
};
use zend::keys::ClientSigningKey;
use zend::resolver::{CreateRoomProgress, CreateRoomResolver, CREATE_ROOM_ATTEMPT_LIMIT};
use zend::room_id::{RoomId, ROOM_ID_SPACE};

fn fixed_key() -> ClientSigningKey {
    let mut bytes = vec![0u8; 32];
    bytes[31] = 11;
    ClientSigningKey::from_bytes(bytes).unwrap()
}

/// Across a drop of a live connection and five consecutive connect
/// failures, the observed backoff delays are 0, 5, 10, 20, 40, 60 —
/// capped at 60 and never more.
#[test]
fn backoff_sequence_is_0_5_10_20_40_60_capped() {
    let mut sock = WebSocketRetry::new();
    // come up once
    let _ = sock.begin_connect();
    assert!(matches!(sock.connect_result(true), WrappedSocketEvent::Connected));
    assert_eq!(sock.retry_after, 0);

    // the live connection drops: observed delay 0
    let ev = sock.connection_lost();
    let mut observed = vec![match ev {
        WrappedSocketEvent::Reconnecting(d) => d,
        _ => panic!("expected reconnecting"),
    }];

    // five consecutive connect failures
    for _ in 0..5 {
        let _delay = sock.begin_connect();
        match sock.connect_result(false) {
            WrappedSocketEvent::Reconnecting(d) => observed.push(d),
            _ => panic!("expected reconnecting"),
        }
    }
    assert_eq!(observed, vec![0, 5, 10, 20, 40, 60]);

    // and it never exceeds 60
    for _ in 0..10 {
        let _ = sock.begin_connect();
        match sock.connect_result(false) {
            WrappedSocketEvent::Reconnecting(d) => assert_eq!(d, 60),
            _ => panic!("expected reconnecting"),
        }
    }
}

#[test]
fn actions_follow_the_state() {
    let mut sock = WebSocketRetry::new();
    assert_eq!(sock.next_action(), SocketAction::SleepThenConnect(0));
    let _ = sock.begin_connect();
    let _ = sock.connect_result(true);
    assert_eq!(sock.next_action(), SocketAction::AwaitFrame);
    sock.end();
    assert_eq!(sock.next_action(), SocketAction::Stop);
}

#[test]
fn successful_connect_resets_backoff() {
    let mut sock = WebSocketRetry::new();
    for _ in 0..4 {
        let _ = sock.begin_connect();
        let _ = sock.connect_result(false);
    }
    assert!(sock.retry_after > 0);
    let _ = sock.begin_connect();
    assert!(matches!(sock.connect_result(true), WrappedSocketEvent::Connected));
    assert_eq!(sock.retry_after, 0);
}

#[test]
fn pinger_stops_only_when_the_connection_ends() {
    assert_eq!(pinger_step(AwaitStateOutcome::Reached), PingerAction::Continue);
    assert_eq!(pinger_step(AwaitStateOutcome::TimedOut), PingerAction::Continue);
    assert_eq!(pinger_step(AwaitStateOutcome::Ended), PingerAction::Stop);
}

#[test]
fn last_owner_release_signals_shutdown() {
    let mut owners = OwnerCount::new();
    assert_eq!(owners.owners, 1);
    owners.add_owner();
    owners.add_owner();
    assert!(!owners.release_owner(), "two owners remain");
    assert!(!owners.release_owner(), "one owner remains");
    assert!(owners.release_owner(), "the last release triggers shutdown");
    assert_eq!(owners.owners, 0);
}

#[test]
fn client_clock_never_goes_backwards() {
    let mut client = AppClient::with_key(fixed_key(), 100);
    assert_eq!(client.get_time(150), 150);
    assert_eq!(client.get_time(120), 150, "a lagging system clock is ignored");
    assert_eq!(client.last_time, 150);
}

#[test]
fn issued_nonces_strictly_increase() {
    let mut client = AppClient::with_key(fixed_key(), 100);
    let a = client.next_nonce(100);
    let b = client.next_nonce(100);
    // issuing hands out the stored nonce and then advances it, so the
    // first nonce issued after the clock moves still bears the old time
    let c = client.next_nonce(200);
    let d = client.next_nonce(200);
    assert_eq!(a, zend::nonce::Nonce { id: 0, timestamp: 100 });
    assert_eq!(b, zend::nonce::Nonce { id: 1, timestamp: 100 });
    assert_eq!(c, zend::nonce::Nonce { id: 2, timestamp: 100 });
    assert_eq!(d, zend::nonce::Nonce { id: 0, timestamp: 200 });
    assert!(a < b && b < c && c < d);
}

#[test]
fn made_calls_validate_and_advance_the_call_id() {
    let mut client = AppClient::with_key(fixed_key(), 100);
    let first = client.make_server_method_call(
        zend::wire::MethodCallArgsVariants::CreateRoom,
        100,
    );
    assert_eq!(client.next_call_id, 1);
    match first {
        zend::envelope::ClientToServerMessage::SignedMethodCall(
            zend::envelope::SignedMethodCallOrPartial::Full(sc),
        ) => {
            assert_eq!(sc.call_id, 0);
            assert!(sc.validate_signature().is_ok());
        }
        other => panic!("unexpected: {other:?}"),
    }
    let _second = client.make_server_method_call(
        zend::wire::MethodCallArgsVariants::CreateRoom,
        100,
    );
    assert_eq!(client.next_call_id, 2);
}

#[test]
fn resolver_accepts_a_free_candidate() {
    let mut resolver = CreateRoomResolver::new();
    let candidate = RoomId::from_int(5).unwrap();
    assert_eq!(
        resolver.note_result(candidate, true),
        CreateRoomProgress::Accepted(candidate)
    );
    assert_eq!(resolver.attempts, 0);
}

#[test]
fn resolver_retries_then_gives_up_at_the_limit() {
    let mut resolver = CreateRoomResolver::new();
    let candidate = RoomId::from_int(5).unwrap();
    for i in 1..CREATE_ROOM_ATTEMPT_LIMIT {
        assert_eq!(resolver.note_result(candidate, false), CreateRoomProgress::Retry, "attempt {i}");
    }
    assert_eq!(resolver.note_result(candidate, false), CreateRoomProgress::GiveUp);
    assert_eq!(resolver.attempts, CREATE_ROOM_ATTEMPT_LIMIT);
}

#[test]
fn drawn_candidates_are_in_range() {
    let resolver = CreateRoomResolver::new();
    for _ in 0..8 {
        let id = resolver.draw_candidate().unwrap();
        assert!(id.get_int() < ROOM_ID_SPACE);
    }
}
