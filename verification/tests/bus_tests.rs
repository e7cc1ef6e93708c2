use zend::bus::{
    event_is_matched_by_any_filter, ApiClientEvent, EventBus, EventSubscriptionType,
    SubscriptionEventFilter, SubscriptionEventFilterItem,
};
use zend::conn::{WebSocketState, WrappedSocketEvent};
use zend::wire::{MethodCallReturn, MethodCallReturnVariants, MethodCallSuccess, ServerToClientMessage};

fn pong_event() -> ApiClientEvent {
    ApiClientEvent::ApiMessage(ServerToClientMessage::Pong)
}

fn return_event(call_id: u64) -> ApiClientEvent {
    ApiClientEvent::ApiMessage(ServerToClientMessage::MethodCallReturn(MethodCallReturn {
        call_id,
        return_data: MethodCallReturnVariants::Success(MethodCallSuccess::Ack),
    }))
}

#[test]
fn filters_match_their_events() {
    let pong = pong_event();
    assert!(event_is_matched_by_any_filter(
        &pong,
        &vec![SubscriptionEventFilterItem::Any]
    ));
    assert!(event_is_matched_by_any_filter(
        &pong,
        &vec![SubscriptionEventFilterItem::ApiPong]
    ));
    assert!(!event_is_matched_by_any_filter(
        &pong,
        &vec![SubscriptionEventFilterItem::ApiInfo, SubscriptionEventFilterItem::Ended]
    ));
    assert!(!event_is_matched_by_any_filter(&pong, &vec![]));

    let ret = return_event(7);
    assert!(event_is_matched_by_any_filter(
        &ret,
        &vec![SubscriptionEventFilterItem::ApiMethodCallReturn(None)]
    ));
    assert!(event_is_matched_by_any_filter(
        &ret,
        &vec![SubscriptionEventFilterItem::ApiMethodCallReturn(Some(7))]
    ));
    assert!(!event_is_matched_by_any_filter(
        &ret,
        &vec![SubscriptionEventFilterItem::ApiMethodCallReturn(Some(8))]
    ));
    assert!(event_is_matched_by_any_filter(
        &ApiClientEvent::Reconnecting(5),
        &vec![SubscriptionEventFilterItem::Reconnecting]
    ));
}

#[test]
fn filter_builder_deduplicates_and_any_collapses() {
    let f = SubscriptionEventFilter::new().pong().pong().connected();
    assert_eq!(f.inner.len(), 2);
    let f = f.any();
    assert_eq!(f.inner.len(), 1);
    assert!(matches!(f.inner[0], SubscriptionEventFilterItem::Any));
    // Any makes further additions redundant
    let f = f.pong().call_return_for_id(3).ended();
    assert_eq!(f.inner.len(), 1);
}

/// Two persistent subscribers, one filtered to pongs and one to
/// everything, each receive exactly one copy of a single pong event,
/// with neither observing the other's delivery.
#[test]
fn fan_out_delivers_one_copy_to_each_matching_subscriber() {
    let mut bus = EventBus::new();
    let mut pong_sub = bus.receive_events(SubscriptionEventFilter::new().pong());
    let mut any_sub = bus.receive_events(SubscriptionEventFilter::new().any());

    bus.dispatch_event(&pong_event());

    let got = pong_sub.receiver.try_next().unwrap().unwrap();
    assert!(matches!(got, ApiClientEvent::ApiMessage(ServerToClientMessage::Pong)));
    assert!(pong_sub.receiver.try_next().is_err(), "no second event for the pong subscriber");

    let got = any_sub.receiver.try_next().unwrap().unwrap();
    assert!(matches!(got, ApiClientEvent::ApiMessage(ServerToClientMessage::Pong)));
    assert!(any_sub.receiver.try_next().is_err(), "no second event for the any subscriber");

    assert_eq!(bus.subscriptions.len(), 2, "persistent subscribers stay registered");
}

#[test]
fn one_shot_subscriber_fires_once_and_leaves() {
    let mut bus = EventBus::new();
    let mut once = bus.get_event_handle(SubscriptionEventFilter::new().pong());
    assert_eq!(bus.subscriptions.len(), 1);

    bus.dispatch_event(&pong_event());
    assert_eq!(bus.subscriptions.len(), 0, "one-shot removed after its match");

    let got = once.receiver.try_next().unwrap().unwrap();
    assert!(matches!(got, ApiClientEvent::ApiMessage(ServerToClientMessage::Pong)));

    bus.dispatch_event(&pong_event());
    assert!(
        once.receiver.try_next().unwrap().is_none(),
        "channel is closed after the one-shot fired"
    );
}

#[test]
fn one_shot_ignores_non_matching_events() {
    let mut bus = EventBus::new();
    let _once = bus.get_event_handle(SubscriptionEventFilter::new().pong());
    bus.dispatch_event(&ApiClientEvent::Connected);
    assert_eq!(bus.subscriptions.len(), 1, "unmatched one-shot stays");
}

#[test]
fn disconnected_subscriber_is_dropped_during_the_pass() {
    let mut bus = EventBus::new();
    let gone = bus.receive_events(SubscriptionEventFilter::new().any());
    let kept = bus.receive_events(SubscriptionEventFilter::new().any());
    drop(gone.receiver);
    bus.dispatch_event(&pong_event());
    assert_eq!(bus.subscriptions.len(), 1, "only the live subscriber remains");
    assert_eq!(bus.subscriptions[0].id, kept.id);
}

#[test]
fn swapped_in_subscriber_is_not_skipped() {
    let mut bus = EventBus::new();
    // first subscriber is one-shot: its removal swaps the last into slot 0
    let mut first = bus.get_event_handle(SubscriptionEventFilter::new().pong());
    let mut second = bus.receive_events(SubscriptionEventFilter::new().pong());
    let mut third = bus.receive_events(SubscriptionEventFilter::new().pong());

    bus.dispatch_event(&pong_event());

    assert!(first.receiver.try_next().unwrap().is_some());
    assert!(second.receiver.try_next().unwrap().is_some(), "swap target still delivered");
    assert!(third.receiver.try_next().unwrap().is_some(), "moved subscriber not skipped");
    assert_eq!(bus.subscriptions.len(), 2);
}

#[test]
fn unregister_twice_is_a_no_op() {
    let mut bus = EventBus::new();
    let a = bus.receive_events(SubscriptionEventFilter::new().any());
    let _b = bus.receive_events(SubscriptionEventFilter::new().any());
    let id = a.id;
    bus.unregister_event_subscription(id);
    assert_eq!(bus.subscriptions.len(), 1);
    bus.unregister_event_subscription(id);
    assert_eq!(bus.subscriptions.len(), 1);
}

#[test]
fn socket_events_update_state_and_classify() {
    let mut bus = EventBus::new();
    assert_eq!(bus.ws_state, WebSocketState::Reconnecting);
    let mut sub = bus.receive_events(SubscriptionEventFilter::new().any());

    bus.handle_socket_event(WrappedSocketEvent::Connected);
    assert_eq!(bus.ws_state, WebSocketState::Connected);
    assert!(matches!(
        sub.receiver.try_next().unwrap().unwrap(),
        ApiClientEvent::Connected
    ));

    bus.handle_socket_event(WrappedSocketEvent::TextMessage(
        "{\"message_type\":\"pong\"}".to_string(),
    ));
    assert!(matches!(
        sub.receiver.try_next().unwrap().unwrap(),
        ApiClientEvent::ApiMessage(ServerToClientMessage::Pong)
    ));

    // a frame that is no known message is dropped silently
    bus.handle_socket_event(WrappedSocketEvent::TextMessage("junk".to_string()));
    assert!(sub.receiver.try_next().is_err());

    // binary frames are dropped silently
    bus.handle_socket_event(WrappedSocketEvent::BinaryMessage(vec![1, 2]));
    assert!(sub.receiver.try_next().is_err());

    bus.handle_socket_event(WrappedSocketEvent::Ended("done".to_string()));
    assert_eq!(bus.ws_state, WebSocketState::Ended);
    assert!(matches!(sub.receiver.try_next().unwrap().unwrap(), ApiClientEvent::Ended));
}

#[test]
fn await_state_common_answers_now_or_gives_filters() {
    let mut bus = EventBus::new();
    bus.ws_state = WebSocketState::Connected;
    assert!(bus.await_state_common(&vec![WebSocketState::Connected]).is_none());
    let filters = bus
        .await_state_common(&vec![WebSocketState::Reconnecting, WebSocketState::Ended])
        .unwrap();
    assert_eq!(filters.len(), 2);
    assert!(matches!(filters[0], SubscriptionEventFilterItem::Reconnecting));
    assert!(matches!(filters[1], SubscriptionEventFilterItem::Ended));
}

#[test]
fn register_hands_out_distinct_ids() {
    let mut bus = EventBus::new();
    let (id0, _r0) = bus.register_event_subscription(
        EventSubscriptionType::Persistent,
        vec![SubscriptionEventFilterItem::Any],
    );
    let (id1, _r1) = bus.register_event_subscription(
        EventSubscriptionType::Once,
        vec![SubscriptionEventFilterItem::ApiPong],
    );
    assert_eq!(id0, 0);
    assert_eq!(id1, 1);
    assert_eq!(bus.next_subscription_id, 2);
}
