//! The subscription registry and event fan-out.
//!
//! Consumers register a set of event filters and get a channel; every
//! classified connection event is delivered once to each subscriber
//! with a matching filter. A one-shot subscriber leaves the registry
//! after its first match; a subscriber whose channel is gone is dropped
//! during the same pass. Removal compacts the list by swapping the last
//! element in, and the pass is proved not to skip the element moved
//! into the vacated slot.

use crate::conn::WebSocketState;
use crate::wire::ServerToClientMessage;
use vstd::prelude::*;

verus! {

/// One event of the logical connection, as subscribers receive it.
#[derive(Debug, Clone)]
pub enum ApiClientEvent {
    /// The connection came up.
    Connected,
    /// The connection is down; next attempt after this many seconds.
    Reconnecting(u64),
    /// A parsed message from the server.
    ApiMessage(ServerToClientMessage),
    /// The connection is over for good.
    Ended,
}

/// One filter a subscriber can hold. A subscriber's filters are OR-ed:
/// any match delivers the event.
#[derive(Debug, Clone, Copy)]
pub enum SubscriptionEventFilterItem {
    /// Matches every event.
    Any,
    Connected,
    Reconnecting,
    /// A method call return; optionally only for one call id.
    ApiMethodCallReturn(Option<u64>),
    /// A subscription push; optionally only for one subscription id.
    ApiSubscriptionData(Option<u64>),
    ApiPong,
    ApiInfo,
    Ended,
}

/// Whether one filter item accepts an event.
pub open spec fn event_matches_item(event: ApiClientEvent, item: SubscriptionEventFilterItem) -> bool {
    match item {
        SubscriptionEventFilterItem::Any => true,
        SubscriptionEventFilterItem::Connected => event is Connected,
        SubscriptionEventFilterItem::Reconnecting => event is Reconnecting,
        SubscriptionEventFilterItem::ApiMethodCallReturn(filter_id) => match event {
            ApiClientEvent::ApiMessage(ServerToClientMessage::MethodCallReturn(ret)) => match filter_id {
                Some(id) => ret.call_id == id,
                None => true,
            },
            _ => false,
        },
        SubscriptionEventFilterItem::ApiSubscriptionData(filter_id) => match event {
            ApiClientEvent::ApiMessage(ServerToClientMessage::SubscriptionData(d)) => match filter_id {
                Some(id) => d.subscription_id == id,
                None => true,
            },
            _ => false,
        },
        SubscriptionEventFilterItem::ApiPong => match event {
            ApiClientEvent::ApiMessage(m) => m is Pong,
            _ => false,
        },
        SubscriptionEventFilterItem::ApiInfo => match event {
            ApiClientEvent::ApiMessage(m) => m is Info,
            _ => false,
        },
        SubscriptionEventFilterItem::Ended => event is Ended,
    }
}

/// Whether any filter of the list accepts the event.
pub open spec fn event_matches_any(event: ApiClientEvent, filters: Seq<
    SubscriptionEventFilterItem,
>) -> bool {
    exists|k: int| 0 <= k < filters.len() && event_matches_item(event, #[trigger] filters[k])
}

/// Whether one filter item accepts an event (executable form).
fn check_event_matches_item(event: &ApiClientEvent, item: &SubscriptionEventFilterItem) -> (r:
    bool)
    ensures
        r == event_matches_item(*event, *item),
{
    match item {
        SubscriptionEventFilterItem::Any => true,
        SubscriptionEventFilterItem::Connected => matches!(event, ApiClientEvent::Connected),
        SubscriptionEventFilterItem::Reconnecting => matches!(
            event,
            ApiClientEvent::Reconnecting(_)
        ),
        SubscriptionEventFilterItem::ApiMethodCallReturn(filter_id) => match event {
            ApiClientEvent::ApiMessage(ServerToClientMessage::MethodCallReturn(ret)) => match filter_id {
                Some(id) => ret.call_id == *id,
                None => true,
            },
            _ => false,
        },
        SubscriptionEventFilterItem::ApiSubscriptionData(filter_id) => match event {
            ApiClientEvent::ApiMessage(ServerToClientMessage::SubscriptionData(d)) => match filter_id {
                Some(id) => d.subscription_id == *id,
                None => true,
            },
            _ => false,
        },
        SubscriptionEventFilterItem::ApiPong => matches!(
            event,
            ApiClientEvent::ApiMessage(ServerToClientMessage::Pong)
        ),
        SubscriptionEventFilterItem::ApiInfo => matches!(
            event,
            ApiClientEvent::ApiMessage(ServerToClientMessage::Info(_))
        ),
        SubscriptionEventFilterItem::Ended => matches!(event, ApiClientEvent::Ended),
    }
}

/// Whether any filter of the list accepts the event: the OR over a
/// subscriber's filter set.
pub fn event_is_matched_by_any_filter(
    event: &ApiClientEvent,
    filters: &Vec<SubscriptionEventFilterItem>,
) -> (r: bool)
    ensures
        r == event_matches_any(*event, filters@),
{
    let mut k: usize = 0;
    while k < filters.len()
        invariant
            k <= filters.len(),
            forall|j: int| 0 <= j < k ==> !event_matches_item(*event, #[trigger] filters@[j]),
        decreases filters.len() - k,
    {
        if check_event_matches_item(event, &filters[k]) {
            return true;
        }
        k = k + 1;
    }
    false
}

/// What [`SubscriptionEventFilter::add_filter_item`] leaves behind: the
/// item is appended unless it is already present or an `Any` filter
/// makes it redundant.
pub open spec fn has_item_or_any(
    inner: Seq<SubscriptionEventFilterItem>,
    item: SubscriptionEventFilterItem,
) -> bool {
    exists|j: int|
        0 <= j < inner.len() && ((#[trigger] inner[j]) == item || inner[j]
            == SubscriptionEventFilterItem::Any)
}

pub open spec fn add_item_spec(
    inner: Seq<SubscriptionEventFilterItem>,
    item: SubscriptionEventFilterItem,
) -> Seq<SubscriptionEventFilterItem> {
    if has_item_or_any(inner, item) {
        inner
    } else {
        inner.push(item)
    }
}

/// A subscriber's filter set, assembled with the builder methods below.
#[derive(Debug, Clone)]
pub struct SubscriptionEventFilter {
    pub inner: Vec<SubscriptionEventFilterItem>,
}

/// Whether two filter items are the same filter.
fn filter_item_eq(a: &SubscriptionEventFilterItem, b: &SubscriptionEventFilterItem) -> (r: bool)
    ensures
        r == (*a == *b),
{
    match (a, b) {
        (SubscriptionEventFilterItem::Any, SubscriptionEventFilterItem::Any) => true,
        (SubscriptionEventFilterItem::Connected, SubscriptionEventFilterItem::Connected) => true,
        (SubscriptionEventFilterItem::Reconnecting, SubscriptionEventFilterItem::Reconnecting) => true,
        (
            SubscriptionEventFilterItem::ApiMethodCallReturn(x),
            SubscriptionEventFilterItem::ApiMethodCallReturn(y),
        ) => match (x, y) {
            (None, None) => true,
            (Some(u), Some(v)) => u == v,
            _ => false,
        },
        (
            SubscriptionEventFilterItem::ApiSubscriptionData(x),
            SubscriptionEventFilterItem::ApiSubscriptionData(y),
        ) => match (x, y) {
            (None, None) => true,
            (Some(u), Some(v)) => u == v,
            _ => false,
        },
        (SubscriptionEventFilterItem::ApiPong, SubscriptionEventFilterItem::ApiPong) => true,
        (SubscriptionEventFilterItem::ApiInfo, SubscriptionEventFilterItem::ApiInfo) => true,
        (SubscriptionEventFilterItem::Ended, SubscriptionEventFilterItem::Ended) => true,
        _ => false,
    }
}

impl SubscriptionEventFilter {
    /// An empty filter set, matching nothing.
    pub fn new() -> (r: Self)
        ensures
            r.inner@ == Seq::<SubscriptionEventFilterItem>::empty(),
    {
        Self { inner: Vec::new() }
    }

    /// Match everything: collapses the set to the single `Any` filter.
    pub fn any(self) -> (r: Self)
        ensures
            r.inner@ == seq![SubscriptionEventFilterItem::Any],
    {
        let mut this = self;
        this.inner.clear();
        this.inner.push(SubscriptionEventFilterItem::Any);
        proof {
            assert(this.inner@ =~= seq![SubscriptionEventFilterItem::Any]);
        }
        this
    }

    /// Add one filter item, unless it is already present or redundant
    /// under an `Any` filter.
    pub fn add_filter_item(self, item: SubscriptionEventFilterItem) -> (r: Self)
        ensures
            r.inner@ == add_item_spec(self.inner@, item),
    {
        let mut this = self;
        let mut j: usize = 0;
        while j < this.inner.len()
            invariant
                this == self,
                j <= this.inner@.len(),
                forall|k: int|
                    0 <= k < j ==> (#[trigger] this.inner@[k]) != item && this.inner@[k]
                        != SubscriptionEventFilterItem::Any,
            decreases this.inner@.len() - j,
        {
            let is_same = filter_item_eq(&this.inner[j], &item);
            let is_any = matches!(this.inner[j], SubscriptionEventFilterItem::Any);
            if is_same || is_any {
                proof {
                    assert(has_item_or_any(this.inner@, item)) by {
                        assert((this.inner@[j as int]) == item || this.inner@[j as int]
                            == SubscriptionEventFilterItem::Any);
                    }
                }
                return this;
            }
            j = j + 1;
        }
        proof {
            assert(!has_item_or_any(this.inner@, item));
        }
        this.inner.push(item);
        this
    }

    /// Match the return of one specific call.
    pub fn call_return_for_id(self, id: u64) -> (r: Self)
        ensures
            r.inner@ == add_item_spec(
                self.inner@,
                SubscriptionEventFilterItem::ApiMethodCallReturn(Some(id)),
            ),
    {
        self.add_filter_item(SubscriptionEventFilterItem::ApiMethodCallReturn(Some(id)))
    }

    /// Match pushes for one specific subscription.
    pub fn sub_data_for_id(self, id: u64) -> (r: Self)
        ensures
            r.inner@ == add_item_spec(
                self.inner@,
                SubscriptionEventFilterItem::ApiSubscriptionData(Some(id)),
            ),
    {
        self.add_filter_item(SubscriptionEventFilterItem::ApiSubscriptionData(Some(id)))
    }

    /// Match the connection coming up.
    pub fn connected(self) -> (r: Self)
        ensures
            r.inner@ == add_item_spec(self.inner@, SubscriptionEventFilterItem::Connected),
    {
        self.add_filter_item(SubscriptionEventFilterItem::Connected)
    }

    /// Match the connection going down.
    pub fn reconnecting(self) -> (r: Self)
        ensures
            r.inner@ == add_item_spec(self.inner@, SubscriptionEventFilterItem::Reconnecting),
    {
        self.add_filter_item(SubscriptionEventFilterItem::Reconnecting)
    }

    /// Match every method call return.
    pub fn call_return(self) -> (r: Self)
        ensures
            r.inner@ == add_item_spec(
                self.inner@,
                SubscriptionEventFilterItem::ApiMethodCallReturn(None),
            ),
    {
        self.add_filter_item(SubscriptionEventFilterItem::ApiMethodCallReturn(None))
    }

    /// Match every subscription push.
    pub fn sub_data(self) -> (r: Self)
        ensures
            r.inner@ == add_item_spec(
                self.inner@,
                SubscriptionEventFilterItem::ApiSubscriptionData(None),
            ),
    {
        self.add_filter_item(SubscriptionEventFilterItem::ApiSubscriptionData(None))
    }

    /// Match the liveness reply.
    pub fn pong(self) -> (r: Self)
        ensures
            r.inner@ == add_item_spec(self.inner@, SubscriptionEventFilterItem::ApiPong),
    {
        self.add_filter_item(SubscriptionEventFilterItem::ApiPong)
    }

    /// Match informational notes.
    pub fn info(self) -> (r: Self)
        ensures
            r.inner@ == add_item_spec(self.inner@, SubscriptionEventFilterItem::ApiInfo),
    {
        self.add_filter_item(SubscriptionEventFilterItem::ApiInfo)
    }

    /// Match the connection ending for good.
    pub fn ended(self) -> (r: Self)
        ensures
            r.inner@ == add_item_spec(self.inner@, SubscriptionEventFilterItem::Ended),
    {
        self.add_filter_item(SubscriptionEventFilterItem::Ended)
    }
}

/// Whether a subscriber receives one event or stays registered.
#[derive(Debug, Clone, Copy, PartialEq, Eq, Structural)]
pub enum EventSubscriptionType {
    /// Removed after its first delivered match.
    Once,
    /// Stays until unregistered.
    Persistent,
}

#[verifier::external_type_specification]
#[verifier::external_body]
#[verifier::reject_recursive_types(T)]
pub struct ExSender<T>(futures::channel::mpsc::Sender<T>);

#[verifier::external_type_specification]
#[verifier::external_body]
#[verifier::reject_recursive_types(T)]
pub struct ExReceiver<T>(futures::channel::mpsc::Receiver<T>);

/// One registered subscriber: its filters, delivery channel, kind and
/// registry id.
#[derive(Debug)]
pub struct EventSubscription {
    pub event_filters: Vec<SubscriptionEventFilterItem>,
    pub sender: futures::channel::mpsc::Sender<ApiClientEvent>,
    pub subscriber_type: EventSubscriptionType,
    pub id: usize,
}

/// How one delivery attempt went.
#[derive(Debug, Clone, Copy, PartialEq, Eq, Structural)]
pub enum SendAttempt {
    /// The event was handed to the channel.
    Delivered,
    /// The channel's buffer was full; the event is lost for this
    /// subscriber, who stays registered.
    Full,
    /// The receiving side is gone.
    Disconnected,
}

/// Relies on `futures::channel::mpsc::channel`: a fresh bounded channel
/// pair. Nothing is assumed about the channel's state. The constructor
/// asserts its buffer is far below `usize::MAX`; the bound here keeps
/// that assertion unreachable.
#[verifier::external_body]
fn new_event_channel(buffer: usize) -> (r: (
    futures::channel::mpsc::Sender<ApiClientEvent>,
    futures::channel::mpsc::Receiver<ApiClientEvent>,
))
    requires
        buffer < 0x10000,
{
    futures::channel::mpsc::channel(buffer)
}

/// Relies on `futures::channel::mpsc::Sender::try_send`, whose error
/// tells a full buffer from a dropped receiver apart; only the channel
/// inside the subscription is touched — filters, kind and id stay.
#[verifier::external_body]
fn send_to_subscriber(sub: &mut EventSubscription, event: ApiClientEvent) -> (r: SendAttempt)
    ensures
        final(sub).event_filters == old(sub).event_filters,
        final(sub).subscriber_type == old(sub).subscriber_type,
        final(sub).id == old(sub).id,
{
    match sub.sender.try_send(event) {
        Ok(()) => SendAttempt::Delivered,
        Err(e) => {
            if e.is_disconnected() {
                SendAttempt::Disconnected
            } else {
                SendAttempt::Full
            }
        },
    }
}

/// Relies on `futures::channel::mpsc::Sender::close_channel`; only the
/// channel inside the subscription is touched.
#[verifier::external_body]
fn close_subscriber(sub: &mut EventSubscription)
    ensures
        final(sub).event_filters == old(sub).event_filters,
        final(sub).subscriber_type == old(sub).subscriber_type,
        final(sub).id == old(sub).id,
{
    sub.sender.close_channel();
}

/// What the registry's contracts see of one subscriber: its id, its
/// filters, and whether it is one-shot. The channel itself is opaque.
pub open spec fn sub_view(s: EventSubscription) -> (int, Seq<SubscriptionEventFilterItem>, bool) {
    (s.id as int, s.event_filters@, s.subscriber_type is Once)
}

/// The views of a whole subscriber list.
pub open spec fn sub_views(s: Seq<EventSubscription>) -> Seq<
    (int, Seq<SubscriptionEventFilterItem>, bool),
> {
    Seq::new(s.len(), |k: int| sub_view(s[k]))
}

/// Whether a subscriber view matches an event.
pub open spec fn view_matches(v: (int, Seq<SubscriptionEventFilterItem>, bool), event: ApiClientEvent) -> bool {
    event_matches_any(event, v.1)
}

/// The subscription registry and connection state one logical
/// connection's consumers share.
#[derive(Debug)]
pub struct EventBus {
    pub subscriptions: Vec<EventSubscription>,
    pub next_subscription_id: usize,
    pub ws_state: WebSocketState,
}

impl EventBus {
    /// Registry well-formedness: ids are pairwise distinct and below
    /// the next id to hand out.
    pub open spec fn wf(self) -> bool {
        &&& forall|i: int, j: int|
            0 <= i < j < self.subscriptions@.len() ==> (#[trigger] self.subscriptions@[i].id)
                != (#[trigger] self.subscriptions@[j].id)
        &&& forall|i: int|
            0 <= i < self.subscriptions@.len() ==> (#[trigger] self.subscriptions@[i].id)
                < self.next_subscription_id
    }

    /// A fresh registry: no subscribers, connection still to come up.
    pub fn new() -> (r: Self)
        ensures
            r.wf(),
            r.subscriptions@.len() == 0,
            r.next_subscription_id == 0,
            r.ws_state == WebSocketState::Reconnecting,
    {
        Self {
            subscriptions: Vec::new(),
            next_subscription_id: 0,
            ws_state: WebSocketState::Reconnecting,
        }
    }

    /// Register a subscriber with the given filters; returns its id and
    /// the receiving end of its channel.
    pub fn register_event_subscription(
        &mut self,
        subscriber_type: EventSubscriptionType,
        event_filters: Vec<SubscriptionEventFilterItem>,
    ) -> (r: (usize, futures::channel::mpsc::Receiver<ApiClientEvent>))
        requires
            old(self).wf(),
            old(self).next_subscription_id < usize::MAX,
        ensures
            final(self).wf(),
            r.0 == old(self).next_subscription_id,
            final(self).next_subscription_id == old(self).next_subscription_id + 1,
            final(self).ws_state == old(self).ws_state,
            final(self).subscriptions@.len() == old(self).subscriptions@.len() + 1,
            final(self).subscriptions@.take(old(self).subscriptions@.len() as int) == old(
                self,
            ).subscriptions@,
            sub_view(final(self).subscriptions@.last()) == (
                old(self).next_subscription_id as int,
                event_filters@,
                subscriber_type is Once,
            ),
    {
        let (sender, receiver) = new_event_channel(256);
        let id = self.next_subscription_id;
        self.subscriptions.push(
            EventSubscription { event_filters, sender, subscriber_type, id },
        );
        self.next_subscription_id = id + 1;
        proof {
            assert(final(self).subscriptions@.take(old(self).subscriptions@.len() as int) =~= old(
                self,
            ).subscriptions@);
        }
        (id, receiver)
    }

    /// Remove the subscriber with the given id, if it is registered;
    /// removing an absent id changes nothing, so a second unregister is
    /// a tolerated no-op.
    pub fn unregister_event_subscription(&mut self, id: usize)
        requires
            old(self).wf(),
        ensures
            final(self).wf(),
            final(self).next_subscription_id == old(self).next_subscription_id,
            final(self).ws_state == old(self).ws_state,
            forall|v: (int, Seq<SubscriptionEventFilterItem>, bool)|
                #[trigger] sub_views(final(self).subscriptions@).contains(v) ==> sub_views(
                    old(self).subscriptions@,
                ).contains(v) && v.0 != id,
            forall|v: (int, Seq<SubscriptionEventFilterItem>, bool)|
                sub_views(old(self).subscriptions@).contains(v) && v.0 != id ==> sub_views(
                    final(self).subscriptions@,
                ).contains(v),
    {
        let ghost orig = self.subscriptions@;
        let found = find_subscription_index(&self.subscriptions, id);
        let pos: usize = match found {
            Some(p) => p,
            None => {
                proof {
                    assert forall|v: (int, Seq<SubscriptionEventFilterItem>, bool)|
                        #[trigger] sub_views(self.subscriptions@).contains(v) implies sub_views(
                        orig,
                    ).contains(v) && v.0 != id by {
                        let k = choose|k: int|
                            0 <= k < sub_views(self.subscriptions@).len() && sub_views(
                                self.subscriptions@,
                            )[k] == v;
                        assert(orig[k].id != id);
                    }
                }
                return;
            },
        };
        let ghost removed_view = sub_view(orig[pos as int]);
        self.subscriptions.swap_remove(pos);
        proof {
            let cur = self.subscriptions@;
            lemma_sub_views_swap_remove(orig, pos as int);
            assert(removed_view.0 == id);
            assert forall|v: (int, Seq<SubscriptionEventFilterItem>, bool)|
                #[trigger] sub_views(cur).contains(v) implies sub_views(orig).contains(v) && v.0
                != id by {
                let k = choose|k: int| 0 <= k < sub_views(cur).len() && sub_views(cur)[k] == v;
                assert(cur[k] == if k == pos as int && pos as int != orig.len() - 1 {
                    orig[orig.len() - 1]
                } else {
                    orig[k]
                });
                let j = if k == pos as int && pos as int != orig.len() - 1 {
                    orig.len() - 1
                } else {
                    k
                };
                assert(sub_views(orig)[j] == v);
                if v.0 == id {
                    assert(orig[j].id == orig[pos as int].id);
                    assert(j == pos as int);
                }
            }
            assert forall|v: (int, Seq<SubscriptionEventFilterItem>, bool)|
                sub_views(orig).contains(v) && v.0 != id implies #[trigger] sub_views(
                cur,
            ).contains(v) by {
                let k = choose|k: int| 0 <= k < sub_views(orig).len() && sub_views(orig)[k] == v;
                assert(k != pos as int);
                if k == orig.len() - 1 {
                    assert(sub_views(cur)[pos as int] == v);
                } else {
                    assert(sub_views(cur)[k] == v);
                }
            }
        }
    }

    /// Deliver one classified event: visit every subscriber once, hand
    /// the event to each whose filters match, drop a subscriber whose
    /// channel is gone, and drop a one-shot subscriber after its match.
    /// Removal swaps the last subscriber into the vacated slot, and the
    /// pass visits that subscriber too rather than skipping it: no
    /// subscriber that should stay is lost, no one-shot that matched
    /// survives.
    pub fn dispatch_event(&mut self, event: &ApiClientEvent)
        requires
            old(self).wf(),
        ensures
            final(self).wf(),
            final(self).next_subscription_id == old(self).next_subscription_id,
            final(self).ws_state == old(self).ws_state,
            forall|v: (int, Seq<SubscriptionEventFilterItem>, bool)|
                #[trigger] sub_views(final(self).subscriptions@).contains(v) ==> sub_views(
                    old(self).subscriptions@,
                ).contains(v),
            forall|v: (int, Seq<SubscriptionEventFilterItem>, bool)|
                sub_views(old(self).subscriptions@).contains(v) && !view_matches(v, *event)
                    ==> #[trigger] sub_views(final(self).subscriptions@).contains(v),
            forall|v: (int, Seq<SubscriptionEventFilterItem>, bool)|
                sub_views(old(self).subscriptions@).contains(v) && view_matches(v, *event) && v.2
                    ==> !(#[trigger] sub_views(final(self).subscriptions@).contains(v)),
    {
        let ghost orig = self.subscriptions@;
        proof {
            assert forall|k: int|
                0 <= k < orig.len() implies sub_views(orig).contains(
                sub_view(#[trigger] orig[k]),
            ) by {
                assert(sub_views(orig)[k] == sub_view(orig[k]));
            }
        }
        let mut i: usize = 0;
        while i < self.subscriptions.len()
            invariant
                self.wf(),
                self.next_subscription_id == old(self).next_subscription_id,
                self.ws_state == old(self).ws_state,
                i <= self.subscriptions@.len(),
                orig == old(self).subscriptions@,
                forall|k: int|
                    0 <= k < self.subscriptions@.len() ==> sub_views(orig).contains(
                        sub_view(#[trigger] self.subscriptions@[k]),
                    ),
                forall|v: (int, Seq<SubscriptionEventFilterItem>, bool)|
                    sub_views(orig).contains(v) && !view_matches(v, *event) ==> #[trigger] sub_views(
                        self.subscriptions@,
                    ).contains(v),
                forall|k: int|
                    0 <= k < i ==> !(view_matches(
                        sub_view(#[trigger] self.subscriptions@[k]),
                        *event,
                    ) && sub_view(self.subscriptions@[k]).2),
            decreases self.subscriptions@.len() - i,
        {
            let matched = event_is_matched_by_any_filter(
                event,
                &self.subscriptions[i].event_filters,
            );
            if !matched {
                i = i + 1;
                continue;
            }
            let ghost before_send = self.subscriptions@;
            let outcome = send_to_subscriber(&mut self.subscriptions[i], event.clone());
            proof {
                assert(sub_views(self.subscriptions@) =~= sub_views(before_send));
                assert forall|k: int|
                    0 <= k < self.subscriptions@.len() implies (#[trigger] self.subscriptions@[k].id)
                    == before_send[k].id by {
                    if k != i as int {
                        assert(self.subscriptions@[k] == before_send[k]);
                    }
                }
                assert forall|k: int|
                    0 <= k < self.subscriptions@.len() implies sub_views(orig).contains(
                    sub_view(#[trigger] self.subscriptions@[k]),
                ) by {
                    assert(sub_view(self.subscriptions@[k]) == sub_views(self.subscriptions@)[k]);
                    assert(sub_views(before_send)[k] == sub_view(before_send[k]));
                }
                assert forall|k: int|
                    0 <= k < i implies !(view_matches(
                    sub_view(#[trigger] self.subscriptions@[k]),
                    *event,
                ) && sub_view(self.subscriptions@[k]).2) by {
                    assert(self.subscriptions@[k] == before_send[k]);
                }
            }
            let once = matches!(self.subscriptions[i].subscriber_type, EventSubscriptionType::Once);
            let drop_now = matches!(outcome, SendAttempt::Disconnected);
            if drop_now || once {
                if once && !drop_now {
                    let ghost before_close = self.subscriptions@;
                    close_subscriber(&mut self.subscriptions[i]);
                    proof {
                        assert(sub_views(self.subscriptions@) =~= sub_views(before_close));
                        assert forall|k: int|
                            0 <= k < self.subscriptions@.len() implies (
                        #[trigger] self.subscriptions@[k].id) == before_close[k].id by {
                            if k != i as int {
                                assert(self.subscriptions@[k] == before_close[k]);
                            }
                        }
                        assert forall|k: int|
                            0 <= k < self.subscriptions@.len() implies sub_views(orig).contains(
                            sub_view(#[trigger] self.subscriptions@[k]),
                        ) by {
                            assert(sub_view(self.subscriptions@[k]) == sub_views(
                                self.subscriptions@,
                            )[k]);
                            assert(sub_views(before_close)[k] == sub_view(before_close[k]));
                        }
                        assert forall|k: int|
                            0 <= k < i implies !(view_matches(
                            sub_view(#[trigger] self.subscriptions@[k]),
                            *event,
                        ) && sub_view(self.subscriptions@[k]).2) by {
                            assert(self.subscriptions@[k] == before_close[k]);
                        }
                    }
                }
                let ghost before_rm = self.subscriptions@;
                let ghost removed_view = sub_view(before_rm[i as int]);
                self.subscriptions.swap_remove(i);
                proof {
                    let cur = self.subscriptions@;
                    let n = before_rm.len() as int;
                    lemma_sub_views_swap_remove(before_rm, i as int);
                    assert(view_matches(removed_view, *event));
                    // every element still present comes from a position of the
                    // pre-removal list
                    assert forall|k: int|
                        0 <= k < cur.len() implies sub_views(orig).contains(
                        sub_view(#[trigger] cur[k]),
                    ) by {
                        let src = if k == i as int && i as int != n - 1 {
                            n - 1
                        } else {
                            k
                        };
                        assert(cur[k] == before_rm[src]);
                    }
                    // ids stay pairwise distinct and bounded
                    assert forall|k1: int, k2: int|
                        0 <= k1 < k2 < cur.len() implies (#[trigger] cur[k1].id) != (
                    #[trigger] cur[k2].id) by {
                        let s1 = if k1 == i as int && i as int != n - 1 {
                            n - 1
                        } else {
                            k1
                        };
                        let s2 = if k2 == i as int && i as int != n - 1 {
                            n - 1
                        } else {
                            k2
                        };
                        assert(cur[k1] == before_rm[s1]);
                        assert(cur[k2] == before_rm[s2]);
                        assert(s1 != s2);
                    }
                    assert forall|k: int|
                        0 <= k < cur.len() implies (#[trigger] cur[k].id)
                        < self.next_subscription_id by {
                        let src = if k == i as int && i as int != n - 1 {
                            n - 1
                        } else {
                            k
                        };
                        assert(cur[k] == before_rm[src]);
                    }
                    // the unmatched subscribers all survive the removal
                    assert forall|v: (int, Seq<SubscriptionEventFilterItem>, bool)|
                        sub_views(orig).contains(v) && !view_matches(v, *event)
                            implies #[trigger] sub_views(cur).contains(v) by {
                        assert(sub_views(before_rm).contains(v));
                        let k = choose|k: int|
                            0 <= k < sub_views(before_rm).len() && sub_views(before_rm)[k] == v;
                        assert(sub_view(before_rm[k]) == v);
                        assert(k != i as int);
                        if k == n - 1 {
                            assert(cur[i as int] == before_rm[k]);
                            assert(sub_views(cur)[i as int] == v);
                        } else {
                            assert(cur[k] == before_rm[k]);
                            assert(sub_views(cur)[k] == v);
                        }
                    }
                    // the processed prefix stays free of matched one-shots
                    assert forall|k: int|
                        0 <= k < i implies !(view_matches(
                        sub_view(#[trigger] cur[k]),
                        *event,
                    ) && sub_view(cur[k]).2) by {
                        assert(cur[k] == before_rm[k]);
                    }
                }
                continue;
            }
            i = i + 1;
        }
        proof {
            let fin = self.subscriptions@;
            assert forall|v: (int, Seq<SubscriptionEventFilterItem>, bool)|
                #[trigger] sub_views(fin).contains(v) implies sub_views(orig).contains(v) by {
                let k = choose|k: int| 0 <= k < sub_views(fin).len() && sub_views(fin)[k] == v;
                assert(sub_view(fin[k]) == v);
            }
            assert forall|v: (int, Seq<SubscriptionEventFilterItem>, bool)|
                sub_views(orig).contains(v) && view_matches(v, *event) && v.2
                    implies !(#[trigger] sub_views(fin).contains(v)) by {
                if sub_views(fin).contains(v) {
                    let k = choose|k: int| 0 <= k < sub_views(fin).len() && sub_views(fin)[k] == v;
                    assert(sub_view(fin[k]) == v);
                    assert(!(view_matches(sub_view(fin[k]), *event) && sub_view(fin[k]).2));
                }
            }
        }
    }
}

/// The filter that fires when the connection reaches a given state.
pub open spec fn state_filter_spec(s: WebSocketState) -> SubscriptionEventFilterItem {
    match s {
        WebSocketState::Connected => SubscriptionEventFilterItem::Connected,
        WebSocketState::Reconnecting => SubscriptionEventFilterItem::Reconnecting,
        WebSocketState::Ended => SubscriptionEventFilterItem::Ended,
    }
}

/// A persistent subscription: the receiving channel and the registry id
/// to unregister with.
#[derive(Debug)]
pub struct EventSubscriptionHandle {
    pub receiver: futures::channel::mpsc::Receiver<ApiClientEvent>,
    pub id: usize,
}

impl EventSubscriptionHandle {
    /// Give the subscription up: this handle's subscriber leaves the
    /// registry, every other subscriber stays. Unregistering twice, or
    /// after the dispatcher already dropped the subscriber, is a
    /// tolerated no-op.
    pub fn unsubscribe(self, bus: &mut EventBus)
        requires
            old(bus).wf(),
        ensures
            final(bus).wf(),
            final(bus).next_subscription_id == old(bus).next_subscription_id,
            final(bus).ws_state == old(bus).ws_state,
            forall|v: (int, Seq<SubscriptionEventFilterItem>, bool)|
                #[trigger] sub_views(final(bus).subscriptions@).contains(v) ==> sub_views(
                    old(bus).subscriptions@,
                ).contains(v) && v.0 != self.id,
            forall|v: (int, Seq<SubscriptionEventFilterItem>, bool)|
                sub_views(old(bus).subscriptions@).contains(v) && v.0 != self.id ==> sub_views(
                    final(bus).subscriptions@,
                ).contains(v),
    {
        bus.unregister_event_subscription(self.id);
    }
}

/// Why a one-shot wait yielded no event.
#[derive(Debug, Clone, Copy, PartialEq, Eq, Structural)]
pub enum AwaitEventError {
    /// The caller's deadline passed first.
    Timeout,
    /// The connection delivered everything it ever will.
    EventsEmpty,
}

/// Why a state wait yielded nothing.
#[derive(Debug, Clone, Copy, PartialEq, Eq, Structural)]
pub enum TimeoutOrEndedError {
    /// The caller's deadline passed first.
    Timeout,
    /// The connection delivered everything it ever will.
    Ended,
}

/// A one-shot subscription: the receiving channel, the registry id, and
/// an optional deadline in seconds for the caller's wait.
#[derive(Debug)]
pub struct AwaitEventHandle {
    pub receiver: futures::channel::mpsc::Receiver<ApiClientEvent>,
    pub id: usize,
    pub timeout_secs: Option<u64>,
}

impl AwaitEventHandle {
    /// Give the wait up without consuming an event: this handle's
    /// subscriber leaves the registry, every other subscriber stays. A
    /// second unregister, or one after the one-shot already fired, is a
    /// tolerated no-op.
    pub fn unsubscribe(self, bus: &mut EventBus)
        requires
            old(bus).wf(),
        ensures
            final(bus).wf(),
            final(bus).next_subscription_id == old(bus).next_subscription_id,
            final(bus).ws_state == old(bus).ws_state,
            forall|v: (int, Seq<SubscriptionEventFilterItem>, bool)|
                #[trigger] sub_views(final(bus).subscriptions@).contains(v) ==> sub_views(
                    old(bus).subscriptions@,
                ).contains(v) && v.0 != self.id,
            forall|v: (int, Seq<SubscriptionEventFilterItem>, bool)|
                sub_views(old(bus).subscriptions@).contains(v) && v.0 != self.id ==> sub_views(
                    final(bus).subscriptions@,
                ).contains(v),
    {
        bus.unregister_event_subscription(self.id);
    }
}

impl EventBus {
    /// Register a one-shot subscriber for the filter set, without a
    /// deadline.
    pub fn get_event_handle(&mut self, filter: SubscriptionEventFilter) -> (r: AwaitEventHandle)
        requires
            old(self).wf(),
            old(self).next_subscription_id < usize::MAX,
        ensures
            final(self).wf(),
            final(self).next_subscription_id == old(self).next_subscription_id + 1,
            final(self).ws_state == old(self).ws_state,
            r.id == old(self).next_subscription_id,
            r.timeout_secs is None,
            final(self).subscriptions@.len() == old(self).subscriptions@.len() + 1,
            sub_view(final(self).subscriptions@.last()) == (
                old(self).next_subscription_id as int,
                filter.inner@,
                true,
            ),
    {
        let (id, receiver) = self.register_event_subscription(
            EventSubscriptionType::Once,
            filter.inner,
        );
        AwaitEventHandle { receiver, id, timeout_secs: None }
    }

    /// Register a one-shot subscriber for the filter set, with a
    /// deadline in seconds for the caller's wait.
    pub fn get_event_handle_timeout(
        &mut self,
        filter: SubscriptionEventFilter,
        timeout_secs: u64,
    ) -> (r: AwaitEventHandle)
        requires
            old(self).wf(),
            old(self).next_subscription_id < usize::MAX,
        ensures
            final(self).wf(),
            final(self).next_subscription_id == old(self).next_subscription_id + 1,
            final(self).ws_state == old(self).ws_state,
            r.id == old(self).next_subscription_id,
            r.timeout_secs == Some(timeout_secs),
            final(self).subscriptions@.len() == old(self).subscriptions@.len() + 1,
            sub_view(final(self).subscriptions@.last()) == (
                old(self).next_subscription_id as int,
                filter.inner@,
                true,
            ),
    {
        let (id, receiver) = self.register_event_subscription(
            EventSubscriptionType::Once,
            filter.inner,
        );
        AwaitEventHandle { receiver, id, timeout_secs: Some(timeout_secs) }
    }

    /// Register a persistent subscriber for the filter set; it stays
    /// until the handle is given up.
    pub fn receive_events(&mut self, filter: SubscriptionEventFilter) -> (r:
        EventSubscriptionHandle)
        requires
            old(self).wf(),
            old(self).next_subscription_id < usize::MAX,
        ensures
            final(self).wf(),
            final(self).next_subscription_id == old(self).next_subscription_id + 1,
            final(self).ws_state == old(self).ws_state,
            r.id == old(self).next_subscription_id,
            final(self).subscriptions@.len() == old(self).subscriptions@.len() + 1,
            sub_view(final(self).subscriptions@.last()) == (
                old(self).next_subscription_id as int,
                filter.inner@,
                false,
            ),
    {
        let (id, receiver) = self.register_event_subscription(
            EventSubscriptionType::Persistent,
            filter.inner,
        );
        EventSubscriptionHandle { receiver, id }
    }

    /// Decide how to wait for one of the given connection states: `None`
    /// when the connection is in one of them already, otherwise the
    /// filter set that fires when it reaches one.
    pub fn await_state_common(&self, states: &Vec<WebSocketState>) -> (r: Option<
        Vec<SubscriptionEventFilterItem>,
    >)
        ensures
            r is None <==> exists|k: int|
                0 <= k < states@.len() && (#[trigger] states@[k]) == self.ws_state,
            r matches Some(f) ==> f@.len() == states@.len() && forall|k: int|
                0 <= k < f@.len() ==> (#[trigger] f@[k]) == state_filter_spec(states@[k]),
    {
        let mut k: usize = 0;
        while k < states.len()
            invariant
                k <= states@.len(),
                forall|j: int| 0 <= j < k ==> (#[trigger] states@[j]) != self.ws_state,
            decreases states@.len() - k,
        {
            if states[k] == self.ws_state {
                return None;
            }
            k = k + 1;
        }
        let mut filters: Vec<SubscriptionEventFilterItem> = Vec::new();
        let mut j: usize = 0;
        while j < states.len()
            invariant
                j <= states@.len(),
                filters@.len() == j,
                forall|m: int| 0 <= m < j ==> (#[trigger] filters@[m]) == state_filter_spec(
                    states@[m],
                ),
                forall|m: int| 0 <= m < states@.len() ==> (#[trigger] states@[m]) != self.ws_state,
            decreases states@.len() - j,
        {
            let item = match states[j] {
                WebSocketState::Connected => SubscriptionEventFilterItem::Connected,
                WebSocketState::Reconnecting => SubscriptionEventFilterItem::Reconnecting,
                WebSocketState::Ended => SubscriptionEventFilterItem::Ended,
            };
            filters.push(item);
            j = j + 1;
        }
        Some(filters)
    }
}

impl EventBus {
    /// Take one socket event: track the connection state, classify the
    /// event for subscribers — a text frame that parses as a server
    /// message becomes an API event; one that does not, and any binary
    /// frame, is silently dropped — and fan the classified event out.
    /// No subscriber that should stay is lost by the pass.
    pub fn handle_socket_event(&mut self, event: crate::conn::WrappedSocketEvent)
        requires
            old(self).wf(),
        ensures
            final(self).wf(),
            final(self).next_subscription_id == old(self).next_subscription_id,
            final(self).ws_state == match event {
                crate::conn::WrappedSocketEvent::Connected => WebSocketState::Connected,
                crate::conn::WrappedSocketEvent::Reconnecting(_) => WebSocketState::Reconnecting,
                crate::conn::WrappedSocketEvent::Ended(_) => WebSocketState::Ended,
                _ => old(self).ws_state,
            },
            forall|v: (int, Seq<SubscriptionEventFilterItem>, bool)|
                #[trigger] sub_views(final(self).subscriptions@).contains(v) ==> sub_views(
                    old(self).subscriptions@,
                ).contains(v),
            event is BinaryMessage ==> *final(self) == *old(self),
    {
        let api_event = match event {
            crate::conn::WrappedSocketEvent::Connected => {
                self.ws_state = WebSocketState::Connected;
                ApiClientEvent::Connected
            },
            crate::conn::WrappedSocketEvent::Reconnecting(secs) => {
                self.ws_state = WebSocketState::Reconnecting;
                ApiClientEvent::Reconnecting(secs)
            },
            crate::conn::WrappedSocketEvent::Ended(_) => {
                self.ws_state = WebSocketState::Ended;
                ApiClientEvent::Ended
            },
            crate::conn::WrappedSocketEvent::TextMessage(msg) => {
                match crate::decode::parse_server_message(msg.as_str()) {
                    Ok(parsed) => ApiClientEvent::ApiMessage(parsed),
                    Err(_) => {
                        return;
                    },
                }
            },
            crate::conn::WrappedSocketEvent::BinaryMessage(_) => {
                return;
            },
        };
        self.dispatch_event(&api_event);
    }
}

/// Position of the subscriber with the given id, if any.
fn find_subscription_index(subs: &Vec<EventSubscription>, id: usize) -> (r: Option<usize>)
    ensures
        r matches Some(p) ==> p < subs@.len() && subs@[p as int].id == id,
        r is None ==> forall|k: int| 0 <= k < subs@.len() ==> (#[trigger] subs@[k].id) != id,
{
    let mut pos: usize = 0;
    while pos < subs.len()
        invariant
            pos <= subs@.len(),
            forall|k: int| 0 <= k < pos ==> (#[trigger] subs@[k].id) != id,
        decreases subs@.len() - pos,
    {
        if subs[pos].id == id {
            return Some(pos);
        }
        pos = pos + 1;
    }
    None
}

/// After a swap-remove at `i`, the remaining elements are exactly the
/// old ones with position `i` gone: the last element stands in the
/// vacated slot, everything else keeps its place.
proof fn lemma_sub_views_swap_remove(s: Seq<EventSubscription>, i: int)
    requires
        0 <= i < s.len(),
    ensures
        ({
            let t = s.update(i, s.last()).drop_last();
            &&& t.len() == s.len() - 1
            &&& forall|k: int|
                0 <= k < t.len() ==> #[trigger] t[k] == (if k == i && i != s.len() - 1 {
                    s[s.len() - 1]
                } else {
                    s[k]
                })
        }),
{
}

} // verus!
