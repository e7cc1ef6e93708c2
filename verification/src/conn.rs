//! The reconnecting-socket state machine.
//!
//! The physical socket lives with the I/O loop outside this crate; the
//! loop feeds what it observes into [`WebSocketRetry`] and performs the
//! action the state prescribes. The machine decides when to reconnect,
//! how long to back off — 0 at first, then 5 seconds, doubling to a cap
//! of 60 — and which event the connection's consumers are told.

use vstd::prelude::*;

verus! {

/// Reconnect delay, in seconds, after one more failure: a first failure
/// backs off 5 seconds, each further one doubles the delay, capped at
/// 60.
pub open spec fn bumped_backoff(r: u64) -> u64 {
    if r == 0 {
        5u64
    } else if r * 2 > 60 {
        60u64
    } else {
        (r * 2) as u64
    }
}

/// One event of the logical connection, as its consumers see it.
#[derive(Debug, Clone)]
pub enum WrappedSocketEvent {
    /// A connect attempt succeeded.
    Connected,
    /// The connection is down; next attempt after this many seconds.
    Reconnecting(u64),
    /// A text frame arrived.
    TextMessage(String),
    /// A binary frame arrived.
    BinaryMessage(Vec<u8>),
    /// The connection is over for good; the text says why.
    Ended(String),
}

/// The coarse connection state the client tracks between events.
#[derive(Debug, Clone, Copy, PartialEq, Eq, Structural)]
pub enum WebSocketState {
    Connected,
    Reconnecting,
    Ended,
}

/// What the I/O loop should do next for this connection.
#[derive(Debug, Clone, Copy, PartialEq, Eq, Structural)]
pub enum SocketAction {
    /// Await the next inbound frame (or the close timeout).
    AwaitFrame,
    /// Sleep this many seconds, then try to connect.
    SleepThenConnect(u64),
    /// The connection is finished; stop the loop.
    Stop,
}

/// The decision state of one logical connection: whether it is done,
/// whether a socket is currently up, and the current backoff delay.
#[derive(Debug, Clone, Copy, PartialEq, Eq, Structural)]
pub struct WebSocketRetry {
    pub finished: bool,
    pub connected: bool,
    pub retry_after: u64,
}

impl WebSocketRetry {
    /// A fresh connection: not finished, no socket, connect at once.
    pub fn new() -> (r: Self)
        ensures
            !r.finished,
            !r.connected,
            r.retry_after == 0,
    {
        Self { finished: false, connected: false, retry_after: 0 }
    }

    /// What the I/O loop should do in this state.
    pub fn next_action(&self) -> (r: SocketAction)
        ensures
            self.finished ==> r == SocketAction::Stop,
            !self.finished && self.connected ==> r == SocketAction::AwaitFrame,
            !self.finished && !self.connected ==> r == SocketAction::SleepThenConnect(
                self.retry_after,
            ),
    {
        if self.finished {
            SocketAction::Stop
        } else if self.connected {
            SocketAction::AwaitFrame
        } else {
            SocketAction::SleepThenConnect(self.retry_after)
        }
    }

    /// The socket dropped, its stream ended, or reading timed out: the
    /// connection falls back to reconnecting, and consumers are told
    /// the current backoff delay.
    pub fn connection_lost(&mut self) -> (ev: WrappedSocketEvent)
        ensures
            final(self).finished == old(self).finished,
            !final(self).connected,
            final(self).retry_after == old(self).retry_after,
            ev matches WrappedSocketEvent::Reconnecting(d) && d == old(self).retry_after,
    {
        self.connected = false;
        WrappedSocketEvent::Reconnecting(self.retry_after)
    }

    /// Before a connect attempt: the loop must first sleep the returned
    /// number of seconds; the backoff for a possible failure of this
    /// very attempt is bumped — 5 after the first failure, doubling to
    /// the cap of 60.
    pub fn begin_connect(&mut self) -> (delay: u64)
        requires
            !old(self).finished,
            !old(self).connected,
        ensures
            delay == old(self).retry_after,
            final(self).retry_after == bumped_backoff(old(self).retry_after),
            final(self).finished == old(self).finished,
            final(self).connected == old(self).connected,
    {
        let delay = self.retry_after;
        self.retry_after = if self.retry_after > 0 {
            if self.retry_after > 30 {
                60
            } else {
                self.retry_after * 2
            }
        } else {
            5
        };
        delay
    }

    /// A connect attempt came back: on success the backoff resets and
    /// consumers learn of the connection; on failure they are told the
    /// bumped delay.
    pub fn connect_result(&mut self, ok: bool) -> (ev: WrappedSocketEvent)
        ensures
            final(self).finished == old(self).finished,
            ok ==> final(self).connected && final(self).retry_after == 0 && ev
                == WrappedSocketEvent::Connected,
            !ok ==> {
                &&& final(self).connected == old(self).connected
                &&& final(self).retry_after == old(self).retry_after
                &&& ev matches WrappedSocketEvent::Reconnecting(d)
                &&& d == old(self).retry_after
            },
    {
        if ok {
            self.connected = true;
            self.retry_after = 0;
            WrappedSocketEvent::Connected
        } else {
            WrappedSocketEvent::Reconnecting(self.retry_after)
        }
    }

    /// The connection is over for good: no further reconnects.
    pub fn end(&mut self)
        ensures
            final(self).finished,
            !final(self).connected,
            final(self).retry_after == old(self).retry_after,
    {
        self.finished = true;
        self.connected = false;
    }
}

/// How often, in seconds, the keep-alive loop pings a live connection,
/// and how long it gives the connection to either stay up or fall back
/// to reconnecting after a ping.
pub const PING_INTERVAL_SECS: u64 = 10;

/// What one wait of the keep-alive loop observed.
#[derive(Debug, Clone, Copy, PartialEq, Eq, Structural)]
pub enum AwaitStateOutcome {
    /// The awaited connection state arrived.
    Reached,
    /// The wait's deadline passed first.
    TimedOut,
    /// The connection is over; nothing further arrives.
    Ended,
}

/// What the keep-alive loop does next.
#[derive(Debug, Clone, Copy, PartialEq, Eq, Structural)]
pub enum PingerAction {
    /// Go round again: ping once the connection is up, then watch it.
    Continue,
    /// The connection is over for good; stop pinging.
    Stop,
}

/// The keep-alive rule: pinging is advisory liveness only. Whatever a
/// wait observed — the state arrived, or the deadline passed with the
/// connection still up — the loop just goes round again; only the end
/// of the connection stops it.
pub fn pinger_step(wait: AwaitStateOutcome) -> (r: PingerAction)
    ensures
        r == PingerAction::Stop <==> wait == AwaitStateOutcome::Ended,
{
    match wait {
        AwaitStateOutcome::Ended => PingerAction::Stop,
        AwaitStateOutcome::Reached => PingerAction::Continue,
        AwaitStateOutcome::TimedOut => PingerAction::Continue,
    }
}

/// The ownership ledger of one shared connection manager. Real owners
/// — the handles application code holds — are counted; the background
/// tasks hold anonymous references that never count. When the last
/// real owner releases its handle, the release reports that the
/// connection should now be told to end, so the background loops wind
/// down rather than being cut off mid-task.
#[derive(Debug, Clone, Copy, PartialEq, Eq, Structural)]
pub struct OwnerCount {
    pub owners: u64,
}

impl OwnerCount {
    /// A freshly created manager has its one creating owner.
    pub fn new() -> (r: Self)
        ensures
            r.owners == 1,
    {
        Self { owners: 1 }
    }

    /// A real owner clones its handle: one more owner. Anonymous
    /// references for background tasks take no note here at all.
    pub fn add_owner(&mut self)
        requires
            old(self).owners < u64::MAX,
        ensures
            final(self).owners == old(self).owners + 1,
    {
        self.owners = self.owners + 1;
    }

    /// A real owner releases its handle. Exactly when it was the last
    /// one, the connection must now be told to end.
    pub fn release_owner(&mut self) -> (shutdown: bool)
        requires
            old(self).owners >= 1,
        ensures
            final(self).owners == old(self).owners - 1,
            shutdown <==> old(self).owners == 1,
    {
        let shutdown = self.owners == 1;
        self.owners = self.owners - 1;
        shutdown
    }
}

/// The backoff delays a consumer observes across consecutive connect
/// failures, starting from a live connection that dropped: 0, then 5,
/// 10, 20, 40, 60 — and 60 ever after, never more.
pub proof fn lemma_backoff_progression()
    ensures
        bumped_backoff(0) == 5,
        bumped_backoff(5) == 10,
        bumped_backoff(10) == 20,
        bumped_backoff(20) == 40,
        bumped_backoff(40) == 60,
        bumped_backoff(60) == 60,
        forall|r: u64| r <= 60 ==> #[trigger] bumped_backoff(r) <= 60,
{
}

} // verus!
