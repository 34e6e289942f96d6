use vstd::prelude::*;

verus! {

/// The largest value of a `u64`.
pub const U64_MAX: u64 = 18446744073709551615;

/// What happened on a connection since its last decision.
#[derive(Clone, Copy, Debug, PartialEq, Eq, Structural)]
pub enum ConnectionEvent {
    /// One period of the idle ticker elapsed while a request was awaited.
    Tick,
    /// A read returned no bytes: the peer closed its side.
    PeerClosed,
    /// A read returned a non-empty request.
    RequestReceived,
    /// The whole response was written; the flag tells whether the request
    /// asked to keep the connection open.
    ResponseWritten(bool),
    /// Writing the response failed.
    WriteFailed,
}

/// What the connection does next.
#[derive(Clone, Copy, Debug, PartialEq, Eq, Structural)]
pub enum ConnectionAction {
    /// Wait for the next request, racing the read against the idle ticker.
    AwaitRequest,
    /// Serve the request just read and write its response.
    ProcessRequest,
    /// Shut the connection down.
    Close,
}

/// The keep-alive and idle-timeout bookkeeping of one connection.
#[derive(Clone, Copy, Debug)]
pub struct ConnectionState {
    /// Ticks since the last request was read.
    pub idle_ticks: u64,
    /// The number of idle ticks allowed; none means no idle timeout.
    pub timeout: Option<u64>,
    /// Whether the connection is still open.
    pub open: bool,
}

/// The idle count after one more tick.
pub open spec fn ticked(n: u64) -> u64 {
    if n < U64_MAX {
        (n + 1) as u64
    } else {
        n
    }
}

/// Whether `idle` ticks exceed the allowed idle time `timeout`.
pub open spec fn timed_out(idle: u64, timeout: Option<u64>) -> bool {
    match timeout {
        Some(t) => idle > t,
        None => false,
    }
}

/// The state and action that follow event `e` in state `s`.
pub open spec fn step(s: ConnectionState, e: ConnectionEvent) -> (ConnectionState, ConnectionAction) {
    if !s.open {
        (s, ConnectionAction::Close)
    } else {
        match e {
            ConnectionEvent::Tick => {
                let idle = ticked(s.idle_ticks);
                if timed_out(idle, s.timeout) {
                    (ConnectionState { idle_ticks: idle, open: false, ..s }, ConnectionAction::Close)
                } else {
                    (ConnectionState { idle_ticks: idle, ..s }, ConnectionAction::AwaitRequest)
                }
            },
            ConnectionEvent::PeerClosed => (
                ConnectionState { open: false, ..s },
                ConnectionAction::Close,
            ),
            ConnectionEvent::RequestReceived => (
                ConnectionState { idle_ticks: 0, ..s },
                ConnectionAction::ProcessRequest,
            ),
            ConnectionEvent::ResponseWritten(keep) => if keep {
                (s, ConnectionAction::AwaitRequest)
            } else {
                (ConnectionState { open: false, ..s }, ConnectionAction::Close)
            },
            ConnectionEvent::WriteFailed => (
                ConnectionState { open: false, ..s },
                ConnectionAction::Close,
            ),
        }
    }
}

/// The state after the events `es`, taken in order from `s`.
pub open spec fn run_events(s: ConnectionState, es: Seq<ConnectionEvent>) -> ConnectionState
    decreases es.len(),
{
    if es.len() == 0 {
        s
    } else {
        step(run_events(s, es.drop_last()), es.last()).0
    }
}

/// The action taken on the last of the events `es`, taken in order from `s`.
pub open spec fn last_action(s: ConnectionState, es: Seq<ConnectionEvent>) -> ConnectionAction
    recommends
        es.len() > 0,
{
    step(run_events(s, es.drop_last()), es.last()).1
}

/// The state after `n` ticks from `s` with no request.
pub open spec fn after_ticks(s: ConnectionState, n: nat) -> ConnectionState
    decreases n,
{
    if n == 0 {
        s
    } else {
        step(after_ticks(s, (n - 1) as nat), ConnectionEvent::Tick).0
    }
}

impl ConnectionState {
    /// A fresh open connection with no idle time, allowed `timeout` idle
    /// ticks (none: no idle timeout).
    pub fn new(timeout: Option<u64>) -> (r: ConnectionState)
        ensures
            r.idle_ticks == 0,
            r.timeout == timeout,
            r.open,
    {
        ConnectionState { idle_ticks: 0, timeout, open: true }
    }

    /// Takes the decision that follows `event` and records it.
    pub fn on_event(&mut self, event: ConnectionEvent) -> (r: ConnectionAction)
        ensures
            (*final(self), r) == step(*old(self), event),
    {
        if !self.open {
            return ConnectionAction::Close;
        }
        match event {
            ConnectionEvent::Tick => {
                if self.idle_ticks < U64_MAX {
                    self.idle_ticks = self.idle_ticks + 1;
                }
                let expired = match self.timeout {
                    Some(t) => self.idle_ticks > t,
                    None => false,
                };
                if expired {
                    self.open = false;
                    ConnectionAction::Close
                } else {
                    ConnectionAction::AwaitRequest
                }
            },
            ConnectionEvent::PeerClosed => {
                self.open = false;
                ConnectionAction::Close
            },
            ConnectionEvent::RequestReceived => {
                self.idle_ticks = 0;
                ConnectionAction::ProcessRequest
            },
            ConnectionEvent::ResponseWritten(keep) => {
                if keep {
                    ConnectionAction::AwaitRequest
                } else {
                    self.open = false;
                    ConnectionAction::Close
                }
            },
            ConnectionEvent::WriteFailed => {
                self.open = false;
                ConnectionAction::Close
            },
        }
    }
}

/// An open connection with an idle timeout of `t` ticks, just after a
/// request was read, stays open through `t` ticks with no request and is
/// closed by the next one.
pub proof fn lemma_idle_connection_closes(s: ConnectionState, t: u64)
    requires
        s.open,
        s.idle_ticks == 0,
        s.timeout == Some(t),
        t < U64_MAX,
    ensures
        forall|k: nat| k <= t ==> (#[trigger] after_ticks(s, k)).open,
        !after_ticks(s, (t + 1) as nat).open,
        step(after_ticks(s, t as nat), ConnectionEvent::Tick).1 == ConnectionAction::Close,
{
    assert forall|k: nat| k <= t implies (#[trigger] after_ticks(s, k)).open
        && after_ticks(s, k).idle_ticks == k && after_ticks(s, k).timeout == Some(t) by {
        lemma_ticks_count(s, t, k);
    }
    lemma_ticks_count(s, t, t as nat);
}

proof fn lemma_ticks_count(s: ConnectionState, t: u64, k: nat)
    requires
        s.open,
        s.idle_ticks == 0,
        s.timeout == Some(t),
        t < U64_MAX,
        k <= t,
    ensures
        after_ticks(s, k).open,
        after_ticks(s, k).idle_ticks == k,
        after_ticks(s, k).timeout == Some(t),
    decreases k,
{
    if k > 0 {
        lemma_ticks_count(s, t, (k - 1) as nat);
    }
}

/// A connection with no idle timeout is never closed by ticks alone.
pub proof fn lemma_no_timeout_stays_open(s: ConnectionState, n: nat)
    requires
        s.open,
        s.timeout is None,
    ensures
        after_ticks(s, n).open,
        after_ticks(s, n).timeout is None,
    decreases n,
{
    if n > 0 {
        lemma_no_timeout_stays_open(s, (n - 1) as nat);
    }
}

/// On an open connection, two requests that each ask for keep-alive are
/// both served, each response is followed by a wait for the next request,
/// and the connection is still open after the second response.
pub proof fn lemma_keep_alive_serves_two_requests(s: ConnectionState)
    requires
        s.open,
    ensures
        ({
            let es = seq![
                ConnectionEvent::RequestReceived,
                ConnectionEvent::ResponseWritten(true),
                ConnectionEvent::RequestReceived,
                ConnectionEvent::ResponseWritten(true),
            ];
            &&& last_action(s, es.take(1)) == ConnectionAction::ProcessRequest
            &&& last_action(s, es.take(2)) == ConnectionAction::AwaitRequest
            &&& last_action(s, es.take(3)) == ConnectionAction::ProcessRequest
            &&& last_action(s, es.take(4)) == ConnectionAction::AwaitRequest
            &&& run_events(s, es).open
        }),
{
    let es = seq![
        ConnectionEvent::RequestReceived,
        ConnectionEvent::ResponseWritten(true),
        ConnectionEvent::RequestReceived,
        ConnectionEvent::ResponseWritten(true),
    ];
    assert(es.take(1).drop_last() =~= es.take(0));
    assert(es.take(2).drop_last() =~= es.take(1));
    assert(es.take(3).drop_last() =~= es.take(2));
    assert(es.take(4).drop_last() =~= es.take(3));
    assert(es.take(4) =~= es);
    assert(run_events(s, es.take(0)) == s);
    let s1 = run_events(s, es.take(1));
    assert(s1.open);
    let s2 = run_events(s, es.take(2));
    assert(s2.open);
    let s3 = run_events(s, es.take(3));
    assert(s3.open);
}

} // verus!
