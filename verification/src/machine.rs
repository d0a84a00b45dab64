//! The network agent as a state machine over plain values: its states, what
//! it is told, what it asks for, and the transition between them.

use crate::dispatch::{datagram_events, datagram_lease, valid_lease};
use crate::event::{CmdView, EventView};
use crate::osc::bare_message;
use vstd::prelude::*;

verus! {

/// Longest wait of one receive, in milliseconds.
pub const RECEIVE_TIMEOUT_MS: u64 = 200;

/// Length of the pause in each round of the loop, in milliseconds.
pub const PAUSE_MS: u64 = 100;

/// Time between two keep-alive pings, in milliseconds.
pub const THUMP_INTERVAL_MS: u64 = 2000;

/// Shortest time between two subscribe requests, in seconds.
pub const MIN_SUBSCRIBE_SECS: u32 = 2;

/// What the agent has of its UDP endpoint.
#[derive(Clone, Copy, Debug, PartialEq, Eq)]
pub enum Endpoint {
    /// None, and none is to be made until a new host is set.
    Absent,
    /// None since an I/O error; a fresh one is made on the next round,
    /// towards the address that was resolved last.
    Stale,
    /// One that is bound and connected to the console.
    Bound,
}

/// Where the agent stands in its loop: which outcome it waits for.
#[derive(Clone, Copy, Debug, PartialEq, Eq)]
pub enum Phase {
    /// Start-up: the first endpoint is being set up.
    Booting,
    /// The command queue is being looked at.
    Polling,
    /// An endpoint for a newly set host is being set up.
    Rebinding,
    /// A stale endpoint is being replaced.
    Reconnecting,
    /// The round's pause.
    Sleeping,
    /// A subscribe request is being sent.
    Subscribing,
    /// A keep-alive ping is being sent.
    Thumping,
    /// A datagram is being waited for.
    Receiving,
    /// The command queue was closed; the agent is done.
    Stopped,
}

/// Why an endpoint could not be set up.
pub enum FailureView {
    Resolve(Seq<char>),
    NoAddress,
    Socket(Seq<char>),
    Connect(Seq<char>, Seq<char>),
}

/// What the driver reports back to the agent.
pub enum InputView {
    Bound,
    BindFailed(FailureView),
    Command(CmdView),
    NoCommand,
    Closed,
    Sent,
    SendFailed,
    Datagram(Seq<u8>),
    TimedOut,
    ReceiveFailed,
    Slept,
}

/// What the driver is to do next.
pub enum ActionView {
    Bind(Seq<char>, Seq<char>),
    Reconnect(Seq<char>),
    Poll,
    Send(Seq<u8>),
    Receive(u64),
    Sleep(u64),
    Stop,
}

/// Mathematical value of an [`Agent`]. Times are milliseconds on the
/// driver's clock; `None` says that nothing was sent on this endpoint yet.
pub struct AgentView {
    pub host: Seq<char>,
    pub endpoint: Endpoint,
    pub lease: u32,
    pub last_subscribe: Option<u64>,
    pub last_thump: Option<u64>,
    pub phase: Phase,
}

/// A state, its events and its action: what one step yields.
pub struct Transition {
    pub state: AgentView,
    pub events: Seq<EventView>,
    pub action: ActionView,
}

/// The local address of every endpoint: any interface, a port of the
/// system's choice.
pub open spec fn local_bind() -> Seq<char> {
    "0.0.0.0:0"@
}

/// The address that is resolved for a host: the host, a colon and the
/// console's port.
pub open spec fn peer_of(host: Seq<char>) -> Seq<char> {
    host + ":32000"@
}

/// The reason that the display is given when no endpoint could be set up.
pub open spec fn failure_text(host: Seq<char>, failure: FailureView) -> Seq<char> {
    match failure {
        FailureView::Resolve(reason) => "Invalid host address '"@ + host + "': "@ + reason,
        FailureView::NoAddress => "Could not resolve host '"@ + host + "'"@,
        FailureView::Socket(reason) => "Failed to bind UDP socket: "@ + reason,
        FailureView::Connect(peer, reason) => "Failed to connect to "@ + peer + ": "@ + reason,
    }
}

/// The datagram that asks for the subscription, or renews it.
pub open spec fn subscribe_datagram() -> Seq<u8> {
    bare_message("/subscribe"@)
}

/// The datagram of the keep-alive ping.
pub open spec fn thump_datagram() -> Seq<u8> {
    bare_message("/thump"@)
}

/// Seconds between two subscribe requests under a lease: half the lease,
/// but never under [`MIN_SUBSCRIBE_SECS`]. Where no lease is held, which is
/// written as a lease of 0, that is the minimum.
pub open spec fn subscribe_interval(lease: u32) -> int {
    if lease / 2 > MIN_SUBSCRIBE_SECS {
        lease as int / 2
    } else {
        MIN_SUBSCRIBE_SECS as int
    }
}

/// Whether something last sent at `last` is to be sent again at `now`, with
/// `interval` milliseconds between two sends. What was never sent is due.
pub open spec fn due(last: Option<u64>, now: u64, interval: int) -> bool {
    match last {
        Some(at) => now - at >= interval,
        None => true,
    }
}

impl AgentView {
    /// The agent at start-up, for the console at `host`: without an
    /// endpoint, about to set up its first.
    pub open spec fn initial(host: Seq<char>) -> AgentView {
        AgentView {
            host,
            endpoint: Endpoint::Absent,
            lease: 0,
            last_subscribe: None,
            last_thump: None,
            phase: Phase::Booting,
        }
    }

    /// The state after a run of inputs, each with the time at which it
    /// arrived.
    pub open spec fn after(self, inputs: Seq<(InputView, u64)>) -> AgentView
        decreases inputs.len(),
    {
        if inputs.len() == 0 {
            self
        } else {
            self.after(inputs.drop_last()).step(inputs.last().0, inputs.last().1).state
        }
    }

    /// What holds of every state that the agent reaches. It sends and
    /// receives only on a bound endpoint, and replaces only a stale one. It
    /// waits for a datagram only on an endpoint on which it has sent a
    /// subscribe request and a ping. Without an endpoint it holds no lease
    /// and no time of a send, and it never holds a lease under the shortest
    /// one.
    pub open spec fn wf(self) -> bool {
        &&& (self.phase is Subscribing || self.phase is Thumping || self.phase is Receiving)
            ==> self.endpoint is Bound
        &&& self.phase is Reconnecting ==> self.endpoint is Stale
        &&& self.phase is Booting ==> self.endpoint is Absent
        &&& (self.phase is Thumping || self.phase is Receiving) ==> self.last_subscribe is Some
        &&& self.phase is Receiving ==> self.last_thump is Some
        &&& self.endpoint is Absent ==> self.lease == 0 && self.last_subscribe is None
            && self.last_thump is None
        &&& valid_lease(self.lease)
    }

    /// The state once a new endpoint was set up, or failed to be: the lease
    /// is given up and both timers start over.
    pub open spec fn renewed(self, endpoint: Endpoint) -> AgentView {
        AgentView { endpoint, lease: 0, last_subscribe: None, last_thump: None, ..self }
    }

    /// The action that the agent is waiting on.
    pub open spec fn pending(self) -> ActionView {
        match self.phase {
            Phase::Booting => ActionView::Bind(local_bind(), peer_of(self.host)),
            Phase::Polling => ActionView::Poll,
            Phase::Rebinding => ActionView::Bind(local_bind(), peer_of(self.host)),
            Phase::Reconnecting => ActionView::Reconnect(local_bind()),
            Phase::Sleeping => ActionView::Sleep(PAUSE_MS),
            Phase::Subscribing => ActionView::Send(subscribe_datagram()),
            Phase::Thumping => ActionView::Send(thump_datagram()),
            Phase::Receiving => ActionView::Receive(RECEIVE_TIMEOUT_MS),
            Phase::Stopped => ActionView::Stop,
        }
    }

    /// The state in another phase, with no event, and that phase's action.
    pub open spec fn enter(self, phase: Phase) -> Transition {
        let state = AgentView { phase, ..self };
        Transition { state, events: Seq::empty(), action: state.pending() }
    }

    /// The round once the subscribe request is dealt with: a ping if one is
    /// due, then the receive.
    pub open spec fn after_subscribe(self, now: u64) -> Transition {
        if due(self.last_thump, now, THUMP_INTERVAL_MS as int) {
            self.enter(Phase::Thumping)
        } else {
            self.enter(Phase::Receiving)
        }
    }

    /// The round once the command queue is dealt with. Without an endpoint
    /// the agent pauses, or replaces a stale one. With one it sends a
    /// subscribe request if one is due, and goes on from there.
    pub open spec fn round(self, now: u64) -> Transition {
        match self.endpoint {
            Endpoint::Absent => self.enter(Phase::Sleeping),
            Endpoint::Stale => self.enter(Phase::Reconnecting),
            Endpoint::Bound => if due(
                self.last_subscribe,
                now,
                subscribe_interval(self.lease) * 1000,
            ) {
                self.enter(Phase::Subscribing)
            } else {
                self.after_subscribe(now)
            },
        }
    }

    /// The step that ends an attempt to set up an endpoint. The lease is
    /// given up and both timers start over; a failure leaves the agent
    /// without an endpoint and is reported as the one event of the step.
    /// `None` where `input` is no outcome of such an attempt.
    pub open spec fn settled(self, input: InputView) -> Option<(AgentView, Seq<EventView>)> {
        match input {
            InputView::Bound => Some((self.renewed(Endpoint::Bound), Seq::empty())),
            InputView::BindFailed(failure) => Some(
                (
                    self.renewed(Endpoint::Absent),
                    seq![EventView::Error(failure_text(self.host, failure))],
                ),
            ),
            _ => None,
        }
    }

    /// The step that ends a round after an I/O error: the endpoint is given
    /// up, to be replaced on the next round.
    pub open spec fn dropped(self) -> Transition {
        AgentView { endpoint: Endpoint::Stale, ..self }.enter(Phase::Sleeping)
    }

    /// The agent's transition: the state after `input` arrived at `now`,
    /// the events to publish and the action to perform. An input that does
    /// not answer the pending action changes nothing, and the action is
    /// asked for again.
    pub open spec fn step(self, input: InputView, now: u64) -> Transition {
        match self.phase {
            Phase::Booting => match self.settled(input) {
                Some((state, events)) => Transition { events, ..state.enter(Phase::Polling) },
                None => self.enter(self.phase),
            },
            Phase::Polling => match input {
                InputView::Command(CmdView::SetHost(host)) => AgentView { host, ..self }.enter(
                    Phase::Rebinding,
                ),
                InputView::NoCommand => self.round(now),
                InputView::Closed => self.enter(Phase::Stopped),
                _ => self.enter(self.phase),
            },
            Phase::Rebinding | Phase::Reconnecting => match self.settled(input) {
                Some((state, events)) => Transition { events, ..state.round(now) },
                None => self.enter(self.phase),
            },
            Phase::Sleeping => match input {
                InputView::Slept => self.enter(Phase::Polling),
                _ => self.enter(self.phase),
            },
            Phase::Subscribing => match input {
                InputView::Sent => AgentView { last_subscribe: Some(now), ..self }.after_subscribe(
                    now,
                ),
                InputView::SendFailed => self.dropped(),
                _ => self.enter(self.phase),
            },
            Phase::Thumping => match input {
                InputView::Sent => AgentView { last_thump: Some(now), ..self }.enter(
                    Phase::Receiving,
                ),
                InputView::SendFailed => self.dropped(),
                _ => self.enter(self.phase),
            },
            Phase::Receiving => match input {
                InputView::Datagram(bytes) => Transition {
                    events: datagram_events(bytes),
                    ..AgentView { lease: datagram_lease(bytes, self.lease), ..self }.enter(
                        Phase::Sleeping,
                    )
                },
                InputView::TimedOut => self.enter(Phase::Sleeping),
                InputView::ReceiveFailed => self.dropped(),
                _ => self.enter(self.phase),
            },
            Phase::Stopped => self.enter(self.phase),
        }
    }
}

} // verus!
