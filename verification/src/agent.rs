//! The network agent's decisions. The agent itself touches no socket, clock
//! or queue: it is told what happened and answers with what to do next. Its
//! driver performs each [`Action`], publishes the events that come with it,
//! and reports the outcome as the next [`Input`].

use crate::dispatch::on_datagram;
use crate::laws::step_keeps_wf;
use crate::event::{events_view, NetCmd, NetEvent};
use crate::machine::{
    due, failure_text, peer_of, subscribe_interval, ActionView, AgentView, Endpoint,
    FailureView, InputView, Phase, MIN_SUBSCRIBE_SECS, PAUSE_MS, RECEIVE_TIMEOUT_MS,
    THUMP_INTERVAL_MS,
};
use crate::osc::outbound;
use vstd::prelude::*;

verus! {

/// Why an endpoint could not be set up.
#[derive(Clone, Debug, PartialEq, Eq)]
pub enum BindFailure {
    /// The resolver reported an error; its text.
    Resolve(String),
    /// The resolver returned no address.
    NoAddress,
    /// No local socket could be bound; the error's text.
    Socket(String),
    /// The socket could not be connected; the peer's address and the
    /// error's text.
    Connect(String, String),
}

impl View for BindFailure {
    type V = FailureView;

    open spec fn view(&self) -> FailureView {
        match self {
            BindFailure::Resolve(reason) => FailureView::Resolve(reason@),
            BindFailure::NoAddress => FailureView::NoAddress,
            BindFailure::Socket(reason) => FailureView::Socket(reason@),
            BindFailure::Connect(peer, reason) => FailureView::Connect(peer@, reason@),
        }
    }
}

/// What the driver reports back to the agent.
#[derive(Clone, Debug, PartialEq, Eq)]
pub enum Input {
    /// An endpoint was set up.
    Bound,
    /// No endpoint could be set up.
    BindFailed(BindFailure),
    /// A command was waiting.
    Command(NetCmd),
    /// No command was waiting.
    NoCommand,
    /// The command queue is closed.
    Closed,
    /// The datagram was sent.
    Sent,
    /// The datagram could not be sent.
    SendFailed,
    /// A datagram arrived.
    Datagram(Vec<u8>),
    /// The receive ran into its timeout.
    TimedOut,
    /// The receive failed for another reason.
    ReceiveFailed,
    /// The pause is over.
    Slept,
}

impl View for Input {
    type V = InputView;

    open spec fn view(&self) -> InputView {
        match self {
            Input::Bound => InputView::Bound,
            Input::BindFailed(failure) => InputView::BindFailed(failure@),
            Input::Command(cmd) => InputView::Command(cmd@),
            Input::NoCommand => InputView::NoCommand,
            Input::Closed => InputView::Closed,
            Input::Sent => InputView::Sent,
            Input::SendFailed => InputView::SendFailed,
            Input::Datagram(bytes) => InputView::Datagram(bytes@),
            Input::TimedOut => InputView::TimedOut,
            Input::ReceiveFailed => InputView::ReceiveFailed,
            Input::Slept => InputView::Slept,
        }
    }
}

/// What the driver is to do next.
#[derive(Clone, Debug, PartialEq, Eq)]
pub enum Action {
    /// Drop any endpoint held so far. Resolve the second address, a
    /// `host:port`, and take the first address that comes back; bind a
    /// socket to the first address, a local one; connect it to the peer.
    Bind(String, String),
    /// The same without resolving: bind a socket to this local address and
    /// connect it to the peer address that was resolved last.
    Reconnect(String),
    /// Take at most one command from the queue, without waiting.
    Poll,
    /// Send this datagram.
    Send(Vec<u8>),
    /// Wait for one datagram, no longer than this many milliseconds.
    Receive(u64),
    /// Pause for this many milliseconds.
    Sleep(u64),
    /// Leave the loop.
    Stop,
}

impl View for Action {
    type V = ActionView;

    open spec fn view(&self) -> ActionView {
        match self {
            Action::Bind(local, peer) => ActionView::Bind(local@, peer@),
            Action::Reconnect(local) => ActionView::Reconnect(local@),
            Action::Poll => ActionView::Poll,
            Action::Send(bytes) => ActionView::Send(bytes@),
            Action::Receive(ms) => ActionView::Receive(*ms),
            Action::Sleep(ms) => ActionView::Sleep(*ms),
            Action::Stop => ActionView::Stop,
        }
    }
}

/// The agent's answer to one input: events to publish, in order, and then
/// the action to perform.
#[derive(Clone, Debug, PartialEq, Eq)]
pub struct Step {
    pub events: Vec<NetEvent>,
    pub action: Action,
}

/// The agent's state: the host it talks to, its endpoint, the lease of its
/// subscription, and when it last sent a subscribe request and a ping.
#[derive(Clone, Debug, PartialEq, Eq)]
pub struct Agent {
    host: String,
    endpoint: Endpoint,
    lease: u32,
    last_subscribe: Option<u64>,
    last_thump: Option<u64>,
    phase: Phase,
}

impl View for Agent {
    type V = AgentView;

    closed spec fn view(&self) -> AgentView {
        AgentView {
            host: self.host@,
            endpoint: self.endpoint,
            lease: self.lease,
            last_subscribe: self.last_subscribe,
            last_thump: self.last_thump,
            phase: self.phase,
        }
    }
}

/// The address to resolve for `host`.
pub fn peer_address(host: &str) -> (peer: String)
    ensures
        peer@ == peer_of(host@),
{
    let mut peer = String::from_str(host);
    peer.append(":32000");
    peer
}

/// The reason to show when no endpoint for `host` could be set up.
pub fn failure_message(host: &str, failure: &BindFailure) -> (text: String)
    ensures
        text@ == failure_text(host@, failure@),
{
    match failure {
        BindFailure::Resolve(reason) => {
            let mut text = String::from_str("Invalid host address '");
            text.append(host);
            text.append("': ");
            text.append(reason.as_str());
            text
        },
        BindFailure::NoAddress => {
            let mut text = String::from_str("Could not resolve host '");
            text.append(host);
            text.append("'");
            text
        },
        BindFailure::Socket(reason) => {
            let mut text = String::from_str("Failed to bind UDP socket: ");
            text.append(reason.as_str());
            text
        },
        BindFailure::Connect(peer, reason) => {
            let mut text = String::from_str("Failed to connect to ");
            text.append(peer.as_str());
            text.append(": ");
            text.append(reason.as_str());
            text
        },
    }
}

/// Whether `interval` milliseconds have passed at `now` since `last`.
fn is_due(last: Option<u64>, now: u64, interval: u64) -> (d: bool)
    ensures
        d == due(last, now, interval as int),
{
    match last {
        Some(at) => now >= at && now - at >= interval,
        None => true,
    }
}

impl Agent {
    /// An agent for the console at `host`, about to set up its first
    /// endpoint: the driver starts by performing [`Agent::pending`].
    pub fn new(host: String) -> (agent: Agent)
        ensures
            agent@ == AgentView::initial(host@),
            agent@.wf(),
    {
        Agent {
            host,
            endpoint: Endpoint::Absent,
            lease: 0,
            last_subscribe: None,
            last_thump: None,
            phase: Phase::Booting,
        }
    }

    /// The host that the agent talks to.
    pub fn host(&self) -> (host: &String)
        ensures
            host@ == self@.host,
    {
        &self.host
    }

    /// What the agent has of its endpoint.
    pub fn endpoint(&self) -> (endpoint: Endpoint)
        ensures
            endpoint == self@.endpoint,
    {
        self.endpoint
    }

    /// The lease of the subscription in seconds, 0 where none is held.
    pub fn lease(&self) -> (lease: u32)
        ensures
            lease == self@.lease,
    {
        self.lease
    }

    /// When the last subscribe request went out on this endpoint.
    pub fn last_subscribe(&self) -> (at: Option<u64>)
        ensures
            at == self@.last_subscribe,
    {
        self.last_subscribe
    }

    /// When the last ping went out on this endpoint.
    pub fn last_thump(&self) -> (at: Option<u64>)
        ensures
            at == self@.last_thump,
    {
        self.last_thump
    }

    /// Where the agent stands in its loop.
    pub fn phase(&self) -> (phase: Phase)
        ensures
            phase == self@.phase,
    {
        self.phase
    }

    /// Seconds between two subscribe requests under the lease held now.
    pub fn subscribe_secs(&self) -> (secs: u32)
        ensures
            secs == subscribe_interval(self@.lease),
            secs >= MIN_SUBSCRIBE_SECS,
    {
        if self.lease / 2 > MIN_SUBSCRIBE_SECS {
            self.lease / 2
        } else {
            MIN_SUBSCRIBE_SECS
        }
    }

    /// The action that the agent is waiting on.
    pub fn pending(&self) -> (action: Action)
        ensures
            action@ == self@.pending(),
    {
        match self.phase {
            Phase::Booting => Action::Bind(
                String::from_str("0.0.0.0:0"),
                peer_address(self.host.as_str()),
            ),
            Phase::Polling => Action::Poll,
            Phase::Rebinding => Action::Bind(
                String::from_str("0.0.0.0:0"),
                peer_address(self.host.as_str()),
            ),
            Phase::Reconnecting => Action::Reconnect(String::from_str("0.0.0.0:0")),
            Phase::Sleeping => Action::Sleep(PAUSE_MS),
            Phase::Subscribing => Action::Send(outbound("/subscribe")),
            Phase::Thumping => Action::Send(outbound("/thump")),
            Phase::Receiving => Action::Receive(RECEIVE_TIMEOUT_MS),
            Phase::Stopped => Action::Stop,
        }
    }

    /// Moves to `phase` and asks for its action.
    fn enter(&mut self, phase: Phase) -> (action: Action)
        ensures
            final(self)@ == old(self)@.enter(phase).state,
            action@ == old(self)@.enter(phase).action,
    {
        self.phase = phase;
        self.pending()
    }

    /// Gives up lease and timers for a new endpoint, or for none.
    fn renew(&mut self, endpoint: Endpoint)
        ensures
            final(self)@ == old(self)@.renewed(endpoint),
    {
        self.endpoint = endpoint;
        self.lease = 0;
        self.last_subscribe = None;
        self.last_thump = None;
    }

    /// Goes on with the round after the subscribe request.
    fn after_subscribe(&mut self, now: u64) -> (action: Action)
        ensures
            final(self)@ == old(self)@.after_subscribe(now).state,
            action@ == old(self)@.after_subscribe(now).action,
    {
        if is_due(self.last_thump, now, THUMP_INTERVAL_MS) {
            self.enter(Phase::Thumping)
        } else {
            self.enter(Phase::Receiving)
        }
    }

    /// Goes on with the round after the command queue.
    fn round(&mut self, now: u64) -> (action: Action)
        ensures
            final(self)@ == old(self)@.round(now).state,
            action@ == old(self)@.round(now).action,
    {
        match self.endpoint {
            Endpoint::Absent => self.enter(Phase::Sleeping),
            Endpoint::Stale => self.enter(Phase::Reconnecting),
            Endpoint::Bound => {
                let secs: u64 = self.subscribe_secs() as u64;
                if is_due(self.last_subscribe, now, secs * 1000) {
                    self.enter(Phase::Subscribing)
                } else {
                    self.after_subscribe(now)
                }
            },
        }
    }

    /// Ends an attempt to set up an endpoint: takes the new endpoint, or
    /// none and the reason why. Returns the events to publish.
    fn settle(&mut self, failure: Option<BindFailure>) -> (events: Vec<NetEvent>)
        ensures
            match failure {
                Some(f) => Some((final(self)@, events_view(events@))) == old(self)@.settled(
                    InputView::BindFailed(f@),
                ),
                None => Some((final(self)@, events_view(events@))) == old(self)@.settled(
                    InputView::Bound,
                ),
            },
    {
        let mut events: Vec<NetEvent> = Vec::new();
        match failure {
            Some(f) => {
                let reason = failure_message(self.host.as_str(), &f);
                events.push(NetEvent::Error(reason));
                self.renew(Endpoint::Absent);
            },
            None => {
                self.renew(Endpoint::Bound);
            },
        }
        events
    }

    /// Ends the round after an I/O error on the endpoint.
    fn drop_endpoint(&mut self) -> (action: Action)
        ensures
            final(self)@ == old(self)@.dropped().state,
            action@ == old(self)@.dropped().action,
    {
        self.endpoint = Endpoint::Stale;
        self.enter(Phase::Sleeping)
    }

    /// Takes in what the driver reports at `now`, a time in milliseconds on
    /// a clock that does not run backwards. Returns the events to publish
    /// and the action to perform next.
    pub fn step(&mut self, input: Input, now: u64) -> (step: Step)
        ensures
            final(self)@ == old(self)@.step(input@, now).state,
            events_view(step.events@) == old(self)@.step(input@, now).events,
            step.action@ == old(self)@.step(input@, now).action,
            old(self)@.wf() ==> final(self)@.wf(),
    {
        proof {
            step_keeps_wf(self@, input@, now);
        }
        let mut events: Vec<NetEvent> = Vec::new();
        let action = match self.phase {
            Phase::Booting => match input {
                Input::Bound => {
                    events = self.settle(None);
                    self.enter(Phase::Polling)
                },
                Input::BindFailed(failure) => {
                    events = self.settle(Some(failure));
                    self.enter(Phase::Polling)
                },
                _ => self.pending(),
            },
            Phase::Polling => match input {
                Input::Command(NetCmd::SetHost(host)) => {
                    self.host = host;
                    self.enter(Phase::Rebinding)
                },
                Input::NoCommand => self.round(now),
                Input::Closed => self.enter(Phase::Stopped),
                _ => self.pending(),
            },
            Phase::Rebinding | Phase::Reconnecting => match input {
                Input::Bound => {
                    events = self.settle(None);
                    self.round(now)
                },
                Input::BindFailed(failure) => {
                    events = self.settle(Some(failure));
                    self.round(now)
                },
                _ => self.pending(),
            },
            Phase::Sleeping => match input {
                Input::Slept => self.enter(Phase::Polling),
                _ => self.pending(),
            },
            Phase::Subscribing => match input {
                Input::Sent => {
                    self.last_subscribe = Some(now);
                    self.after_subscribe(now)
                },
                Input::SendFailed => self.drop_endpoint(),
                _ => self.pending(),
            },
            Phase::Thumping => match input {
                Input::Sent => {
                    self.last_thump = Some(now);
                    self.enter(Phase::Receiving)
                },
                Input::SendFailed => self.drop_endpoint(),
                _ => self.pending(),
            },
            Phase::Receiving => match input {
                Input::Datagram(bytes) => {
                    let mut lease: u32 = self.lease;
                    events = on_datagram(bytes.as_slice(), &mut lease);
                    self.lease = lease;
                    self.enter(Phase::Sleeping)
                },
                Input::TimedOut => self.enter(Phase::Sleeping),
                Input::ReceiveFailed => self.drop_endpoint(),
                _ => self.pending(),
            },
            Phase::Stopped => self.pending(),
        };
        Step { events, action }
    }
}

} // verus!
