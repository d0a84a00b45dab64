//! What holds of the network agent's transition, whatever the driver
//! reports and whatever the clock says.

use crate::dispatch::{datagram_keeps_lease_valid, lease_of};
use crate::event::{CmdView, EventView};
use crate::machine::{
    due, failure_text, local_bind, peer_of, subscribe_datagram, subscribe_interval,
    thump_datagram, ActionView, AgentView, FailureView, InputView, Phase, MIN_SUBSCRIBE_SECS,
    PAUSE_MS, RECEIVE_TIMEOUT_MS, THUMP_INTERVAL_MS,
};
use crate::osc::{decoded, received, ArgView, MessageView, PacketView};
use vstd::prelude::*;

verus! {

/// Every step leads from a well-formed state to a well-formed state.
pub proof fn step_keeps_wf(state: AgentView, input: InputView, now: u64)
    ensures
        state.wf() ==> state.step(input, now).state.wf(),
{
    if state.wf() {
        if let InputView::Datagram(bytes) = input {
            datagram_keeps_lease_valid(bytes, state.lease);
        }
    }
}

/// Whatever the driver reports, in whatever order and at whatever times,
/// the agent stays in a well-formed state.
pub proof fn every_reached_state_is_wf(host: Seq<char>, inputs: Seq<(InputView, u64)>)
    ensures
        AgentView::initial(host).after(inputs).wf(),
    decreases inputs.len(),
{
    if inputs.len() > 0 {
        every_reached_state_is_wf(host, inputs.drop_last());
        step_keeps_wf(
            AgentView::initial(host).after(inputs.drop_last()),
            inputs.last().0,
            inputs.last().1,
        );
    }
}

/// The two datagrams that the agent sends, byte for byte: the address, NULs
/// up to a multiple of four, a comma and three NULs.
pub proof fn outbound_datagrams()
    ensures
        subscribe_datagram() == seq![
            0x2Fu8, 0x73, 0x75, 0x62, 0x73, 0x63, 0x72, 0x69, 0x62, 0x65, 0, 0, 0x2C, 0, 0, 0,
        ],
        thump_datagram() == seq![0x2Fu8, 0x74, 0x68, 0x75, 0x6D, 0x70, 0, 0, 0x2C, 0, 0, 0],
{
    reveal_strlit("/subscribe");
    reveal_strlit("/thump");
    vstd::utf8::is_ascii_chars_encode_utf8("/subscribe"@);
    vstd::utf8::is_ascii_chars_encode_utf8("/thump"@);
}

/// The time between two subscribe requests after the console granted
/// `expiry` seconds: half of that from four seconds on, else two seconds.
pub proof fn interval_after_subscribe_ok(expiry: i32)
    ensures
        subscribe_interval(lease_of(expiry)) >= MIN_SUBSCRIBE_SECS,
        expiry >= 4 ==> subscribe_interval(lease_of(expiry)) == expiry / 2,
        expiry < 4 ==> subscribe_interval(lease_of(expiry)) == MIN_SUBSCRIBE_SECS,
        subscribe_interval(0) == MIN_SUBSCRIBE_SECS,
{
}

/// With an endpoint, and no command waiting, a subscribe request is sent
/// exactly when the interval of the lease has passed since the last one, or
/// none was sent on this endpoint: not sooner, and at the first round
/// after.
pub proof fn subscribe_on_schedule(state: AgentView, now: u64)
    requires
        state.phase is Polling,
        state.endpoint is Bound,
    ensures
        state.step(InputView::NoCommand, now).action == ActionView::Send(subscribe_datagram())
            <==> due(state.last_subscribe, now, subscribe_interval(state.lease) * 1000),
        state.step(InputView::NoCommand, now).state.phase is Subscribing <==> due(
            state.last_subscribe,
            now,
            subscribe_interval(state.lease) * 1000,
        ),
{
    outbound_datagrams();
}

/// When the console grants `expiry` seconds in answer to a subscribe
/// request, the display is told of the lease, and the request is renewed at
/// the first round that is half the lease after the request, two seconds at
/// least, and at none before.
pub proof fn renewal_after_subscribe_ok(
    state: AgentView,
    datagram: Seq<u8>,
    expiry: i32,
    t0: u64,
    t1: u64,
    now: u64,
)
    requires
        state.phase is Receiving,
        state.endpoint is Bound,
    ensures
        decoded(received(datagram)) == Some(
            PacketView::Message(
                MessageView { addr: "/subscribeok"@, args: seq![ArgView::Int(expiry)] },
            ),
        ) ==> ({
            let granted = state.step(InputView::Datagram(datagram), t0);
            let slept = granted.state.step(InputView::Slept, t1);
            let polled = slept.state.step(InputView::NoCommand, now);
            &&& granted.events == seq![EventView::SubscribeOk(lease_of(expiry))]
            &&& granted.state.lease == lease_of(expiry)
            &&& polled.action == ActionView::Send(subscribe_datagram()) <==> due(
                state.last_subscribe,
                now,
                subscribe_interval(lease_of(expiry)) * 1000,
            )
        }),
{
    outbound_datagrams();
}

/// The time of a subscribe request is that at which the driver reports it
/// sent.
pub proof fn subscribe_is_timed_when_sent(state: AgentView, now: u64)
    requires
        state.phase is Subscribing,
    ensures
        state.step(InputView::Sent, now).state.last_subscribe == Some(now),
        state.step(InputView::Sent, now).state.lease == state.lease,
{
}

/// Once the subscribe request of a round is dealt with, a ping is sent
/// exactly when two seconds have passed since the last one, or none was
/// sent on this endpoint.
pub proof fn thump_on_schedule(state: AgentView, now: u64)
    requires
        state.endpoint is Bound,
        state.phase is Subscribing || (state.phase is Polling && !due(
            state.last_subscribe,
            now,
            subscribe_interval(state.lease) * 1000,
        )),
    ensures
        ({
            let input = if state.phase is Subscribing {
                InputView::Sent
            } else {
                InputView::NoCommand
            };
            &&& state.step(input, now).action == ActionView::Send(thump_datagram()) <==> due(
                state.last_thump,
                now,
                THUMP_INTERVAL_MS as int,
            )
            &&& state.step(input, now).action != ActionView::Send(thump_datagram())
                ==> state.step(input, now).action == ActionView::Receive(RECEIVE_TIMEOUT_MS)
        }),
{
    outbound_datagrams();
}

/// Before the agent first waits for a datagram on an endpoint, it has sent
/// a subscribe request and a ping on it.
pub proof fn sends_before_it_receives(state: AgentView, input: InputView, now: u64)
    requires
        state.wf(),
    ensures
        state.step(input, now).action is Receive ==> {
            &&& state.step(input, now).state.endpoint is Bound
            &&& state.step(input, now).state.last_subscribe is Some
            &&& state.step(input, now).state.last_thump is Some
        },
{
    step_keeps_wf(state, input, now);
}

/// A new endpoint starts without a lease, and its first round sends a
/// subscribe request and then a ping, whatever the clock says.
pub proof fn new_endpoint_subscribes_and_pings(state: AgentView, now: u64, later: u64)
    requires
        state.phase is Rebinding || state.phase is Reconnecting,
    ensures
        ({
            let bound = state.step(InputView::Bound, now);
            let sent = bound.state.step(InputView::Sent, later);
            &&& bound.state.endpoint is Bound
            &&& bound.state.lease == 0
            &&& bound.action == ActionView::Send(subscribe_datagram())
            &&& sent.action == ActionView::Send(thump_datagram())
        }),
{
}

/// The same at start-up, where the command queue is looked at first.
pub proof fn first_endpoint_subscribes_and_pings(host: Seq<char>, t0: u64, t1: u64, t2: u64)
    ensures
        ({
            let start = AgentView::initial(host);
            let bound = start.step(InputView::Bound, t0);
            let polled = bound.state.step(InputView::NoCommand, t1);
            let sent = polled.state.step(InputView::Sent, t2);
            &&& start.pending() == ActionView::Bind(local_bind(), peer_of(host))
            &&& bound.action == ActionView::Poll
            &&& polled.action == ActionView::Send(subscribe_datagram())
            &&& sent.action == ActionView::Send(thump_datagram())
        }),
{
}

/// A command to set a host that cannot be resolved, or reached, leaves the
/// agent without an endpoint and without a lease, under the new host, and
/// gives exactly one event: the error with its reason. Nothing is sent.
pub proof fn failed_host_change(
    state: AgentView,
    host: Seq<char>,
    failure: FailureView,
    now: u64,
    later: u64,
)
    requires
        state.phase is Polling,
    ensures
        ({
            let asked = state.step(InputView::Command(CmdView::SetHost(host)), now);
            let failed = asked.state.step(InputView::BindFailed(failure), later);
            &&& asked.events == Seq::<EventView>::empty()
            &&& asked.action == ActionView::Bind(local_bind(), peer_of(host))
            &&& failed.state.host == host
            &&& failed.state.endpoint is Absent
            &&& failed.state.lease == 0
            &&& failed.events == seq![EventView::Error(failure_text(host, failure))]
            &&& failed.action == ActionView::Sleep(PAUSE_MS)
        }),
{
}

/// Without an endpoint the agent only pauses and looks at the command
/// queue, until a host is set.
pub proof fn idle_without_endpoint(state: AgentView, now: u64)
    requires
        state.endpoint is Absent,
    ensures
        state.phase is Polling ==> state.step(InputView::NoCommand, now) == state.enter(
            Phase::Sleeping,
        ),
        state.phase is Sleeping ==> state.step(InputView::Slept, now) == state.enter(
            Phase::Polling,
        ),
{
}

/// A datagram goes out only on a bound endpoint.
pub proof fn sends_only_when_bound(state: AgentView, input: InputView, now: u64)
    requires
        state.wf(),
    ensures
        state.step(input, now).action is Send ==> state.step(input, now).state.endpoint is Bound,
{
}

/// An I/O error on the endpoint, a failed send or a receive that failed
/// other than by its timeout, costs the endpoint: the round ends, and the
/// next one replaces it without resolving the host again, unless a command
/// sets a host first.
pub proof fn io_error_replaces_endpoint(state: AgentView, t0: u64, t1: u64, t2: u64)
    requires
        state.phase is Subscribing || state.phase is Thumping || state.phase is Receiving,
    ensures
        ({
            let input = if state.phase is Receiving {
                InputView::ReceiveFailed
            } else {
                InputView::SendFailed
            };
            let failed = state.step(input, t0);
            let slept = failed.state.step(InputView::Slept, t1);
            let polled = slept.state.step(InputView::NoCommand, t2);
            &&& failed.state.endpoint is Stale
            &&& failed.action == ActionView::Sleep(PAUSE_MS)
            &&& slept.action == ActionView::Poll
            &&& polled.action == ActionView::Reconnect(local_bind())
        }),
{
}

/// A receive that runs into its timeout changes nothing.
pub proof fn timeout_changes_nothing(state: AgentView, now: u64)
    requires
        state.phase is Receiving,
    ensures
        state.step(InputView::TimedOut, now) == state.enter(Phase::Sleeping),
{
}

/// When a host is set while a receive is under way, the agent finishes the
/// receive, pauses, takes the command, and asks for the endpoint of the new
/// host; it sends nothing until that endpoint is bound.
pub proof fn host_change_binds_before_sending(
    state: AgentView,
    outcome: InputView,
    host: Seq<char>,
    t0: u64,
    t1: u64,
    t2: u64,
)
    requires
        state.phase is Receiving,
        outcome is Datagram || outcome is TimedOut || outcome is ReceiveFailed,
    ensures
        ({
            let received = state.step(outcome, t0);
            let slept = received.state.step(InputView::Slept, t1);
            let asked = slept.state.step(InputView::Command(CmdView::SetHost(host)), t2);
            &&& received.action == ActionView::Sleep(PAUSE_MS)
            &&& slept.action == ActionView::Poll
            &&& asked.action == ActionView::Bind(local_bind(), peer_of(host))
            &&& asked.state.host == host
            &&& forall|input: InputView, at: u64| #[trigger]
                asked.state.step(input, at).action is Send ==> input is Bound
        }),
{
}

/// When the command queue is closed the agent stops at the next look at
/// it, and stays stopped.
pub proof fn closed_queue_stops(state: AgentView, input: InputView, now: u64)
    ensures
        state.phase is Polling ==> state.step(InputView::Closed, now) == state.enter(
            Phase::Stopped,
        ),
        state.phase is Stopped ==> state.step(input, now) == state.enter(Phase::Stopped),
        state.enter(Phase::Stopped).action == ActionView::Stop,
{
}

} // verus!
