//! What travels on the two queues between the network agent and the display.

use crate::cue::{CueInfo, CueView};
use vstd::prelude::*;

verus! {

/// Notification from the network agent to the display.
#[derive(Clone, Debug, PartialEq, Eq)]
pub enum NetEvent {
    /// The console fired a cue.
    CueFired(CueInfo),
    /// The console accepted the subscription; the lease in seconds.
    SubscribeOk(u32),
    /// The console refused the subscription.
    SubscribeFail,
    /// The console's keep-alive ping.
    Thump,
    /// The agent could not set up its endpoint; a readable reason.
    Error(String),
}

/// Mathematical value of a [`NetEvent`].
pub enum EventView {
    CueFired(CueView),
    SubscribeOk(u32),
    SubscribeFail,
    Thump,
    Error(Seq<char>),
}

impl View for NetEvent {
    type V = EventView;

    open spec fn view(&self) -> EventView {
        match self {
            NetEvent::CueFired(cue) => EventView::CueFired(cue@),
            NetEvent::SubscribeOk(lease) => EventView::SubscribeOk(*lease),
            NetEvent::SubscribeFail => EventView::SubscribeFail,
            NetEvent::Thump => EventView::Thump,
            NetEvent::Error(reason) => EventView::Error(reason@),
        }
    }
}

/// The values of a run of events, in order.
pub open spec fn events_view(events: Seq<NetEvent>) -> Seq<EventView> {
    Seq::new(events.len(), |i: int| events[i]@)
}

/// Control command from the display to the network agent.
#[derive(Clone, Debug, PartialEq, Eq)]
pub enum NetCmd {
    /// Talk to the console at this host from now on.
    SetHost(String),
}

/// Mathematical value of a [`NetCmd`].
pub enum CmdView {
    SetHost(Seq<char>),
}

impl View for NetCmd {
    type V = CmdView;

    open spec fn view(&self) -> CmdView {
        match self {
            NetCmd::SetHost(host) => CmdView::SetHost(host@),
        }
    }
}

} // verus!
