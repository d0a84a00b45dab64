//! The display's state: the latest cue, the status line, the settings
//! dialog, and how events and the user change them.

use crate::cue::{CueInfo, CueView};
use crate::event::{events_view, CmdView, EventView, NetCmd, NetEvent};
use crate::text::{blank, same_text, trim, trimmed, trimmed_has_clean_ends};
use vstd::prelude::*;

verus! {

/// What the display knows of the console's cues.
#[derive(Clone, Debug, PartialEq, Eq)]
pub struct CueState {
    /// The cue that was fired last.
    pub current: CueInfo,
    /// The cue to come. The protocol never tells it.
    pub next: CueInfo,
    /// Whether the console has accepted the subscription.
    pub connected: bool,
    /// When the latest cue or ping came in, in milliseconds on the
    /// display's clock.
    pub last_rx: Option<u64>,
}

/// Mathematical value of a [`CueState`].
pub struct CueStateView {
    pub current: CueView,
    pub next: CueView,
    pub connected: bool,
    pub last_rx: Option<u64>,
}

impl View for CueState {
    type V = CueStateView;

    open spec fn view(&self) -> CueStateView {
        CueStateView {
            current: self.current@,
            next: self.next@,
            connected: self.connected,
            last_rx: self.last_rx,
        }
    }
}

impl Default for CueState {
    fn default() -> (state: CueState)
        ensures
            state@ == (CueStateView {
                current: CueView::empty(),
                next: CueView::empty(),
                connected: false,
                last_rx: None,
            }),
    {
        CueState {
            current: CueInfo::default(),
            next: CueInfo::default(),
            connected: false,
            last_rx: None,
        }
    }
}

/// The display's state.
#[derive(Clone, Debug, PartialEq, Eq)]
pub struct TheatreMixApp {
    pub state: CueState,
    /// The host of the console in use.
    pub host: String,
    /// The status shown to the user.
    pub status: String,
    /// The host as the settings dialog has it under edit.
    pub host_edit: String,
    pub always_on_top: bool,
    pub show_settings: bool,
}

/// Mathematical value of a [`TheatreMixApp`].
pub struct AppView {
    pub state: CueStateView,
    pub host: Seq<char>,
    pub status: Seq<char>,
    pub host_edit: Seq<char>,
    pub always_on_top: bool,
    pub show_settings: bool,
}

impl View for TheatreMixApp {
    type V = AppView;

    open spec fn view(&self) -> AppView {
        AppView {
            state: self.state@,
            host: self.host@,
            status: self.status@,
            host_edit: self.host_edit@,
            always_on_top: self.always_on_top,
            show_settings: self.show_settings,
        }
    }
}

/// The later of the time held so far and `now`.
pub open spec fn latest(last: Option<u64>, now: u64) -> u64 {
    match last {
        Some(at) => if at > now {
            at
        } else {
            now
        },
        None => now,
    }
}

/// Whether the time `earlier` is not after `later`; no time comes first.
pub open spec fn not_after(earlier: Option<u64>, later: Option<u64>) -> bool {
    match (earlier, later) {
        (None, _) => true,
        (Some(_), None) => false,
        (Some(a), Some(b)) => a <= b,
    }
}

impl CueStateView {
    /// The cue state once an inbound packet was seen at `now`.
    pub open spec fn seen(self, now: u64) -> CueStateView {
        CueStateView { last_rx: Some(latest(self.last_rx, now)), ..self }
    }
}

impl AppView {
    /// The display at start-up, for the console at `host`.
    pub open spec fn initial(host: Seq<char>) -> AppView {
        AppView {
            state: CueStateView {
                current: CueView::empty(),
                next: CueView { text: "(not provided by OSC)"@, ..CueView::empty() },
                connected: false,
                last_rx: None,
            },
            host,
            status: "Connecting…"@,
            host_edit: Seq::empty(),
            always_on_top: false,
            show_settings: false,
        }
    }

    /// The display after the event `ev` came in at `now`.
    pub open spec fn applied(self, ev: EventView, now: u64) -> AppView {
        match ev {
            EventView::CueFired(cue) => AppView {
                state: CueStateView { current: cue, ..self.state.seen(now) },
                ..self
            },
            EventView::SubscribeOk(_) => AppView {
                state: CueStateView { connected: true, ..self.state },
                status: "Subscribed"@,
                ..self
            },
            EventView::SubscribeFail => AppView {
                state: CueStateView { connected: false, ..self.state },
                status: "Subscription failed"@,
                ..self
            },
            EventView::Thump => AppView { state: self.state.seen(now), ..self },
            EventView::Error(reason) => AppView {
                state: CueStateView { connected: false, ..self.state },
                status: "Error: "@ + reason,
                ..self
            },
        }
    }

    /// The display after the events `evs` came in at `now`, one after the
    /// other.
    pub open spec fn applied_all(self, evs: Seq<EventView>, now: u64) -> AppView
        decreases evs.len(),
    {
        if evs.len() == 0 {
            self
        } else {
            self.applied_all(evs.drop_last(), now).applied(evs.last(), now)
        }
    }

    /// The host that the settings dialog puts forward: the text under edit
    /// without the white space at either end, unless nothing is left of it
    /// or it is the host in use.
    pub open spec fn candidate(self) -> Option<Seq<char>> {
        if trimmed(self.host_edit).len() > 0 && trimmed(self.host_edit) != self.host {
            Some(trimmed(self.host_edit))
        } else {
            None
        }
    }

    /// The display after `host` was put forward and was resolved, or was
    /// not.
    pub open spec fn host_changed(self, host: Seq<char>, resolved: bool) -> AppView {
        if resolved {
            AppView {
                state: CueStateView { connected: false, ..self.state },
                host,
                status: "Reconnecting…"@,
                ..self
            }
        } else {
            AppView { status: "Invalid host: "@ + host, ..self }
        }
    }

    /// The host as the status line names it.
    pub open spec fn host_line(self) -> Seq<char> {
        "Host: "@ + self.host
    }

    /// The status as the status line gives it.
    pub open spec fn status_line(self) -> Seq<char> {
        "Status: "@ + self.status + if self.state.connected {
            Seq::empty()
        } else {
            " (waiting)"@
        }
    }

    /// Milliseconds since the latest cue or ping, if there was one.
    pub open spec fn age(self, now: u64) -> Option<u64> {
        match self.state.last_rx {
            Some(at) => Some(
                if now >= at {
                    (now - at) as u64
                } else {
                    0
                },
            ),
            None => None,
        }
    }
}

impl TheatreMixApp {
    /// The display at start-up.
    pub fn new(host: String) -> (app: TheatreMixApp)
        ensures
            app@ == AppView::initial(host@),
    {
        let mut state = CueState::default();
        state.next.text = String::from_str("(not provided by OSC)");
        TheatreMixApp {
            state,
            host,
            status: String::from_str("Connecting…"),
            host_edit: String::new(),
            always_on_top: false,
            show_settings: false,
        }
    }

    /// Notes that a packet was seen at `now`. The time held never moves
    /// back.
    fn seen(&mut self, now: u64)
        ensures
            final(self)@ == (AppView { state: old(self)@.state.seen(now), ..old(self)@ }),
    {
        let at: u64 = match self.state.last_rx {
            Some(at) => if at > now {
                at
            } else {
                now
            },
            None => now,
        };
        self.state.last_rx = Some(at);
    }

    /// Takes in one event from the agent, which came in at `now`,
    /// milliseconds on the display's clock.
    pub fn apply_event(&mut self, ev: NetEvent, now: u64)
        ensures
            final(self)@ == old(self)@.applied(ev@, now),
    {
        match ev {
            NetEvent::CueFired(info) => {
                self.state.current = info;
                self.seen(now);
            },
            NetEvent::SubscribeOk(_) => {
                self.state.connected = true;
                self.status = String::from_str("Subscribed");
            },
            NetEvent::SubscribeFail => {
                self.state.connected = false;
                self.status = String::from_str("Subscription failed");
            },
            NetEvent::Thump => {
                self.seen(now);
            },
            NetEvent::Error(msg) => {
                self.state.connected = false;
                let mut status = String::from_str("Error: ");
                status.append(msg.as_str());
                self.status = status;
            },
        }
    }

    /// Takes in, in their order, the events that were waiting at `now`.
    pub fn apply_events(&mut self, evs: Vec<NetEvent>, now: u64)
        ensures
            final(self)@ == old(self)@.applied_all(events_view(evs@), now),
    {
        let ghost start = self@;
        let ghost all = events_view(evs@);
        for ev in it: evs
            invariant
                all == events_view(it.seq()),
                self@ == start.applied_all(all.take(it.index() as int), now),
        {
            assert(all.take(it.index() + 1).drop_last() =~= all.take(it.index() as int));
            self.apply_event(ev, now);
        }
        assert(all.take(all.len() as int) =~= all);
    }

    /// The host that the settings dialog puts forward when the user asks to
    /// apply it, if any. The caller tries to resolve it and reports with
    /// [`TheatreMixApp::change_host`].
    pub fn host_candidate(&self) -> (host: Option<String>)
        ensures
            match host {
                Some(h) => self@.candidate() == Some(h@),
                None => self@.candidate() is None,
            },
    {
        let host = trim(self.host_edit.as_str());
        if !host.as_str().is_empty() && !same_text(host.as_str(), self.host.as_str()) {
            Some(host)
        } else {
            None
        }
    }

    /// Takes over `host` if it was resolved, and returns the command for
    /// the agent; else says that the host is invalid and keeps the old one.
    pub fn change_host(&mut self, host: String, resolved: bool) -> (cmd: Option<NetCmd>)
        ensures
            final(self)@ == old(self)@.host_changed(host@, resolved),
            match cmd {
                Some(c) => resolved && c@ == CmdView::SetHost(host@),
                None => !resolved,
            },
    {
        if resolved {
            self.host = host.clone();
            self.status = String::from_str("Reconnecting…");
            self.state.connected = false;
            Some(NetCmd::SetHost(host))
        } else {
            let mut status = String::from_str("Invalid host: ");
            status.append(host.as_str());
            self.status = status;
            None
        }
    }

    /// Puts the host in use into the settings dialog where nothing is under
    /// edit.
    pub fn prefill_host_edit(&mut self)
        ensures
            final(self)@ == (AppView {
                host_edit: if old(self)@.host_edit.len() == 0 {
                    old(self)@.host
                } else {
                    old(self)@.host_edit
                },
                ..old(self)@
            }),
    {
        if self.host_edit.as_str().is_empty() {
            self.host_edit = self.host.clone();
        }
    }

    /// The host as the status line names it.
    pub fn host_line(&self) -> (line: String)
        ensures
            line@ == self@.host_line(),
    {
        let mut line = String::from_str("Host: ");
        line.append(self.host.as_str());
        line
    }

    /// The status as the status line gives it.
    pub fn status_line(&self) -> (line: String)
        ensures
            line@ == self@.status_line(),
    {
        let mut line = String::from_str("Status: ");
        line.append(self.status.as_str());
        if !self.state.connected {
            line.append(" (waiting)");
        }
        line
    }

    /// Milliseconds since the latest cue or ping, if there was one.
    pub fn age(&self, now: u64) -> (age: Option<u64>)
        ensures
            age == self@.age(now),
    {
        match self.state.last_rx {
            Some(at) => Some(
                if now >= at {
                    now - at
                } else {
                    0
                },
            ),
            None => None,
        }
    }
}

/// A cue fired twice shows as it did after the first time; only the time of
/// the latest packet may move on.
pub proof fn cue_fired_twice(app: AppView, cue: CueView, first: u64, second: u64)
    ensures
        ({
            let once = app.applied(EventView::CueFired(cue), first);
            let twice = once.applied(EventView::CueFired(cue), second);
            &&& twice.state.current == once.state.current
            &&& twice == AppView {
                state: CueStateView { last_rx: twice.state.last_rx, ..once.state },
                ..once
            }
        }),
{
}

/// The time of the latest packet never moves back, whatever comes in and
/// whatever the clock says.
pub proof fn last_rx_never_moves_back(app: AppView, ev: EventView, now: u64)
    ensures
        not_after(app.state.last_rx, app.applied(ev, now).state.last_rx),
{
}

/// The display counts as connected after an event exactly if the event is a
/// subscribe-ok, or it was connected and the event is neither a
/// subscribe-fail nor an error. A change of host ends it too.
pub proof fn connected_only_while_subscribed(app: AppView, ev: EventView, now: u64, host: Seq<char>)
    ensures
        app.applied(ev, now).state.connected <==> ev is SubscribeOk || (app.state.connected
            && !(ev is SubscribeFail) && !(ev is Error)),
        !app.host_changed(host, true).state.connected,
        !AppView::initial(host).state.connected,
{
}

/// A host that is empty or all white space is never put forward, nor is
/// the host in use, however it is padded.
pub proof fn blank_host_is_not_put_forward(app: AppView)
    ensures
        blank(app.host_edit) ==> app.candidate() is None,
        trimmed(app.host_edit) == app.host ==> app.candidate() is None,
        app.candidate() matches Some(host) ==> host.len() > 0 && host != app.host,
{
    trimmed_has_clean_ends(app.host_edit);
}

/// No event touches the cue to come, the host or the settings dialog.
pub proof fn events_leave_settings_alone(app: AppView, ev: EventView, now: u64)
    ensures
        app.applied(ev, now).state.next == app.state.next,
        app.applied(ev, now).host == app.host,
        app.applied(ev, now).host_edit == app.host_edit,
        app.applied(ev, now).always_on_top == app.always_on_top,
        app.applied(ev, now).show_settings == app.show_settings,
{
}

} // verus!
