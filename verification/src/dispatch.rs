//! From inbound OSC messages to events: what each recognised address means,
//! and how a packet is taken apart.

use crate::cue::{CueInfo, CueView};
use crate::event::{events_view, EventView, NetEvent};
use crate::osc::{
    decoded, entry_view, read_packet, received, Arg, ArgView, Message, MessageView, Packet,
    PacketView, MAX_DATAGRAM,
};
use crate::text::same_text;
use vstd::prelude::*;

verus! {

/// Shortest lease the agent works with, in seconds.
pub const MIN_LEASE: u32 = 2;

/// The lease that the agent keeps when the console reports `expiry` seconds:
/// the same number, but never under [`MIN_LEASE`].
pub open spec fn lease_of(expiry: i32) -> u32 {
    if expiry < MIN_LEASE as i32 {
        MIN_LEASE
    } else {
        expiry as u32
    }
}

/// The string at position `i` of `args`, if there is an argument there and
/// it is a string.
pub open spec fn string_at(args: Seq<ArgView>, i: int) -> Option<Seq<char>> {
    if 0 <= i < args.len() {
        match args[i] {
            ArgView::Str(s) => Some(s),
            _ => None,
        }
    } else {
        None
    }
}

/// `s`, or the empty string where there is none.
pub open spec fn or_empty(s: Option<Seq<char>>) -> Seq<char> {
    match s {
        Some(s) => s,
        None => Seq::empty(),
    }
}

/// The cue that a `/cuefired` message with the arguments `args` reports:
/// number, text and colour are its first three arguments, each taken only
/// if it is there and is a string.
pub open spec fn cue_of(args: Seq<ArgView>) -> CueView {
    CueView {
        number: or_empty(string_at(args, 0)),
        text: or_empty(string_at(args, 1)),
        color: string_at(args, 2),
    }
}

/// The event that an inbound message stands for, `None` where it is ignored.
pub open spec fn event_of(msg: MessageView) -> Option<EventView> {
    if msg.addr == "/subscribeok"@ {
        if msg.args.len() > 0 && msg.args[0] is Int {
            Some(EventView::SubscribeOk(lease_of(msg.args[0]->Int_0)))
        } else {
            None
        }
    } else if msg.addr == "/subscribefail"@ {
        Some(EventView::SubscribeFail)
    } else if msg.addr == "/thump"@ {
        Some(EventView::Thump)
    } else if msg.addr == "/cuefired"@ {
        Some(EventView::CueFired(cue_of(msg.args)))
    } else {
        None
    }
}

/// The lease after an inbound message: the one a subscribe-ok reports, else
/// the one held before.
pub open spec fn lease_after(msg: MessageView, lease: u32) -> u32 {
    match event_of(msg) {
        Some(EventView::SubscribeOk(l)) => l,
        _ => lease,
    }
}

/// The events that one message gives rise to: one, or none.
pub open spec fn message_events(msg: MessageView) -> Seq<EventView> {
    match event_of(msg) {
        Some(e) => seq![e],
        None => Seq::empty(),
    }
}

/// The events of a bundle: those of its messages, in the order in which
/// they stand in it. A nested bundle adds nothing.
pub open spec fn bundle_events(content: Seq<Option<MessageView>>) -> Seq<EventView>
    decreases content.len(),
{
    if content.len() == 0 {
        Seq::empty()
    } else {
        bundle_events(content.drop_last()) + match content.last() {
            Some(msg) => message_events(msg),
            None => Seq::empty(),
        }
    }
}

/// The lease after a bundle: each of its messages in turn may replace it.
pub open spec fn bundle_lease(content: Seq<Option<MessageView>>, lease: u32) -> u32
    decreases content.len(),
{
    if content.len() == 0 {
        lease
    } else {
        match content.last() {
            Some(msg) => lease_after(msg, bundle_lease(content.drop_last(), lease)),
            None => bundle_lease(content.drop_last(), lease),
        }
    }
}

/// The events that a packet gives rise to.
pub open spec fn packet_events(packet: PacketView) -> Seq<EventView> {
    match packet {
        PacketView::Message(msg) => message_events(msg),
        PacketView::Bundle(content) => bundle_events(content),
    }
}

/// The lease after a packet.
pub open spec fn packet_lease(packet: PacketView, lease: u32) -> u32 {
    match packet {
        PacketView::Message(msg) => lease_after(msg, lease),
        PacketView::Bundle(content) => bundle_lease(content, lease),
    }
}

/// The messages of a bundle, in their order; nested bundles are left out.
pub open spec fn messages_in(content: Seq<Option<MessageView>>) -> Seq<MessageView>
    decreases content.len(),
{
    if content.len() == 0 {
        Seq::empty()
    } else {
        match content.last() {
            Some(msg) => messages_in(content.drop_last()).push(msg),
            None => messages_in(content.drop_last()),
        }
    }
}

/// The events of messages that arrive one by one, each as a packet of its
/// own.
pub open spec fn standalone_events(msgs: Seq<MessageView>) -> Seq<EventView>
    decreases msgs.len(),
{
    if msgs.len() == 0 {
        Seq::empty()
    } else {
        standalone_events(msgs.drop_last()) + packet_events(PacketView::Message(msgs.last()))
    }
}

/// The lease after messages that arrive one by one.
pub open spec fn standalone_lease(msgs: Seq<MessageView>, lease: u32) -> u32
    decreases msgs.len(),
{
    if msgs.len() == 0 {
        lease
    } else {
        packet_lease(PacketView::Message(msgs.last()), standalone_lease(msgs.drop_last(), lease))
    }
}

/// The string argument at position `i`, copied out.
fn string_arg(msg: &Message, i: usize) -> (s: Option<String>)
    ensures
        match s {
            Some(s) => string_at(msg@.args, i as int) == Some(s@),
            None => string_at(msg@.args, i as int) is None,
        },
{
    if i < msg.args.len() {
        match &msg.args[i] {
            Arg::Str(s) => Some(s.clone()),
            _ => None,
        }
    } else {
        None
    }
}

/// The event of one message, and the lease it leaves.
fn handle(msg: &Message, lease: &mut u32) -> (event: Option<NetEvent>)
    ensures
        match event {
            Some(e) => event_of(msg@) == Some(e@),
            None => event_of(msg@) is None,
        },
        *final(lease) == lease_after(msg@, *old(lease)),
{
    let addr = msg.addr.as_str();
    if same_text(addr, "/subscribeok") {
        if msg.args.len() > 0 {
            match &msg.args[0] {
                Arg::Int(expiry) => {
                    let granted: u32 = if *expiry < MIN_LEASE as i32 {
                        MIN_LEASE
                    } else {
                        *expiry as u32
                    };
                    *lease = granted;
                    Some(NetEvent::SubscribeOk(granted))
                },
                _ => None,
            }
        } else {
            None
        }
    } else if same_text(addr, "/subscribefail") {
        Some(NetEvent::SubscribeFail)
    } else if same_text(addr, "/thump") {
        Some(NetEvent::Thump)
    } else if same_text(addr, "/cuefired") {
        let number = match string_arg(msg, 0) {
            Some(s) => s,
            None => String::new(),
        };
        let text = match string_arg(msg, 1) {
            Some(s) => s,
            None => String::new(),
        };
        let color = string_arg(msg, 2);
        Some(NetEvent::CueFired(CueInfo { number, text, color }))
    } else {
        None
    }
}

/// Turns one inbound message into the event it stands for and, for a
/// subscribe-ok, takes over the lease it reports.
pub fn handle_message(msg: Message, subscription_expiry: &mut u32) -> (event: Option<NetEvent>)
    ensures
        match event {
            Some(e) => event_of(msg@) == Some(e@),
            None => event_of(msg@) is None,
        },
        *final(subscription_expiry) == lease_after(msg@, *old(subscription_expiry)),
{
    handle(&msg, subscription_expiry)
}

/// Takes a packet apart: a message is handled as it is, a bundle message by
/// message. Returns the events in the order of the messages.
pub fn dispatch(packet: Packet, lease: &mut u32) -> (events: Vec<NetEvent>)
    ensures
        events_view(events@) == packet_events(packet@),
        *final(lease) == packet_lease(packet@, *old(lease)),
{
    let mut events: Vec<NetEvent> = Vec::new();
    match &packet {
        Packet::Message(msg) => {
            if let Some(e) = handle(msg, lease) {
                events.push(e);
            }
        },
        Packet::Bundle(content) => {
            let ghost all = packet@->Bundle_0;
            let ghost start = *lease;
            let mut i: usize = 0;
            while i < content.len()
                invariant
                    i <= content.len(),
                    all.len() == content@.len(),
                    forall|k: int| 0 <= k < all.len() ==> all[k] == entry_view(content@[k]),
                    events_view(events@) == bundle_events(all.take(i as int)),
                    *lease == bundle_lease(all.take(i as int), start),
                decreases content.len() - i,
            {
                assert(all.take(i + 1).drop_last() =~= all.take(i as int));
                if let Some(msg) = &content[i] {
                    if let Some(e) = handle(msg, lease) {
                        events.push(e);
                    }
                }
                i += 1;
            }
            assert(all.take(i as int) =~= all);
        },
    }
    events
}

/// The events of a datagram: those of the packet read from it, none where
/// no packet can be read.
pub open spec fn datagram_events(datagram: Seq<u8>) -> Seq<EventView> {
    match decoded(received(datagram)) {
        Some(packet) => packet_events(packet),
        None => Seq::empty(),
    }
}

/// The lease after a datagram.
pub open spec fn datagram_lease(datagram: Seq<u8>, lease: u32) -> u32 {
    match decoded(received(datagram)) {
        Some(packet) => packet_lease(packet, lease),
        None => lease,
    }
}

/// Reads the packet in a datagram and takes it apart. A datagram that holds
/// no packet is dropped: no event, the lease as it was.
pub fn on_datagram(datagram: &[u8], lease: &mut u32) -> (events: Vec<NetEvent>)
    ensures
        events_view(events@) == datagram_events(datagram@),
        *final(lease) == datagram_lease(datagram@, *old(lease)),
{
    match read_packet(datagram) {
        Some(packet) => dispatch(packet, lease),
        None => {
            let events: Vec<NetEvent> = Vec::new();
            events
        },
    }
}

/// Whether a lease is one that the agent can hold: none, or one of at
/// least [`MIN_LEASE`] seconds.
pub open spec fn valid_lease(lease: u32) -> bool {
    lease == 0 || lease >= MIN_LEASE
}

/// No packet leaves a lease under the shortest one.
pub proof fn packet_keeps_lease_valid(packet: PacketView, lease: u32)
    requires
        valid_lease(lease),
    ensures
        valid_lease(packet_lease(packet, lease)),
{
    match packet {
        PacketView::Message(msg) => {},
        PacketView::Bundle(content) => bundle_keeps_lease_valid(content, lease),
    }
}

/// No bundle leaves a lease under the shortest one.
pub proof fn bundle_keeps_lease_valid(content: Seq<Option<MessageView>>, lease: u32)
    requires
        valid_lease(lease),
    ensures
        valid_lease(bundle_lease(content, lease)),
    decreases content.len(),
{
    if content.len() > 0 {
        bundle_keeps_lease_valid(content.drop_last(), lease);
    }
}

/// No datagram leaves a lease under the shortest one.
pub proof fn datagram_keeps_lease_valid(datagram: Seq<u8>, lease: u32)
    requires
        valid_lease(lease),
    ensures
        valid_lease(datagram_lease(datagram, lease)),
{
    match decoded(received(datagram)) {
        Some(packet) => packet_keeps_lease_valid(packet, lease),
        None => {},
    }
}

/// A datagram longer than the agent reads gives what its first
/// [`MAX_DATAGRAM`] bytes give by themselves.
pub proof fn long_datagram_is_cut_off(datagram: Seq<u8>, lease: u32)
    ensures
        received(datagram).len() <= MAX_DATAGRAM,
        received(received(datagram)) == received(datagram),
        datagram_events(datagram) == datagram_events(received(datagram)),
        datagram_lease(datagram, lease) == datagram_lease(received(datagram), lease),
{
}

/// A bundle gives the events that its messages give when each arrives as a
/// packet of its own, in the same order, and leaves the lease that they
/// leave.
pub proof fn bundle_matches_standalone(content: Seq<Option<MessageView>>, lease: u32)
    ensures
        packet_events(PacketView::Bundle(content)) == standalone_events(messages_in(content)),
        packet_lease(PacketView::Bundle(content), lease) == standalone_lease(
            messages_in(content),
            lease,
        ),
    decreases content.len(),
{
    if content.len() > 0 {
        bundle_matches_standalone(content.drop_last(), lease);
        if content.last() is Some {
            assert(messages_in(content).drop_last() =~= messages_in(content.drop_last()));
        }
    }
}

/// A bundle of messages alone holds just these messages.
pub proof fn messages_in_plain_bundle(msgs: Seq<MessageView>)
    ensures
        messages_in(msgs.map_values(|m: MessageView| Some(m))) == msgs,
    decreases msgs.len(),
{
    let content = msgs.map_values(|m: MessageView| Some(m));
    if msgs.len() > 0 {
        messages_in_plain_bundle(msgs.drop_last());
        assert(content.drop_last() =~= msgs.drop_last().map_values(|m: MessageView| Some(m)));
    }
}

} // verus!
