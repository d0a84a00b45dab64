//! OSC packets as the agent reads them, and the calls into `rosc` that turn
//! datagrams into packets and addresses into datagrams.

use rosc::{decoder, encoder, OscMessage, OscPacket, OscType};
use vstd::prelude::*;
use vstd::slice::slice_subrange;

verus! {

/// Longest datagram the agent takes in; what lies beyond is cut off.
pub const MAX_DATAGRAM: usize = 1536;

/// One argument of an OSC message, as far as the agent looks at it.
#[derive(Clone, Debug, PartialEq, Eq)]
pub enum Arg {
    /// OSC `i`.
    Int(i32),
    /// OSC `s`.
    Str(String),
    /// Any other OSC type; the agent never looks inside.
    Other,
}

/// Mathematical value of an [`Arg`].
pub enum ArgView {
    Int(i32),
    Str(Seq<char>),
    Other,
}

impl View for Arg {
    type V = ArgView;

    open spec fn view(&self) -> ArgView {
        match self {
            Arg::Int(i) => ArgView::Int(*i),
            Arg::Str(s) => ArgView::Str(s@),
            Arg::Other => ArgView::Other,
        }
    }
}

/// An OSC message: an address and its arguments.
#[derive(Clone, Debug, PartialEq, Eq)]
pub struct Message {
    pub addr: String,
    pub args: Vec<Arg>,
}

/// Mathematical value of a [`Message`].
pub struct MessageView {
    pub addr: Seq<char>,
    pub args: Seq<ArgView>,
}

impl View for Message {
    type V = MessageView;

    open spec fn view(&self) -> MessageView {
        MessageView {
            addr: self.addr@,
            args: Seq::new(self.args@.len(), |i: int| self.args@[i]@),
        }
    }
}

/// An OSC packet: one message, or a bundle. An element of a bundle is a
/// message, or `None` for a bundle nested in it, which is never opened.
#[derive(Clone, Debug, PartialEq, Eq)]
pub enum Packet {
    Message(Message),
    Bundle(Vec<Option<Message>>),
}

/// Mathematical value of a [`Packet`].
pub enum PacketView {
    Message(MessageView),
    Bundle(Seq<Option<MessageView>>),
}

/// The value of a bundle element.
pub open spec fn entry_view(entry: Option<Message>) -> Option<MessageView> {
    match entry {
        Some(msg) => Some(msg@),
        None => None,
    }
}

impl View for Packet {
    type V = PacketView;

    open spec fn view(&self) -> PacketView {
        match self {
            Packet::Message(msg) => PacketView::Message(msg@),
            Packet::Bundle(content) => PacketView::Bundle(
                Seq::new(content@.len(), |i: int| entry_view(content@[i])),
            ),
        }
    }
}

/// The packet that `rosc` reads from a datagram, `None` where it reads none.
pub uninterp spec fn decoded(datagram: Seq<u8>) -> Option<PacketView>;

/// Calls `rosc::decoder::decode_udp`. The result is the packet it returns,
/// written in this library's types: integers and strings are kept, every
/// other argument becomes [`Arg::Other`], a nested bundle becomes `None`,
/// the time tag and the bytes left over are dropped. An error becomes `None`.
/// The decoder recurses once for each level of nesting, so the datagram is
/// kept within [`MAX_DATAGRAM`] bytes.
#[verifier::external_body]
fn decode_udp(datagram: &[u8]) -> (packet: Option<Packet>)
    requires
        datagram@.len() <= MAX_DATAGRAM,
    ensures
        decoded(datagram@) == match packet {
            Some(p) => Some(p@),
            None => None,
        },
{
    let arg = |a| match a {
        OscType::Int(i) => Arg::Int(i),
        OscType::String(s) => Arg::Str(s),
        _ => Arg::Other,
    };
    let msg = |m: OscMessage| Message {
        addr: m.addr,
        args: m.args.into_iter().map(arg).collect(),
    };
    let entry = |p| match p { OscPacket::Message(m) => Some(msg(m)), _ => None };
    Some(match decoder::decode_udp(datagram).ok()?.1 {
        OscPacket::Message(m) => Packet::Message(msg(m)),
        OscPacket::Bundle(b) => Packet::Bundle(b.content.into_iter().map(entry).collect()),
    })
}

/// What the agent reads of a datagram: all of it, or its first
/// [`MAX_DATAGRAM`] bytes where it is longer.
pub open spec fn received(datagram: Seq<u8>) -> Seq<u8> {
    if datagram.len() <= MAX_DATAGRAM {
        datagram
    } else {
        datagram.take(MAX_DATAGRAM as int)
    }
}

/// Reads the packet in a datagram, `None` where it holds none.
pub fn read_packet(datagram: &[u8]) -> (packet: Option<Packet>)
    ensures
        decoded(received(datagram@)) == match packet {
            Some(p) => Some(p@),
            None => None,
        },
{
    let kept: usize = if datagram.len() <= MAX_DATAGRAM {
        datagram.len()
    } else {
        MAX_DATAGRAM
    };
    let head = slice_subrange(datagram, 0, kept);
    assert(head@ =~= received(datagram@));
    decode_udp(head)
}

/// Number of NUL bytes that close an OSC string of `len` bytes: at least
/// one, and as many as bring the whole to a multiple of four.
pub open spec fn padding(len: nat) -> nat {
    (4 - len % 4) as nat
}

/// The bytes of an OSC string: the text and its closing NULs.
pub open spec fn osc_string(text: Seq<u8>) -> Seq<u8> {
    text + Seq::new(padding(text.len()), |i: int| 0u8)
}

/// The datagram of a message without arguments: the address as an OSC
/// string, then the empty type tag string `,`.
pub open spec fn bare_message(addr: Seq<char>) -> Seq<u8> {
    osc_string(vstd::utf8::encode_utf8(addr)) + seq![0x2Cu8, 0u8, 0u8, 0u8]
}

/// `rosc::OscError`, the error of the encoder and the decoder of `rosc`. It
/// is carried, never looked into.
#[verifier::external_type_specification]
#[verifier::external_body]
pub struct ExOscError(rosc::OscError);

/// Calls `rosc::encoder::encode` on a message with the address `addr` and no
/// arguments. The encoder writes into a vector and never fails; what it
/// writes for such a message is [`bare_message`].
#[verifier::external_body]
fn encode_bare(addr: &str) -> (datagram: Result<Vec<u8>, rosc::OscError>)
    ensures
        datagram is Ok,
        datagram->Ok_0@ == bare_message(addr@),
{
    let msg = OscMessage { addr: addr.to_string(), args: Vec::new() };
    encoder::encode(&OscPacket::Message(msg))
}

/// The datagram of a message with the address `addr` and no arguments.
pub fn outbound(addr: &str) -> (datagram: Vec<u8>)
    ensures
        datagram@ == bare_message(addr@),
{
    match encode_bare(addr) {
        Ok(bytes) => bytes,
        // The encoder reports no error for such a message.
        Err(_) => Vec::new(),
    }
}

} // verus!
