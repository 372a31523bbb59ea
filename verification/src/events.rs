//! What flows between the runtime's components: the events broadcast to
//! subscribers, and the messages queued to the datagram writer.

use vstd::prelude::*;

use crate::endpoint::Endpoint;
use crate::mac::MacAddress;
use crate::packet::{Packet, PacketV, Up, UpV};

verus! {

/// What an application subscriber observes from the runtime.
#[derive(Clone, Debug, PartialEq)]
pub enum Event {
    /// An uplink frame received from a gateway (or a synthesized `TxAck`
    /// when a downlink could not be routed).
    Packet(Up),
    /// A gateway's first `PullData` established a routing entry.
    NewClient(MacAddress, Endpoint),
    /// A known gateway reappeared at a different address.
    UpdateClient(MacAddress, Endpoint),
    /// A datagram that did not parse as a protocol frame.
    UnableToParseUdpFrame(Vec<u8>),
}

/// The messages the writer consumes, in the order they were enqueued.
#[derive(Clone, Debug)]
pub enum UdpMessage {
    /// Serialize and send to the endpoint the routing table holds for this
    /// MAC; synthesize a NACK if it holds none and the frame is a `PullResp`.
    PacketByMac(Packet, MacAddress),
    /// Serialize and send to this endpoint unconditionally.
    PacketBySocket(Packet, Endpoint),
    /// Establish or refresh the routing entry for this MAC.
    Client(MacAddress, Endpoint),
}

#[verifier::ext_equal]
pub enum EventV {
    Packet(UpV),
    NewClient(Seq<u8>, Endpoint),
    UpdateClient(Seq<u8>, Endpoint),
    UnableToParseUdpFrame(Seq<u8>),
}

#[verifier::ext_equal]
pub enum UdpMessageV {
    PacketByMac(PacketV, Seq<u8>),
    PacketBySocket(PacketV, Endpoint),
    Client(Seq<u8>, Endpoint),
}

impl View for Event {
    type V = EventV;

    open spec fn view(&self) -> EventV {
        match self {
            Event::Packet(u) => EventV::Packet(u@),
            Event::NewClient(m, a) => EventV::NewClient(m@, *a),
            Event::UpdateClient(m, a) => EventV::UpdateClient(m@, *a),
            Event::UnableToParseUdpFrame(b) => EventV::UnableToParseUdpFrame(b@),
        }
    }
}

impl View for UdpMessage {
    type V = UdpMessageV;

    open spec fn view(&self) -> UdpMessageV {
        match self {
            UdpMessage::PacketByMac(p, m) => UdpMessageV::PacketByMac(p@, m@),
            UdpMessage::PacketBySocket(p, a) => UdpMessageV::PacketBySocket(p@, *a),
            UdpMessage::Client(m, a) => UdpMessageV::Client(m@, *a),
        }
    }
}

pub open spec fn opt_event_view(o: Option<Event>) -> Option<EventV> {
    match o {
        Some(e) => Some(e@),
        None => None,
    }
}

pub open spec fn view_events(s: Seq<Event>) -> Seq<EventV> {
    s.map_values(|e: Event| e@)
}

pub open spec fn view_messages(s: Seq<UdpMessage>) -> Seq<UdpMessageV> {
    s.map_values(|m: UdpMessage| m@)
}

} // verus!
