//! The reader's decisions: what one received datagram provokes.
//!
//! For each datagram the runtime parses it and then, in this order: sends
//! the routing update (if any) and the owed acknowledgement to the writer
//! queue, and publishes the event. Performing the messages before the
//! events lets a subscriber that observes a `PullData` assume the writer
//! has already been told the route. A `PushAck` is addressed by socket
//! (the MAC may not be bound yet); a `PullAck` by MAC (its `PullData`
//! binds the MAC in the step before). Receiving a Down-variant frame from
//! a gateway is a protocol violation and fatal to the reader.

use vstd::prelude::*;

use crate::codec::spec_parse;
use crate::endpoint::Endpoint;
use crate::events::{view_events, view_messages, Event, EventV, UdpMessage, UdpMessageV};
use crate::packet::{
    Down, DownV, Packet, PacketV, PullAck, PullAckV, PushAck, PushAckV, Up, UpV,
};

verus! {

/// What the runtime does with one datagram: messages for the writer queue,
/// then events for the bus; `fatal` reports a protocol violation.
pub struct ReaderActions {
    pub messages: Vec<UdpMessage>,
    pub events: Vec<Event>,
    pub fatal: bool,
}

/// The writer-queue messages one datagram provokes, in order.
pub open spec fn spec_reader_messages(b: Seq<u8>, src: Endpoint) -> Seq<UdpMessageV> {
    match spec_parse(b) {
        Some(PacketV::Up(UpV::PullData(d))) => seq![
            UdpMessageV::Client(d.gateway_mac, src),
            UdpMessageV::PacketByMac(
                PacketV::Down(DownV::PullAck(PullAckV { random_token: d.random_token })),
                d.gateway_mac,
            ),
        ],
        Some(PacketV::Up(UpV::PushData(d))) => seq![
            UdpMessageV::PacketBySocket(
                PacketV::Down(DownV::PushAck(PushAckV { random_token: d.random_token })),
                src,
            ),
        ],
        _ => Seq::empty(),
    }
}

/// The events one datagram provokes.
pub open spec fn spec_reader_events(b: Seq<u8>) -> Seq<EventV> {
    match spec_parse(b) {
        None => seq![EventV::UnableToParseUdpFrame(b)],
        Some(PacketV::Down(_)) => Seq::empty(),
        Some(PacketV::Up(u)) => seq![EventV::Packet(u)],
    }
}

/// Whether one datagram is a protocol violation (a Down-variant frame).
pub open spec fn spec_reader_fatal(b: Seq<u8>) -> bool {
    spec_parse(b) matches Some(PacketV::Down(_))
}

/// Decides everything the runtime owes for the first `num_recv` bytes of a
/// datagram received from `src`.
pub fn handle_datagram(buffer: &[u8], num_recv: usize, src: Endpoint) -> (r: ReaderActions)
    requires
        num_recv <= buffer@.len(),
    ensures
        view_messages(r.messages@) == spec_reader_messages(buffer@.take(num_recv as int), src),
        view_events(r.events@) == spec_reader_events(buffer@.take(num_recv as int)),
        r.fatal == spec_reader_fatal(buffer@.take(num_recv as int)),
{
    let ghost b = buffer@.take(num_recv as int);
    match Packet::parse(buffer, num_recv) {
        Err(_) => {
            let raw = vstd::slice::slice_to_vec(
                vstd::slice::slice_subrange(buffer, 0, num_recv),
            );
            assert(raw@ =~= b);
            let r = ReaderActions {
                messages: Vec::new(),
                events: vec![Event::UnableToParseUdpFrame(raw)],
                fatal: false,
            };
            proof {
                assert(view_messages(r.messages@) =~= spec_reader_messages(b, src));
                assert(view_events(r.events@) =~= spec_reader_events(b));
            }
            r
        },
        Ok(Packet::Down(d)) => {
            let r = ReaderActions { messages: Vec::new(), events: Vec::new(), fatal: true };
            proof {
                assert(view_messages(r.messages@) =~= spec_reader_messages(b, src));
                assert(view_events(r.events@) =~= spec_reader_events(b));
            }
            r
        },
        Ok(Packet::Up(up)) => {
            match up {
                Up::PullData(d) => {
                    let mac = d.gateway_mac;
                    let ack = PullAck { random_token: d.random_token };
                    let r = ReaderActions {
                        messages: vec![
                            UdpMessage::Client(mac, src),
                            UdpMessage::PacketByMac(Packet::Down(Down::PullAck(ack)), mac),
                        ],
                        events: vec![Event::Packet(Up::PullData(d))],
                        fatal: false,
                    };
                    proof {
                        assert(view_messages(r.messages@) =~= spec_reader_messages(b, src));
                        assert(view_events(r.events@) =~= spec_reader_events(b));
                    }
                    r
                },
                Up::PushData(d) => {
                    let ack = PushAck { random_token: d.random_token };
                    let r = ReaderActions {
                        messages: vec![
                            UdpMessage::PacketBySocket(Packet::Down(Down::PushAck(ack)), src),
                        ],
                        events: vec![Event::Packet(Up::PushData(d))],
                        fatal: false,
                    };
                    proof {
                        assert(view_messages(r.messages@) =~= spec_reader_messages(b, src));
                        assert(view_events(r.events@) =~= spec_reader_events(b));
                    }
                    r
                },
                Up::TxAck(d) => {
                    let r = ReaderActions {
                        messages: Vec::new(),
                        events: vec![Event::Packet(Up::TxAck(d))],
                        fatal: false,
                    };
                    proof {
                        assert(view_messages(r.messages@) =~= spec_reader_messages(b, src));
                        assert(view_events(r.events@) =~= spec_reader_events(b));
                    }
                    r
                },
            }
        },
    }
}

} // verus!
