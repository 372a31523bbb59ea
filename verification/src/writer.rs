//! The writer's decisions: what one queued message does to the routing
//! table, the wire, and the event stream.
//!
//! The writer is the sole owner of the gateway table. It consumes the
//! ordered message queue fed by the reader and the downlink path; for each
//! message, `writer_step` computes the datagram to send (if any), the event
//! to publish (if any), and the table update. The I/O shell performs the
//! datagram send and the event publication in that order.

use vstd::prelude::*;

use crate::codec::spec_ser;
use crate::endpoint::Endpoint;
use crate::events::{opt_event_view, Event, EventV, UdpMessage, UdpMessageV};
use crate::packet::{Down, DownV, Packet, PacketV, PullRespV, TxAck, TxAckV, Up, UpV};
use crate::table::{mac_key, GatewayTable};

verus! {

broadcast use vstd::string::group_string_axioms;

/// What the writer does for one message besides updating the table.
pub struct WriterEffects {
    /// Bytes to send on the socket, and where to.
    pub datagram: Option<(Vec<u8>, Endpoint)>,
    /// An event to publish on the bus.
    pub event: Option<Event>,
}

/// The event a `Client` message provokes: `NewClient` for an unknown MAC,
/// `UpdateClient` for a known MAC at a new address, nothing when the entry
/// already says just that.
pub open spec fn spec_client_event(
    t: Map<u64, Endpoint>,
    mac: Seq<u8>,
    addr: Endpoint,
) -> Option<EventV> {
    if !t.contains_key(mac_key(mac)) {
        Some(EventV::NewClient(mac, addr))
    } else if t[mac_key(mac)] != addr {
        Some(EventV::UpdateClient(mac, addr))
    } else {
        None
    }
}

/// The event a routing miss provokes: when the table does not know the
/// MAC, a `PullResp` turns into the synthesized NACK so the waiting
/// downlink call fails promptly; any other frame is dropped silently.
pub open spec fn spec_route_miss_event(
    t: Map<u64, Endpoint>,
    p: PacketV,
    mac: Seq<u8>,
) -> Option<EventV> {
    if t.contains_key(mac_key(mac)) {
        None
    } else {
        match p {
            PacketV::Down(DownV::PullResp(pr)) => Some(spec_nack_event(pr, mac)),
            _ => None,
        }
    }
}

/// The synthesized NACK published when a `PullResp` cannot be routed: a
/// `TxAck` with the same token, an empty payload, and the designated
/// send-failure code, so the waiting downlink call fails promptly.
pub open spec fn spec_nack_event(d: PullRespV, mac: Seq<u8>) -> EventV {
    EventV::Packet(
        UpV::TxAck(
            TxAckV {
                random_token: d.random_token,
                gateway_mac: mac,
                payload: Seq::empty(),
                error: Some("SEND_FAIL"@),
            },
        ),
    )
}

/// Processes one queued message against the table it owns.
pub fn writer_step(table: &mut GatewayTable, msg: UdpMessage) -> (r: WriterEffects)
    ensures
        match msg@ {
            UdpMessageV::Client(m, a) => {
                &&& final(table)@ == old(table)@.insert(mac_key(m), a)
                &&& opt_event_view(r.event) == spec_client_event(old(table)@, m, a)
                &&& r.datagram is None
            },
            UdpMessageV::PacketByMac(p, m) => {
                &&& final(table)@ == old(table)@
                &&& if old(table)@.contains_key(mac_key(m)) {
                    &&& r.event is None
                    &&& r.datagram matches Some(d) && d.0@ == spec_ser(p) && d.1 == old(
                        table,
                    )@[mac_key(m)]
                } else {
                    &&& r.datagram is None
                    &&& opt_event_view(r.event) == spec_route_miss_event(old(table)@, p, m)
                }
            },
            UdpMessageV::PacketBySocket(p, a) => {
                &&& final(table)@ == old(table)@
                &&& r.event is None
                &&& r.datagram matches Some(d) && d.0@ == spec_ser(p) && d.1 == a
            },
        },
{
    match msg {
        UdpMessage::Client(mac, addr) => {
            match table.lookup(&mac) {
                None => {
                    table.insert(&mac, addr);
                    WriterEffects { datagram: None, event: Some(Event::NewClient(mac, addr)) }
                },
                Some(existing) => {
                    if existing != addr {
                        table.insert(&mac, addr);
                        WriterEffects {
                            datagram: None,
                            event: Some(Event::UpdateClient(mac, addr)),
                        }
                    } else {
                        proof {
                            assert(old(table)@.insert(mac_key(mac@), addr) =~= old(table)@);
                        }
                        WriterEffects { datagram: None, event: None }
                    }
                },
            }
        },
        UdpMessage::PacketByMac(packet, mac) => {
            match table.lookup(&mac) {
                Some(addr) => WriterEffects {
                    datagram: Some((packet.to_bytes(), addr)),
                    event: None,
                },
                None => {
                    if let Packet::Down(Down::PullResp(pr)) = packet {
                        let nack = TxAck {
                            random_token: pr.random_token,
                            gateway_mac: mac,
                            payload: Vec::new(),
                            error: Some("SEND_FAIL".to_string()),
                        };
                        WriterEffects {
                            datagram: None,
                            event: Some(Event::Packet(Up::TxAck(nack))),
                        }
                    } else {
                        WriterEffects { datagram: None, event: None }
                    }
                },
            }
        },
        UdpMessage::PacketBySocket(packet, addr) => WriterEffects {
            datagram: Some((packet.to_bytes(), addr)),
            event: None,
        },
    }
}

} // verus!
