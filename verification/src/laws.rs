//! The laws that tie the components together.
//!
//! The codec's round-trip laws stand beside the codec itself
//! (`lemma_serialize_parse_roundtrip`, `lemma_parse_serialize_roundtrip`).
//! Here stand the laws of the routing state machine, of the
//! acknowledgement obligation, and of downlink correlation, each stated
//! over the spec functions that the executable functions' contracts use.

use vstd::prelude::*;

use crate::codec::spec_parse;
use crate::downlink::{spec_match_ack, SendErrorV};
use crate::endpoint::Endpoint;
use crate::events::{EventV, UdpMessageV};
use crate::packet::{DownV, PacketV, PullAckV, PullRespV, PushAckV, TxAckV, UpV};
use crate::reader::{spec_reader_events, spec_reader_messages};
use crate::table::mac_key;
use crate::writer::{spec_client_event, spec_nack_event, spec_route_miss_event};

verus! {

broadcast use vstd::string::group_string_axioms;

/// A gateway's first `PullData` makes itself known: on a table that does
/// not know the MAC, the routing update announces `NewClient`, and the
/// reader orders that update before the uplink event.
pub proof fn lemma_pull_data_new_client(
    t: Map<u64, Endpoint>,
    b: Seq<u8>,
    d: crate::packet::PullDataV,
    src: Endpoint,
)
    requires
        spec_parse(b) == Some(PacketV::Up(UpV::PullData(d))),
        !t.contains_key(mac_key(d.gateway_mac)),
    ensures
        spec_reader_messages(b, src)[0] == UdpMessageV::Client(d.gateway_mac, src),
        spec_client_event(t, d.gateway_mac, src) == Some(EventV::NewClient(d.gateway_mac, src)),
        spec_reader_events(b) == seq![EventV::Packet(UpV::PullData(d))],
{
    assert(spec_reader_events(b) =~= seq![EventV::Packet(UpV::PullData(d))]);
}

/// A repeated `PullData` from the same address is silent: the routing
/// update provokes no event when the table already says just that.
pub proof fn lemma_pull_data_same_addr_silent(t: Map<u64, Endpoint>, mac: Seq<u8>, addr: Endpoint)
    requires
        t.contains_key(mac_key(mac)),
        t[mac_key(mac)] == addr,
    ensures
        spec_client_event(t, mac, addr) is None,
{
}

/// A known gateway at a new address provokes exactly an `UpdateClient`.
pub proof fn lemma_pull_data_new_addr_update(t: Map<u64, Endpoint>, mac: Seq<u8>, addr: Endpoint)
    requires
        t.contains_key(mac_key(mac)),
        t[mac_key(mac)] != addr,
    ensures
        spec_client_event(t, mac, addr) == Some(EventV::UpdateClient(mac, addr)),
{
}

/// Every `PushData` is owed a `PushAck` echoing its token, addressed to
/// the source endpoint; every `PullData` is owed a `PullAck` echoing its
/// token, addressed by MAC.
pub proof fn lemma_ack_obligation(b: Seq<u8>, src: Endpoint)
    ensures
        spec_parse(b) matches Some(PacketV::Up(UpV::PushData(d))) ==> spec_reader_messages(b, src)
            =~= seq![
            UdpMessageV::PacketBySocket(
                PacketV::Down(DownV::PushAck(PushAckV { random_token: d.random_token })),
                src,
            ),
        ],
        spec_parse(b) matches Some(PacketV::Up(UpV::PullData(d))) ==> spec_reader_messages(b, src)
            =~= seq![
            UdpMessageV::Client(d.gateway_mac, src),
            UdpMessageV::PacketByMac(
                PacketV::Down(DownV::PullAck(PullAckV { random_token: d.random_token })),
                d.gateway_mac,
            ),
        ],
{
}

/// A `TxAck` that carries the awaited token and no error code — or the
/// code `NONE` — finishes the downlink call successfully.
pub proof fn lemma_ack_success(token: u16, a: TxAckV)
    requires
        a.random_token == token,
        a.error is None || a.error == Some("NONE"@),
    ensures
        spec_match_ack(token, EventV::Packet(UpV::TxAck(a))) == Some(Result::<(), SendErrorV>::Ok(())),
{
}

/// A `TxAck` that carries the awaited token and any other error code
/// finishes the downlink call with that code, verbatim.
pub proof fn lemma_ack_error(token: u16, a: TxAckV, e: Seq<char>)
    requires
        a.random_token == token,
        a.error == Some(e),
        e != "NONE"@,
        e != "SEND_FAIL"@,
    ensures
        spec_match_ack(token, EventV::Packet(UpV::TxAck(a))) == Some(
            Result::<(), SendErrorV>::Err(SendErrorV::GatewayError(e)),
        ),
{
}

/// A downlink to a gateway the table does not know fails without waiting:
/// the writer answers the routing miss with a synthesized NACK carrying
/// the same token, and that NACK finishes the call with a gateway-unknown
/// error.
pub proof fn lemma_unknown_gateway_nack(
    t: Map<u64, Endpoint>,
    d: PullRespV,
    mac: Seq<u8>,
)
    requires
        !t.contains_key(mac_key(mac)),
    ensures
        spec_route_miss_event(t, PacketV::Down(DownV::PullResp(d)), mac) == Some(
            spec_nack_event(d, mac),
        ),
        spec_match_ack(d.random_token, spec_nack_event(d, mac)) == Some(
            Result::<(), SendErrorV>::Err(SendErrorV::GatewayUnknown),
        ),
{
    reveal_strlit("NONE");
    reveal_strlit("SEND_FAIL");
    assert("SEND_FAIL"@.len() == 9);
    assert("NONE"@.len() == 4);
}

/// Downlink calls waiting on distinct tokens do not interfere: an event
/// finishes at most the call whose token it carries, and every other
/// event — another call's `TxAck`, an uplink, a client event, a parse
/// failure — leaves a waiting call untouched.
pub proof fn lemma_distinct_tokens_independent(token: u16, ev: EventV)
    requires
        forall|a: TxAckV| ev == EventV::Packet(UpV::TxAck(a)) ==> a.random_token != token,
    ensures
        spec_match_ack(token, ev) is None,
{
}

} // verus!
