//! The downlink path: issuing a `PullResp` and correlating its `TxAck`.
//!
//! A downlink call draws a fresh random token, wraps the radio parameters
//! in a `PullResp`, and queues it for the writer by MAC. It then watches
//! the event stream: the first `TxAck` carrying its token decides the
//! outcome — absence of an error code (or the code `NONE`) is success, the
//! designated send-failure code means the gateway was unknown, and any
//! other code is the gateway's verbatim complaint. Every other event is
//! ignored, so concurrent calls with distinct tokens never steal each
//! other's acknowledgements.

use vstd::prelude::*;

use crate::events::{Event, EventV, UdpMessage, UdpMessageV};
use crate::json::json_valid;
use crate::mac::MacAddress;
use crate::packet::{Down, DownV, Packet, PacketV, PullResp, PullRespV, UpV};

verus! {

broadcast use vstd::string::group_string_axioms;

/// The radio parameters of one downlink, as the JSON object the `txpk`
/// key of a `PullResp` will carry, held as raw well-formed bytes.
pub struct TxPk {
    json: Vec<u8>,
}

impl View for TxPk {
    type V = Seq<u8>;

    closed spec fn view(&self) -> Seq<u8> {
        self.json@
    }
}

impl TxPk {
    pub open spec fn wf(&self) -> bool {
        json_valid(self@)
    }

    /// Accepts the JSON object describing the transmission; rejects bytes
    /// that are not a well-formed JSON document.
    pub fn new(json: Vec<u8>) -> (r: Option<TxPk>)
        ensures
            match r {
                Some(t) => t@ == json@ && t.wf(),
                None => !json_valid(json@),
            },
    {
        if crate::json::scan_json(json.as_slice()).is_some() {
            Some(TxPk { json })
        } else {
            None
        }
    }
}

/// The payload of a `PullResp` carrying these radio parameters:
/// `{"txpk":` ++ the parameters ++ `}`.
pub open spec fn pull_resp_payload(txpk: Seq<u8>) -> Seq<u8> {
    seq![0x7bu8, 0x22u8, 0x74u8, 0x78u8, 0x70u8, 0x6bu8, 0x22u8, 0x3au8] + txpk + seq![0x7du8]
}

/// Why a downlink call failed.
#[derive(Clone, Debug, PartialEq)]
pub enum SendError {
    /// The gateway has never announced itself with a `PullData`, so the
    /// frame could not be routed; reported without waiting.
    GatewayUnknown,
    /// The gateway acknowledged with this error code.
    GatewayError(String),
}

#[verifier::ext_equal]
pub enum SendErrorV {
    GatewayUnknown,
    GatewayError(Seq<char>),
}

impl View for SendError {
    type V = SendErrorV;

    open spec fn view(&self) -> SendErrorV {
        match self {
            SendError::GatewayUnknown => SendErrorV::GatewayUnknown,
            SendError::GatewayError(s) => SendErrorV::GatewayError(s@),
        }
    }
}

pub open spec fn outcome_view(r: Option<Result<(), SendError>>) -> Option<
    Result<(), SendErrorV>,
> {
    match r {
        None => None,
        Some(Ok(())) => Some(Ok(())),
        Some(Err(e)) => Some(Err(e@)),
    }
}

/// Relies on rand's `random`: an arbitrary 16-bit value; nothing is
/// assumed of it.
#[verifier::external_body]
fn random_token() -> u16 {
    rand::random::<u16>()
}

/// Starts one downlink: draws a fresh token and builds the writer-queue
/// message carrying the `PullResp`, addressed by MAC. The token is random;
/// everything else about the message is pinned down.
pub fn begin_send(txpk: TxPk, mac: MacAddress) -> (r: (u16, UdpMessage))
    ensures
        r.1@ == UdpMessageV::PacketByMac(
            PacketV::Down(
                DownV::PullResp(
                    PullRespV { random_token: r.0, payload: pull_resp_payload(txpk@) },
                ),
            ),
            mac@,
        ),
{
    let random_token = random_token();
    let mut payload: Vec<u8> = Vec::new();
    payload.push(0x7b);
    payload.push(0x22);
    payload.push(0x74);
    payload.push(0x78);
    payload.push(0x70);
    payload.push(0x6b);
    payload.push(0x22);
    payload.push(0x3a);
    let mut i: usize = 0;
    while i < txpk.json.len()
        invariant
            0 <= i <= txpk.json@.len(),
            payload@ =~= pull_resp_payload(txpk.json@).take(8 + i),
        decreases txpk.json@.len() - i,
    {
        assert(pull_resp_payload(txpk.json@)[8 + i] == txpk.json@[i as int]);
        payload.push(txpk.json[i]);
        i += 1;
    }
    payload.push(0x7d);
    assert(payload@ =~= pull_resp_payload(txpk.json@));
    let packet = Packet::Down(Down::PullResp(PullResp { random_token, payload }));
    (random_token, UdpMessage::PacketByMac(packet, mac))
}

/// The outcome a `TxAck` error field decides: no code or `NONE` is
/// success, the designated send-failure code means the gateway was
/// unknown, any other code is handed to the caller verbatim.
pub open spec fn spec_ack_outcome(error: Option<Seq<char>>) -> Result<(), SendErrorV> {
    match error {
        None => Ok(()),
        Some(e) => if e == "NONE"@ {
            Ok(())
        } else if e == "SEND_FAIL"@ {
            Err(SendErrorV::GatewayUnknown)
        } else {
            Err(SendErrorV::GatewayError(e))
        },
    }
}

/// What one observed event means for the downlink waiting on `token`:
/// `None` to keep waiting, `Some` to finish with that outcome. Only a
/// `TxAck` carrying exactly this token finishes the call.
pub open spec fn spec_match_ack(token: u16, ev: EventV) -> Option<Result<(), SendErrorV>> {
    match ev {
        EventV::Packet(UpV::TxAck(a)) => if a.random_token == token {
            Some(spec_ack_outcome(a.error))
        } else {
            None
        },
        _ => None,
    }
}

/// Examines one event on behalf of the downlink waiting on `token`.
pub fn match_ack(token: u16, ev: &Event) -> (r: Option<Result<(), SendError>>)
    ensures
        outcome_view(r) == spec_match_ack(token, ev@),
{
    match ev {
        Event::Packet(crate::packet::Up::TxAck(a)) => {
            if a.random_token == token {
                match &a.error {
                    None => Some(Ok(())),
                    Some(e) => {
                        let none_code = "NONE".to_string();
                        let send_fail_code = "SEND_FAIL".to_string();
                        if *e == none_code {
                            Some(Ok(()))
                        } else if *e == send_fail_code {
                            Some(Err(SendError::GatewayUnknown))
                        } else {
                            Some(Err(SendError::GatewayError(e.clone())))
                        }
                    },
                }
            } else {
                None
            }
        },
        _ => None,
    }
}

} // verus!
