//! The frames of the Semtech UDP protocol, and their mathematical models.
//!
//! Every frame starts with a fixed prefix — protocol version byte, two
//! token bytes, an identifier byte — followed by a variant-specific tail
//! (an 8-byte gateway MAC and/or a JSON payload). The JSON payloads are
//! opaque to the runtime: they are held as raw bytes and only checked for
//! well-formedness, except for the `error` code of a `TxAck`, which the
//! downlink path inspects.
//!
//! Each executable type has a spec-level model (`PacketV` and friends)
//! reached through its view; the codec's contracts are stated over these.

use vstd::prelude::*;

use crate::json::txack_error_of;
use crate::mac::MacAddress;

verus! {

// ---------------------------------------------------------------------
// Executable frame types
// ---------------------------------------------------------------------

/// `PushData`: a gateway forwards received uplinks and/or a status report.
/// The tail is the 8-byte MAC followed by a JSON object.
#[derive(Clone, Debug, PartialEq)]
pub struct PushData {
    pub random_token: u16,
    pub gateway_mac: MacAddress,
    /// The raw bytes of the JSON object `{ "rxpk": [...], "stat": {...} }`.
    pub payload: Vec<u8>,
}

/// `PullData`: a gateway polls for downlinks and announces its address.
#[derive(Clone, Copy, Debug, PartialEq)]
pub struct PullData {
    pub random_token: u16,
    pub gateway_mac: MacAddress,
}

/// `TxAck`: a gateway acknowledges a `PullResp`, optionally carrying a
/// transmission error code inside `{ "txpk_ack": { "error": "<code>" } }`.
#[derive(Clone, Debug, PartialEq)]
pub struct TxAck {
    pub random_token: u16,
    pub gateway_mac: MacAddress,
    /// The raw bytes of the JSON tail; empty when the frame carried none.
    pub payload: Vec<u8>,
    /// The error code found in the payload, if any.
    pub error: Option<String>,
}

/// `PushAck`: the server confirms a `PushData`; header only.
#[derive(Clone, Copy, Debug, PartialEq)]
pub struct PushAck {
    pub random_token: u16,
}

/// `PullAck`: the server confirms a `PullData`; header only.
#[derive(Clone, Copy, Debug, PartialEq)]
pub struct PullAck {
    pub random_token: u16,
}

/// `PullResp`: the server schedules a downlink transmission. The tail is
/// the JSON object `{ "txpk": { ... } }`, held as raw bytes.
#[derive(Clone, Debug, PartialEq)]
pub struct PullResp {
    pub random_token: u16,
    pub payload: Vec<u8>,
}

/// The frames a gateway sends to the server.
#[derive(Clone, Debug, PartialEq)]
pub enum Up {
    PushData(PushData),
    PullData(PullData),
    TxAck(TxAck),
}

/// The frames the server sends to a gateway.
#[derive(Clone, Debug, PartialEq)]
pub enum Down {
    PushAck(PushAck),
    PullAck(PullAck),
    PullResp(PullResp),
}

/// Any frame of the protocol.
#[derive(Clone, Debug, PartialEq)]
pub enum Packet {
    Up(Up),
    Down(Down),
}

impl PullData {
    /// The acknowledgement owed for this frame: a `PullAck` echoing the token.
    pub fn into_ack(self) -> (r: PullAck)
        ensures
            r.random_token == self.random_token,
    {
        PullAck { random_token: self.random_token }
    }
}

impl PushData {
    /// The acknowledgement owed for this frame: a `PushAck` echoing the token.
    pub fn into_ack(&self) -> (r: PushAck)
        ensures
            r.random_token == self.random_token,
    {
        PushAck { random_token: self.random_token }
    }
}

// ---------------------------------------------------------------------
// Spec-level models
// ---------------------------------------------------------------------

#[verifier::ext_equal]
pub struct PushDataV {
    pub random_token: u16,
    pub gateway_mac: Seq<u8>,
    pub payload: Seq<u8>,
}

#[verifier::ext_equal]
pub struct PullDataV {
    pub random_token: u16,
    pub gateway_mac: Seq<u8>,
}

#[verifier::ext_equal]
pub struct TxAckV {
    pub random_token: u16,
    pub gateway_mac: Seq<u8>,
    pub payload: Seq<u8>,
    pub error: Option<Seq<char>>,
}

#[verifier::ext_equal]
pub struct PushAckV {
    pub random_token: u16,
}

#[verifier::ext_equal]
pub struct PullAckV {
    pub random_token: u16,
}

#[verifier::ext_equal]
pub struct PullRespV {
    pub random_token: u16,
    pub payload: Seq<u8>,
}

#[verifier::ext_equal]
pub enum UpV {
    PushData(PushDataV),
    PullData(PullDataV),
    TxAck(TxAckV),
}

#[verifier::ext_equal]
pub enum DownV {
    PushAck(PushAckV),
    PullAck(PullAckV),
    PullResp(PullRespV),
}

#[verifier::ext_equal]
pub enum PacketV {
    Up(UpV),
    Down(DownV),
}

pub open spec fn opt_string_view(o: Option<String>) -> Option<Seq<char>> {
    match o {
        Some(s) => Some(s@),
        None => None,
    }
}

impl View for PushData {
    type V = PushDataV;

    open spec fn view(&self) -> PushDataV {
        PushDataV {
            random_token: self.random_token,
            gateway_mac: self.gateway_mac@,
            payload: self.payload@,
        }
    }
}

impl View for PullData {
    type V = PullDataV;

    open spec fn view(&self) -> PullDataV {
        PullDataV { random_token: self.random_token, gateway_mac: self.gateway_mac@ }
    }
}

impl View for TxAck {
    type V = TxAckV;

    open spec fn view(&self) -> TxAckV {
        TxAckV {
            random_token: self.random_token,
            gateway_mac: self.gateway_mac@,
            payload: self.payload@,
            error: opt_string_view(self.error),
        }
    }
}

impl View for PushAck {
    type V = PushAckV;

    open spec fn view(&self) -> PushAckV {
        PushAckV { random_token: self.random_token }
    }
}

impl View for PullAck {
    type V = PullAckV;

    open spec fn view(&self) -> PullAckV {
        PullAckV { random_token: self.random_token }
    }
}

impl View for PullResp {
    type V = PullRespV;

    open spec fn view(&self) -> PullRespV {
        PullRespV { random_token: self.random_token, payload: self.payload@ }
    }
}

impl View for Up {
    type V = UpV;

    open spec fn view(&self) -> UpV {
        match self {
            Up::PushData(d) => UpV::PushData(d@),
            Up::PullData(d) => UpV::PullData(d@),
            Up::TxAck(d) => UpV::TxAck(d@),
        }
    }
}

impl View for Down {
    type V = DownV;

    open spec fn view(&self) -> DownV {
        match self {
            Down::PushAck(d) => DownV::PushAck(d@),
            Down::PullAck(d) => DownV::PullAck(d@),
            Down::PullResp(d) => DownV::PullResp(d@),
        }
    }
}

impl View for Packet {
    type V = PacketV;

    open spec fn view(&self) -> PacketV {
        match self {
            Packet::Up(u) => PacketV::Up(u@),
            Packet::Down(d) => PacketV::Down(d@),
        }
    }
}

// ---------------------------------------------------------------------
// Well-formedness
// ---------------------------------------------------------------------

/// What every frame value constructed by the parser satisfies, and what the
/// round-trip law asks of a frame: the MAC is 8 bytes, the payload is
/// well-formed JSON, and a `TxAck`'s recorded error is the one its payload
/// carries.
pub open spec fn wf_packet(p: PacketV) -> bool {
    match p {
        PacketV::Up(UpV::PushData(d)) => d.gateway_mac.len() == 8 && crate::json::json_valid(
            d.payload,
        ),
        PacketV::Up(UpV::PullData(d)) => d.gateway_mac.len() == 8,
        PacketV::Up(UpV::TxAck(d)) => d.gateway_mac.len() == 8 && if d.payload.len() == 0 {
            d.error is None
        } else {
            crate::json::json_valid(d.payload) && d.error == txack_error_of(d.payload)
        },
        PacketV::Down(DownV::PushAck(_)) => true,
        PacketV::Down(DownV::PullAck(_)) => true,
        PacketV::Down(DownV::PullResp(d)) => crate::json::json_valid(d.payload),
    }
}

} // verus!
