//! Parsing and serialization of protocol frames.
//!
//! The wire format: byte 0 is the protocol version, bytes 1-2 the big-endian
//! token, byte 3 the frame identifier, and the tail is variant-specific
//! (8-byte MAC and/or JSON payload). `spec_parse` and `spec_ser` are the
//! mathematical reference for the two directions; the executable `parse` and
//! `serialize` are proved against them, and the round-trip laws relate them.

use vstd::prelude::*;

use crate::json::{json_valid, scan_json, txack_error_of};
use crate::mac::MacAddress;
use crate::packet::{
    wf_packet, Down, DownV, Packet, PacketV, PullAck, PullAckV, PullData,
    PullDataV, PullResp, PullRespV, PushAck, PushAckV, PushData, PushDataV, TxAck, TxAckV, Up, UpV,
};

verus! {

/// The protocol version every frame starts with.
pub const PROTOCOL_VERSION: u8 = 2;

pub const PUSH_DATA_ID: u8 = 0;

pub const PUSH_ACK_ID: u8 = 1;

pub const PULL_DATA_ID: u8 = 2;

pub const PULL_ACK_ID: u8 = 3;

pub const PULL_RESP_ID: u8 = 4;

pub const TX_ACK_ID: u8 = 5;

/// Why a buffer failed to parse as a frame.
#[derive(Clone, Copy, Debug, PartialEq, Eq, Structural)]
pub enum ParseError {
    /// Fewer bytes than the variant's fixed part requires.
    BufferTooShort,
    /// The first byte is not the protocol version.
    InvalidProtocolVersion,
    /// The identifier byte names no frame.
    InvalidIdentifier,
    /// A frame whose tail is fixed-size carried extra bytes.
    InvalidLength,
    /// The JSON payload is not well-formed.
    InvalidJson,
}

/// Why a frame failed to serialize.
#[derive(Clone, Copy, Debug, PartialEq, Eq, Structural)]
pub enum SerializeError {
    /// The output buffer cannot hold the frame.
    BufferTooSmall,
}

// ---------------------------------------------------------------------
// The mathematical codec
// ---------------------------------------------------------------------

pub open spec fn token_hi(t: u16) -> u8 {
    (t / 256) as u8
}

pub open spec fn token_lo(t: u16) -> u8 {
    (t % 256) as u8
}

pub open spec fn spec_token(hi: u8, lo: u8) -> u16 {
    (hi as int * 256 + lo as int) as u16
}

pub open spec fn opt_seq(o: Option<Seq<u8>>) -> Seq<u8> {
    match o {
        Some(s) => s,
        None => Seq::empty(),
    }
}

/// The bytes of a frame: the four header bytes, then the MAC if the variant
/// carries one, then the payload if it carries one.
pub open spec fn frame_bytes(
    token: u16,
    id: u8,
    mac: Option<Seq<u8>>,
    payload: Option<Seq<u8>>,
) -> Seq<u8> {
    seq![PROTOCOL_VERSION, token_hi(token), token_lo(token), id] + opt_seq(mac) + opt_seq(payload)
}

/// The serialization of a frame value.
pub open spec fn spec_ser(p: PacketV) -> Seq<u8> {
    match p {
        PacketV::Up(UpV::PushData(d)) => frame_bytes(
            d.random_token,
            PUSH_DATA_ID,
            Some(d.gateway_mac),
            Some(d.payload),
        ),
        PacketV::Up(UpV::PullData(d)) => frame_bytes(
            d.random_token,
            PULL_DATA_ID,
            Some(d.gateway_mac),
            None,
        ),
        PacketV::Up(UpV::TxAck(d)) => frame_bytes(
            d.random_token,
            TX_ACK_ID,
            Some(d.gateway_mac),
            Some(d.payload),
        ),
        PacketV::Down(DownV::PushAck(d)) => frame_bytes(d.random_token, PUSH_ACK_ID, None, None),
        PacketV::Down(DownV::PullAck(d)) => frame_bytes(d.random_token, PULL_ACK_ID, None, None),
        PacketV::Down(DownV::PullResp(d)) => frame_bytes(
            d.random_token,
            PULL_RESP_ID,
            None,
            Some(d.payload),
        ),
    }
}

/// The frame value a byte sequence parses to, if any.
pub open spec fn spec_parse(b: Seq<u8>) -> Option<PacketV> {
    if b.len() < 4 || b[0] != PROTOCOL_VERSION {
        None
    } else {
        let t = spec_token(b[1], b[2]);
        if b[3] == PUSH_DATA_ID {
            if b.len() >= 12 && json_valid(b.skip(12)) {
                Some(
                    PacketV::Up(
                        UpV::PushData(
                            PushDataV {
                                random_token: t,
                                gateway_mac: b.subrange(4, 12),
                                payload: b.skip(12),
                            },
                        ),
                    ),
                )
            } else {
                None
            }
        } else if b[3] == PUSH_ACK_ID {
            if b.len() == 4 {
                Some(PacketV::Down(DownV::PushAck(PushAckV { random_token: t })))
            } else {
                None
            }
        } else if b[3] == PULL_DATA_ID {
            if b.len() == 12 {
                Some(
                    PacketV::Up(
                        UpV::PullData(
                            PullDataV { random_token: t, gateway_mac: b.subrange(4, 12) },
                        ),
                    ),
                )
            } else {
                None
            }
        } else if b[3] == PULL_ACK_ID {
            if b.len() == 4 {
                Some(PacketV::Down(DownV::PullAck(PullAckV { random_token: t })))
            } else {
                None
            }
        } else if b[3] == PULL_RESP_ID {
            if json_valid(b.skip(4)) {
                Some(
                    PacketV::Down(
                        DownV::PullResp(PullRespV { random_token: t, payload: b.skip(4) }),
                    ),
                )
            } else {
                None
            }
        } else if b[3] == TX_ACK_ID {
            if b.len() == 12 {
                Some(
                    PacketV::Up(
                        UpV::TxAck(
                            TxAckV {
                                random_token: t,
                                gateway_mac: b.subrange(4, 12),
                                payload: Seq::empty(),
                                error: None,
                            },
                        ),
                    ),
                )
            } else if b.len() > 12 && json_valid(b.skip(12)) {
                Some(
                    PacketV::Up(
                        UpV::TxAck(
                            TxAckV {
                                random_token: t,
                                gateway_mac: b.subrange(4, 12),
                                payload: b.skip(12),
                                error: txack_error_of(b.skip(12)),
                            },
                        ),
                    ),
                )
            } else {
                None
            }
        } else {
            None
        }
    }
}

/// The error reported for a byte sequence that does not parse.
pub open spec fn spec_parse_err(b: Seq<u8>) -> ParseError {
    if b.len() < 4 {
        ParseError::BufferTooShort
    } else if b[0] != PROTOCOL_VERSION {
        ParseError::InvalidProtocolVersion
    } else if b[3] > TX_ACK_ID {
        ParseError::InvalidIdentifier
    } else if (b[3] == PUSH_DATA_ID || b[3] == PULL_DATA_ID || b[3] == TX_ACK_ID) && b.len()
        < 12 {
        ParseError::BufferTooShort
    } else if (b[3] == PUSH_ACK_ID || b[3] == PULL_ACK_ID) && b.len() != 4 {
        ParseError::InvalidLength
    } else if b[3] == PULL_DATA_ID && b.len() != 12 {
        ParseError::InvalidLength
    } else {
        ParseError::InvalidJson
    }
}

/// How a serialization attempt must relate the result, the frame bytes `f`,
/// and the buffer before and after.
pub open spec fn serialize_post(
    r: Result<u64, SerializeError>,
    f: Seq<u8>,
    pre: Seq<u8>,
    post: Seq<u8>,
) -> bool {
    match r {
        Ok(n) => n as int == f.len() && f.len() <= pre.len() && post == f + pre.skip(f.len() as int),
        Err(e) => e == SerializeError::BufferTooSmall && pre.len() < f.len() && post == pre,
    }
}

// ---------------------------------------------------------------------
// Round-trip laws
// ---------------------------------------------------------------------

proof fn lemma_token_roundtrip(t: u16)
    ensures
        spec_token(token_hi(t), token_lo(t)) == t,
{
    vstd::arithmetic::div_mod::lemma_fundamental_div_mod(t as int, 256);
}

proof fn lemma_token_bytes(hi: u8, lo: u8)
    ensures
        token_hi(spec_token(hi, lo)) == hi,
        token_lo(spec_token(hi, lo)) == lo,
{
    vstd::arithmetic::div_mod::lemma_fundamental_div_mod_converse(
        hi as int * 256 + lo as int,
        256,
        hi as int,
        lo as int,
    );
}

/// Serializing any well-formed frame value and parsing the bytes again
/// yields the same value.
pub proof fn lemma_serialize_parse_roundtrip(p: PacketV)
    requires
        wf_packet(p),
    ensures
        spec_parse(spec_ser(p)) == Some(p),
{
    let b = spec_ser(p);
    match p {
        PacketV::Up(UpV::PushData(d)) => {
            lemma_token_roundtrip(d.random_token);
            assert(b.subrange(4, 12) =~= d.gateway_mac);
            assert(b.skip(12) =~= d.payload);
            assert(spec_parse(b) == Some(p));
        },
        PacketV::Up(UpV::PullData(d)) => {
            lemma_token_roundtrip(d.random_token);
            assert(b.subrange(4, 12) =~= d.gateway_mac);
            assert(spec_parse(b) == Some(p));
        },
        PacketV::Up(UpV::TxAck(d)) => {
            lemma_token_roundtrip(d.random_token);
            assert(b.subrange(4, 12) =~= d.gateway_mac);
            if d.payload.len() == 0 {
                assert(b.len() == 12);
                assert(d.payload =~= Seq::<u8>::empty());
                assert(spec_parse(b) == Some(p));
            } else {
                assert(b.skip(12) =~= d.payload);
                assert(spec_parse(b) == Some(p));
            }
        },
        PacketV::Down(DownV::PushAck(d)) => {
            lemma_token_roundtrip(d.random_token);
            assert(spec_parse(b) == Some(p));
        },
        PacketV::Down(DownV::PullAck(d)) => {
            lemma_token_roundtrip(d.random_token);
            assert(spec_parse(b) == Some(p));
        },
        PacketV::Down(DownV::PullResp(d)) => {
            lemma_token_roundtrip(d.random_token);
            assert(b.skip(4) =~= d.payload);
            assert(spec_parse(b) == Some(p));
        },
    }
}

/// Parsing pins the bytes down: a buffer that parses is exactly the
/// serialization of the frame value it parses to, bit for bit, and that
/// value is well-formed.
pub proof fn lemma_parse_serialize_roundtrip(b: Seq<u8>, p: PacketV)
    requires
        spec_parse(b) == Some(p),
    ensures
        wf_packet(p),
        spec_ser(p) == b,
{
    lemma_token_bytes(b[1], b[2]);
    if b[3] == PUSH_DATA_ID {
        assert(spec_ser(p) =~= b);
    } else if b[3] == PUSH_ACK_ID {
        assert(spec_ser(p) =~= b);
    } else if b[3] == PULL_DATA_ID {
        assert(spec_ser(p) =~= b);
    } else if b[3] == PULL_ACK_ID {
        assert(spec_ser(p) =~= b);
    } else if b[3] == PULL_RESP_ID {
        assert(spec_ser(p) =~= b);
    } else {
        assert(b[3] == TX_ACK_ID);
        if b.len() == 12 {
            assert(spec_ser(p) =~= b);
        } else {
            assert(spec_ser(p) =~= b);
        }
    }
}

// ---------------------------------------------------------------------
// Executable serialization
// ---------------------------------------------------------------------

pub open spec fn opt_mac_view(m: Option<MacAddress>) -> Option<Seq<u8>> {
    match m {
        Some(a) => Some(a@),
        None => None,
    }
}

pub open spec fn opt_vec_view(p: Option<&Vec<u8>>) -> Option<Seq<u8>> {
    match p {
        Some(v) => Some(v@),
        None => None,
    }
}

/// Writes one frame at the start of `buffer`, which keeps its length.
fn write_frame(
    buffer: &mut Vec<u8>,
    random_token: u16,
    identifier: u8,
    mac: Option<MacAddress>,
    payload: Option<&Vec<u8>>,
) -> (r: Result<u64, SerializeError>)
    ensures
        serialize_post(
            r,
            frame_bytes(random_token, identifier, opt_mac_view(mac), opt_vec_view(payload)),
            old(buffer)@,
            final(buffer)@,
        ),
{
    let ghost f = frame_bytes(random_token, identifier, opt_mac_view(mac), opt_vec_view(payload));
    let mac_len: usize = if mac.is_some() {
        8
    } else {
        0
    };
    let payload_len: usize = match payload {
        Some(p) => p.len(),
        None => 0,
    };
    assert(f.len() == 4 + mac_len + payload_len);
    if buffer.len() < 4 + mac_len || buffer.len() - (4 + mac_len) < payload_len {
        return Err(SerializeError::BufferTooSmall);
    }
    let hi: u8 = (random_token / 256) as u8;
    let lo: u8 = (random_token % 256) as u8;
    buffer.set(0, PROTOCOL_VERSION);
    buffer.set(1, hi);
    buffer.set(2, lo);
    buffer.set(3, identifier);
    let mut pos: usize = 4;
    if let Some(m) = mac {
        let mut j: usize = 0;
        while j < 8
            invariant
                0 <= j <= 8,
                pos == 4 + j,
                mac matches Some(mm) && mm == m,
                m@.len() == 8,
                payload_len == opt_seq(opt_vec_view(payload)).len(),
                f == frame_bytes(random_token, identifier, opt_mac_view(mac), opt_vec_view(payload)),
                f.len() == 12 + payload_len,
                buffer@.len() == old(buffer)@.len(),
                f.len() <= buffer@.len(),
                forall|t: int| 0 <= t < pos ==> buffer@[t] == f[t],
                forall|t: int| pos <= t < buffer@.len() ==> buffer@[t] == old(buffer)@[t],
            decreases 8 - j,
        {
            assert(f[pos as int] == m@[j as int]);
            buffer.set(pos, m.bytes[j]);
            j += 1;
            pos += 1;
        }
    }
    if let Some(p) = payload {
        let mut k: usize = 0;
        while k < p.len()
            invariant
                0 <= k <= p.len(),
                pos == 4 + mac_len + k,
                payload matches Some(pp) && pp == p,
                mac_len == if mac is Some {
                    8int
                } else {
                    0int
                },
                f == frame_bytes(random_token, identifier, opt_mac_view(mac), opt_vec_view(payload)),
                f.len() == 4 + mac_len + p@.len(),
                f.len() <= usize::MAX,
                buffer@.len() == old(buffer)@.len(),
                f.len() <= buffer@.len(),
                forall|t: int| 0 <= t < pos ==> buffer@[t] == f[t],
                forall|t: int| pos <= t < buffer@.len() ==> buffer@[t] == old(buffer)@[t],
            decreases p.len() - k,
        {
            assert(f[pos as int] == p@[k as int]);
            buffer.set(pos, p[k]);
            k += 1;
            pos += 1;
        }
    }
    assert(buffer@ =~= f + old(buffer)@.skip(f.len() as int));
    Ok((4 + mac_len + payload_len) as u64)
}

impl PushData {
    pub fn serialize(&self, buffer: &mut Vec<u8>) -> (r: Result<u64, SerializeError>)
        ensures
            serialize_post(
                r,
                spec_ser(PacketV::Up(UpV::PushData(self@))),
                old(buffer)@,
                final(buffer)@,
            ),
    {
        write_frame(
            buffer,
            self.random_token,
            PUSH_DATA_ID,
            Some(self.gateway_mac),
            Some(&self.payload),
        )
    }
}

impl PullData {
    pub fn serialize(&self, buffer: &mut Vec<u8>) -> (r: Result<u64, SerializeError>)
        ensures
            serialize_post(
                r,
                spec_ser(PacketV::Up(UpV::PullData(self@))),
                old(buffer)@,
                final(buffer)@,
            ),
    {
        write_frame(buffer, self.random_token, PULL_DATA_ID, Some(self.gateway_mac), None)
    }
}

impl TxAck {
    pub fn serialize(&self, buffer: &mut Vec<u8>) -> (r: Result<u64, SerializeError>)
        ensures
            serialize_post(
                r,
                spec_ser(PacketV::Up(UpV::TxAck(self@))),
                old(buffer)@,
                final(buffer)@,
            ),
    {
        write_frame(
            buffer,
            self.random_token,
            TX_ACK_ID,
            Some(self.gateway_mac),
            Some(&self.payload),
        )
    }
}

impl PushAck {
    pub fn serialize(&self, buffer: &mut Vec<u8>) -> (r: Result<u64, SerializeError>)
        ensures
            serialize_post(
                r,
                spec_ser(PacketV::Down(DownV::PushAck(self@))),
                old(buffer)@,
                final(buffer)@,
            ),
    {
        write_frame(buffer, self.random_token, PUSH_ACK_ID, None, None)
    }
}

impl PullAck {
    pub fn serialize(&self, buffer: &mut Vec<u8>) -> (r: Result<u64, SerializeError>)
        ensures
            serialize_post(
                r,
                spec_ser(PacketV::Down(DownV::PullAck(self@))),
                old(buffer)@,
                final(buffer)@,
            ),
    {
        write_frame(buffer, self.random_token, PULL_ACK_ID, None, None)
    }
}

impl PullResp {
    pub fn serialize(&self, buffer: &mut Vec<u8>) -> (r: Result<u64, SerializeError>)
        ensures
            serialize_post(
                r,
                spec_ser(PacketV::Down(DownV::PullResp(self@))),
                old(buffer)@,
                final(buffer)@,
            ),
    {
        write_frame(buffer, self.random_token, PULL_RESP_ID, None, Some(&self.payload))
    }
}

impl Packet {
    pub fn serialize(&self, buffer: &mut Vec<u8>) -> (r: Result<u64, SerializeError>)
        ensures
            serialize_post(r, spec_ser(self@), old(buffer)@, final(buffer)@),
    {
        match self {
            Packet::Up(Up::PushData(d)) => d.serialize(buffer),
            Packet::Up(Up::PullData(d)) => d.serialize(buffer),
            Packet::Up(Up::TxAck(d)) => d.serialize(buffer),
            Packet::Down(Down::PushAck(d)) => d.serialize(buffer),
            Packet::Down(Down::PullAck(d)) => d.serialize(buffer),
            Packet::Down(Down::PullResp(d)) => d.serialize(buffer),
        }
    }
}

/// Builds one frame as a fresh byte vector.
fn frame_vec(
    random_token: u16,
    identifier: u8,
    mac: Option<MacAddress>,
    payload: Option<&Vec<u8>>,
) -> (r: Vec<u8>)
    ensures
        r@ == frame_bytes(random_token, identifier, opt_mac_view(mac), opt_vec_view(payload)),
{
    let ghost f = frame_bytes(random_token, identifier, opt_mac_view(mac), opt_vec_view(payload));
    let mut v: Vec<u8> = Vec::new();
    v.push(PROTOCOL_VERSION);
    v.push((random_token / 256) as u8);
    v.push((random_token % 256) as u8);
    v.push(identifier);
    if let Some(m) = mac {
        let mut j: usize = 0;
        while j < 8
            invariant
                0 <= j <= 8,
                mac matches Some(mm) && mm == m,
                m@.len() == 8,
                v@ =~= f.take(4 + j),
                f == frame_bytes(random_token, identifier, opt_mac_view(mac), opt_vec_view(payload)),
            decreases 8 - j,
        {
            v.push(m.bytes[j]);
            j += 1;
        }
    }
    let base = v.len();
    assert(v@ =~= f.take(base as int));
    if let Some(p) = payload {
        let mut k: usize = 0;
        while k < p.len()
            invariant
                0 <= k <= p@.len(),
                payload matches Some(pp) && pp == p,
                v@.len() == base + k,
                base + p@.len() == f.len(),
                v@ =~= f.take(base + k),
                f == frame_bytes(random_token, identifier, opt_mac_view(mac), opt_vec_view(payload)),
            decreases p@.len() - k,
        {
            assert(f[(base + k) as int] == p@[k as int]);
            v.push(p[k]);
            k += 1;
        }
    }
    assert(v@ =~= f);
    v
}

impl Packet {
    /// The serialization of this frame as a fresh byte vector.
    pub fn to_bytes(&self) -> (r: Vec<u8>)
        ensures
            r@ == spec_ser(self@),
    {
        match self {
            Packet::Up(Up::PushData(d)) => frame_vec(
                d.random_token,
                PUSH_DATA_ID,
                Some(d.gateway_mac),
                Some(&d.payload),
            ),
            Packet::Up(Up::PullData(d)) => frame_vec(
                d.random_token,
                PULL_DATA_ID,
                Some(d.gateway_mac),
                None,
            ),
            Packet::Up(Up::TxAck(d)) => frame_vec(
                d.random_token,
                TX_ACK_ID,
                Some(d.gateway_mac),
                Some(&d.payload),
            ),
            Packet::Down(Down::PushAck(d)) => frame_vec(d.random_token, PUSH_ACK_ID, None, None),
            Packet::Down(Down::PullAck(d)) => frame_vec(d.random_token, PULL_ACK_ID, None, None),
            Packet::Down(Down::PullResp(d)) => frame_vec(
                d.random_token,
                PULL_RESP_ID,
                None,
                Some(&d.payload),
            ),
        }
    }
}

// ---------------------------------------------------------------------
// Executable parsing
// ---------------------------------------------------------------------

impl Packet {
    /// Parses the first `num_recv` bytes of `buffer` as one frame.
    pub fn parse(buffer: &[u8], num_recv: usize) -> (r: Result<Packet, ParseError>)
        requires
            num_recv <= buffer@.len(),
        ensures
            ({
                let b = buffer@.take(num_recv as int);
                match r {
                    Ok(p) => Some(p@) == spec_parse(b) && wf_packet(p@),
                    Err(e) => spec_parse(b) is None && e == spec_parse_err(b),
                }
            }),
    {
        let ghost b = buffer@.take(num_recv as int);
        if num_recv < 4 {
            return Err(ParseError::BufferTooShort);
        }
        if buffer[0] != PROTOCOL_VERSION {
            return Err(ParseError::InvalidProtocolVersion);
        }
        let random_token: u16 = (buffer[1] as u16) * 256 + (buffer[2] as u16);
        assert(random_token == spec_token(b[1], b[2]));
        let identifier = buffer[3];
        if identifier > TX_ACK_ID {
            return Err(ParseError::InvalidIdentifier);
        }
        if identifier == PUSH_ACK_ID || identifier == PULL_ACK_ID {
            if num_recv != 4 {
                return Err(ParseError::InvalidLength);
            }
            return if identifier == PUSH_ACK_ID {
                Ok(Packet::Down(Down::PushAck(PushAck { random_token })))
            } else {
                Ok(Packet::Down(Down::PullAck(PullAck { random_token })))
            };
        }
        if identifier == PULL_RESP_ID {
            let tail = vstd::slice::slice_subrange(buffer, 4, num_recv);
            assert(tail@ =~= b.skip(4));
            if scan_json(tail).is_none() {
                return Err(ParseError::InvalidJson);
            }
            let payload = vstd::slice::slice_to_vec(tail);
            return Ok(Packet::Down(Down::PullResp(PullResp { random_token, payload })));
        }
        // The remaining variants carry the 8-byte MAC.
        if num_recv < 12 {
            return Err(ParseError::BufferTooShort);
        }
        let gateway_mac = MacAddress::new(
            [
                buffer[4],
                buffer[5],
                buffer[6],
                buffer[7],
                buffer[8],
                buffer[9],
                buffer[10],
                buffer[11],
            ],
        );
        assert(gateway_mac@ =~= b.subrange(4, 12));
        if identifier == PULL_DATA_ID {
            if num_recv != 12 {
                return Err(ParseError::InvalidLength);
            }
            return Ok(Packet::Up(Up::PullData(PullData { random_token, gateway_mac })));
        }
        let tail = vstd::slice::slice_subrange(buffer, 12, num_recv);
        assert(tail@ =~= b.skip(12));
        if identifier == PUSH_DATA_ID {
            if scan_json(tail).is_none() {
                return Err(ParseError::InvalidJson);
            }
            let payload = vstd::slice::slice_to_vec(tail);
            return Ok(Packet::Up(Up::PushData(PushData { random_token, gateway_mac, payload })));
        }
        // TxAck: an empty tail means success; otherwise the payload must be
        // well-formed JSON and may carry an error code.
        if num_recv == 12 {
            return Ok(
                Packet::Up(
                    Up::TxAck(
                        TxAck { random_token, gateway_mac, payload: Vec::new(), error: None },
                    ),
                ),
            );
        }
        match scan_json(tail) {
            None => Err(ParseError::InvalidJson),
            Some(error) => {
                let payload = vstd::slice::slice_to_vec(tail);
                Ok(Packet::Up(Up::TxAck(TxAck { random_token, gateway_mac, payload, error })))
            },
        }
    }
}

} // verus!
