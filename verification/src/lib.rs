//! Server-side runtime for the Semtech UDP packet-forwarder protocol.
//!
//! Gateways push radio uplinks and poll for downlinks over a stateless
//! datagram protocol; this library provides the verified core of a server
//! that terminates it: the frame codec, the gateway routing table, the
//! per-datagram reader decisions and the downlink acknowledgement
//! correlation. The I/O shell that binds a socket and runs the loops sits
//! outside the verified code and drives these functions.

pub mod codec;
pub mod downlink;
pub mod endpoint;
pub mod events;
pub mod json;
pub mod laws;
pub mod mac;
pub mod packet;
pub mod reader;
pub mod table;
pub mod writer;

pub use codec::{ParseError, SerializeError};
pub use downlink::{begin_send, match_ack, SendError, TxPk};
pub use endpoint::Endpoint;
pub use events::{Event, UdpMessage};
pub use mac::MacAddress;
pub use packet::{Down, Packet, PullAck, PullData, PullResp, PushAck, PushData, TxAck, Up};
pub use reader::{handle_datagram, ReaderActions};
pub use table::GatewayTable;
pub use writer::{writer_step, WriterEffects};
