//! The network address a gateway speaks from.

use vstd::prelude::*;

verus! {

/// A gateway's network address: the IP address held as its 128-bit value
/// (an IPv4 address is carried in the low 32 bits) together with the UDP
/// port. The protocol is indifferent to its contents: the runtime only
/// compares endpoints for equality and hands them back to the socket layer.
#[derive(Clone, Copy, Debug, PartialEq, Eq, Structural, Hash)]
pub struct Endpoint {
    pub ip: u128,
    pub port: u16,
}

impl Endpoint {
    pub fn new(ip: u128, port: u16) -> (r: Endpoint)
        ensures
            r == (Endpoint { ip, port }),
    {
        Endpoint { ip, port }
    }
}

} // verus!
