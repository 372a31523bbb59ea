//! The gateway routing table: which endpoint each MAC last spoke from.
//!
//! Owned solely by the writer. Entries appear on a gateway's first
//! `PullData` and are replaced when its address changes; the core never
//! evicts them. The table is modeled as a map from the MAC's 64-bit key
//! to the endpoint.

use std::collections::HashMap;
use vstd::prelude::*;

use crate::endpoint::Endpoint;
use crate::mac::MacAddress;

verus! {

broadcast use vstd::std_specs::hash::group_hash_axioms;

/// The 8 MAC bytes read as one big-endian number: the key under which a
/// gateway's entry is held.
pub open spec fn mac_key(m: Seq<u8>) -> u64
    recommends
        m.len() == 8,
{
    ((((((((m[0] as int) * 256 + m[1] as int) * 256 + m[2] as int) * 256 + m[3] as int) * 256
        + m[4] as int) * 256 + m[5] as int) * 256 + m[6] as int) * 256 + m[7] as int) as u64
}

/// The MAC-to-endpoint table.
pub struct GatewayTable {
    clients: HashMap<u64, Endpoint>,
}

impl View for GatewayTable {
    type V = Map<u64, Endpoint>;

    closed spec fn view(&self) -> Map<u64, Endpoint> {
        self.clients@
    }
}

/// The MAC's table key, computed byte by byte.
pub fn mac_to_key(mac: &MacAddress) -> (k: u64)
    ensures
        k == mac_key(mac@),
{
    let mut k: u64 = mac.bytes[0] as u64;
    k = k * 256 + mac.bytes[1] as u64;
    k = k * 256 + mac.bytes[2] as u64;
    k = k * 256 + mac.bytes[3] as u64;
    k = k * 256 + mac.bytes[4] as u64;
    k = k * 256 + mac.bytes[5] as u64;
    k = k * 256 + mac.bytes[6] as u64;
    k = k * 256 + mac.bytes[7] as u64;
    k
}

impl GatewayTable {
    /// A fresh table with no gateway known.
    pub fn new() -> (r: GatewayTable)
        ensures
            r@ == Map::<u64, Endpoint>::empty(),
    {
        GatewayTable { clients: HashMap::new() }
    }

    /// The endpoint recorded for this MAC, if any.
    pub fn lookup(&self, mac: &MacAddress) -> (r: Option<Endpoint>)
        ensures
            r == if self@.contains_key(mac_key(mac@)) {
                Some(self@[mac_key(mac@)])
            } else {
                None::<Endpoint>
            },
    {
        let key = mac_to_key(mac);
        match self.clients.get(&key) {
            Some(addr) => Some(*addr),
            None => None,
        }
    }

    /// Records this MAC as reachable at this endpoint, replacing any
    /// earlier entry.
    pub fn insert(&mut self, mac: &MacAddress, addr: Endpoint)
        ensures
            final(self)@ == old(self)@.insert(mac_key(mac@), addr),
    {
        let key = mac_to_key(mac);
        self.clients.insert(key, addr);
    }
}

} // verus!
