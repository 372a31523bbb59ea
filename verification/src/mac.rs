//! The 8-byte gateway identifier carried in every protocol frame.

use vstd::prelude::*;

verus! {

/// Identifier of a gateway, as carried on the wire in `PushData`,
/// `PullData` and `TxAck` frames. It is not an Ethernet address; the
/// protocol merely names the field "MAC".
#[derive(Clone, Copy, Debug, Eq, Hash)]
pub struct MacAddress {
    pub bytes: [u8; 8],
}

impl View for MacAddress {
    type V = Seq<u8>;

    open spec fn view(&self) -> Seq<u8> {
        self.bytes@
    }
}

impl MacAddress {
    pub fn new(bytes: [u8; 8]) -> (r: MacAddress)
        ensures
            r@ == bytes@,
    {
        MacAddress { bytes }
    }
}

impl PartialEq for MacAddress {
    fn eq(&self, other: &MacAddress) -> (r: bool)
        ensures
            r == (self@ == other@),
    {
        let r = self.bytes[0] == other.bytes[0] && self.bytes[1] == other.bytes[1]
            && self.bytes[2] == other.bytes[2] && self.bytes[3] == other.bytes[3]
            && self.bytes[4] == other.bytes[4] && self.bytes[5] == other.bytes[5]
            && self.bytes[6] == other.bytes[6] && self.bytes[7] == other.bytes[7];
        proof {
            if r {
                assert(self@ =~= other@);
            }
        }
        r
    }
}

impl vstd::std_specs::cmp::PartialEqSpecImpl for MacAddress {
    open spec fn obeys_eq_spec() -> bool {
        true
    }

    open spec fn eq_spec(&self, other: &MacAddress) -> bool {
        self@ == other@
    }
}

} // verus!
