use vstd::prelude::*;

verus! {

/// Width in bits of the address field in the low end of a standard identifier.
pub const ADDRESS_BIT_LENGTH: u16 = 8;

/// Destination node address; every byte value is a valid address.
#[derive(Clone, Copy, Debug, PartialEq, Eq, Structural)]
pub struct ZanCanAddress(pub u8);

impl ZanCanAddress {
    pub fn new(raw: u8) -> (r: ZanCanAddress)
        ensures
            r.0 == raw,
    {
        ZanCanAddress(raw)
    }

    pub fn as_u8(&self) -> (r: u8)
        ensures
            r == self.0,
    {
        self.0
    }
}

} // verus!
