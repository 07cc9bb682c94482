use vstd::prelude::*;

verus! {

/// A 32-byte account identifier, held as four little-endian 64-bit words.
/// The all-zero address is the "unset" value.
#[derive(Clone, Copy, Debug, PartialEq, Eq, Structural)]
pub struct Address {
    pub w0: u64,
    pub w1: u64,
    pub w2: u64,
    pub w3: u64,
}

impl Address {
    pub open spec fn spec_is_zero(self) -> bool {
        self == Address::spec_zero()
    }

    pub open spec fn spec_zero() -> Address {
        Address { w0: 0, w1: 0, w2: 0, w3: 0 }
    }

    /// The all-zero address.
    pub fn zero() -> (r: Address)
        ensures
            r == Address::spec_zero(),
    {
        Address { w0: 0, w1: 0, w2: 0, w3: 0 }
    }

    /// An address whose first word is `w` and whose other words are zero.
    pub fn from_u64(w: u64) -> (r: Address)
        ensures
            r == (Address { w0: w, w1: 0, w2: 0, w3: 0 }),
    {
        Address { w0: w, w1: 0, w2: 0, w3: 0 }
    }

    /// Whether this is the all-zero address.
    pub fn is_zero(&self) -> (r: bool)
        ensures
            r == self.spec_is_zero(),
    {
        self.w0 == 0 && self.w1 == 0 && self.w2 == 0 && self.w3 == 0
    }
}

} // verus!
