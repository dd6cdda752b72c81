use vstd::prelude::*;

verus! {

/// A 32-byte account address, held as four little-endian 64-bit words
/// (`w0` covers bytes 0..8, `w1` bytes 8..16, and so on).
#[derive(Clone, Copy, Debug, PartialEq, Eq, Structural)]
pub struct Address {
    pub w0: u64,
    pub w1: u64,
    pub w2: u64,
    pub w3: u64,
}

impl Address {
    /// An address whose first word is `n` and whose other words are zero.
    pub fn from_u64(n: u64) -> (r: Address)
        ensures
            r == (Address { w0: n, w1: 0, w2: 0, w3: 0 }),
    {
        Address { w0: n, w1: 0, w2: 0, w3: 0 }
    }
}

} // verus!
