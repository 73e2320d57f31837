//! A 32-byte account address, held as four 64-bit words.
//!
//! The engine never inspects the bytes of an address; it only compares
//! addresses for equality and passes them along, so a plain struct of four
//! words is enough and lets `==` carry its structural meaning in contracts.

use vstd::prelude::*;

verus! {

/// A 32-byte account address as four little-endian 64-bit words.
#[derive(Clone, Copy, PartialEq, Eq, Structural, Debug)]
pub struct Addr {
    pub w0: u64,
    pub w1: u64,
    pub w2: u64,
    pub w3: u64,
}

impl Addr {
    /// Builds an address from its four words.
    pub fn new(w0: u64, w1: u64, w2: u64, w3: u64) -> (r: Addr)
        ensures
            r == (Addr { w0, w1, w2, w3 }),
    {
        Addr { w0, w1, w2, w3 }
    }
}

} // verus!
