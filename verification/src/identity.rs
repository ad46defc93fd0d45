use vstd::prelude::*;

verus! {

/// A 32-byte account or participant identity, held as four 64-bit words in
/// little-endian order. The wire form of an identity is the 32 bytes obtained
/// by encoding each word little-endian, `w0` first.
#[derive(Clone, Copy, PartialEq, Eq, Structural, Debug)]
pub struct Identity {
    pub w0: u64,
    pub w1: u64,
    pub w2: u64,
    pub w3: u64,
}

} // verus!
