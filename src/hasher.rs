use std::hash::Hasher;
use vstd::prelude::*;

verus! {

/// Hasher for type identities: the 64-bit value written is the hash.
///
/// The only values it is ever given are `TypeId`s, which are already unique
/// numbers, so no mixing is done.
#[derive(Default)]
pub struct Noop {
    pub value: u64,
}

/// The number that eight bytes spell with the least significant first.
pub open spec fn le_value(b: Seq<u8>) -> int {
    b[0] as int + b[1] as int * 0x100 + b[2] as int * 0x1_0000 + b[3] as int * 0x100_0000
        + b[4] as int * 0x1_0000_0000 + b[5] as int * 0x100_0000_0000 + b[6] as int
        * 0x1_0000_0000_0000 + b[7] as int * 0x100_0000_0000_0000
}

/// The number that eight bytes spell with the most significant first.
pub open spec fn be_value(b: Seq<u8>) -> int {
    b[7] as int + b[6] as int * 0x100 + b[5] as int * 0x1_0000 + b[4] as int * 0x100_0000
        + b[3] as int * 0x1_0000_0000 + b[2] as int * 0x100_0000_0000 + b[1] as int
        * 0x1_0000_0000_0000 + b[0] as int * 0x100_0000_0000_0000
}

/// Reads eight bytes as a `u64` in the machine's byte order.
///
/// Relies on `u64::from_ne_bytes`: the machine is little- or big-endian, and
/// the bytes are read in that order.
#[verifier::external_body]
fn u64_from_ne_bytes(b: [u8; 8]) -> (r: u64)
    ensures
        r as int == le_value(b@) || r as int == be_value(b@),
{
    u64::from_ne_bytes(b)
}

impl Hasher for Noop {
    fn finish(&self) -> (r: u64)
        ensures
            r == self.value,
    {
        self.value
    }

    /// A type identity is written as one eight-byte unit. Input of any other
    /// width lies outside what this hasher is for and leaves it unchanged.
    fn write(&mut self, bytes: &[u8])
        ensures
            bytes@.len() == 8 ==> (final(self).value as int == le_value(bytes@)
                || final(self).value as int == be_value(bytes@)),
            bytes@.len() != 8 ==> *final(self) == *old(self),
    {
        if bytes.len() == 8 {
            let b: [u8; 8] = [
                bytes[0],
                bytes[1],
                bytes[2],
                bytes[3],
                bytes[4],
                bytes[5],
                bytes[6],
                bytes[7],
            ];
            assert(b@ =~= bytes@);
            self.value = u64_from_ne_bytes(b);
        }
    }
}

} // verus!
