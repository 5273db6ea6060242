use vstd::prelude::*;
use crate::hexstr::hex_0x_of;
use crate::hexstr::hex_0x_string_of;

verus! {

/// Whether every byte of a run is zero.
pub open spec fn is_zero_bytes(b: Seq<u8>) -> bool {
    forall|i: int| 0 <= i < b.len() ==> b[i] == 0
}

/// A 20-byte account address held as plain bytes.
#[derive(Clone, Copy, Debug, PartialEq, Eq)]
pub struct Address {
    pub bytes: [u8; 20],
}

impl View for Address {
    type V = Seq<u8>;

    open spec fn view(&self) -> Seq<u8> {
        self.bytes@
    }
}

impl Address {
    pub fn new(bytes: [u8; 20]) -> (r: Address)
        ensures
            r.bytes == bytes,
    {
        Address { bytes }
    }

    /// Whether this is the all-zero address, which the feed uses for the
    /// native asset.
    pub fn is_zero(&self) -> (r: bool)
        ensures
            r == is_zero_bytes(self@),
    {
        let mut i: usize = 0;
        while i < 20
            invariant
                i <= 20,
                forall|j: int| 0 <= j < i ==> self.bytes[j] == 0,
            decreases 20 - i,
        {
            if self.bytes[i] != 0 {
                return false;
            }
            i += 1;
        }
        true
    }

    /// Byte-for-byte equality of two addresses.
    pub fn same(&self, other: &Address) -> (r: bool)
        ensures
            r == (self@ == other@),
    {
        let mut i: usize = 0;
        while i < 20
            invariant
                i <= 20,
                forall|j: int| 0 <= j < i ==> self.bytes[j] == other.bytes[j],
            decreases 20 - i,
        {
            if self.bytes[i] != other.bytes[i] {
                assert(self@ != other@);
                return false;
            }
            i += 1;
        }
        proof {
            assert(self@ =~= other@);
        }
        true
    }

    /// The canonical textual form: `0x` and forty lowercase hex digits.
    pub fn to_hex(&self) -> (r: String)
        ensures
            r@ == hex_0x_of(self@),
    {
        hex_0x_string_of(self.bytes.as_slice())
    }
}

} // verus!
