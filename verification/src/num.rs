use vstd::prelude::*;

verus! {

/// The 64-bit value denoted by a `(high, low)` pair of 32-bit halves.
pub open spec fn spec_u64_from_halves(high: u32, low: u32) -> u64 {
    ((high as u64) * 0x1_0000_0000 + (low as u64)) as u64
}

/// Useful operations for `u64`.
pub trait U64Ext: Sized {
    /// The value denoted by the `(high, low)` halves, as a specification-level number.
    spec fn combined(high: u32, low: u32) -> Self;

    /// Build a `u64` by combining its `high` and `low` parts.
    fn from_u32s(high: u32, low: u32) -> (r: Self)
        ensures
            r == Self::combined(high, low),
    ;

    /// Returns the `(high, low)` u32s that constitute `self`.
    fn into_u32s(self) -> (r: (u32, u32))
        ensures
            Self::combined(r.0, r.1) == self,
    ;
}

impl U64Ext for u64 {
    open spec fn combined(high: u32, low: u32) -> u64 {
        spec_u64_from_halves(high, low)
    }

    fn from_u32s(high: u32, low: u32) -> (r: u64) {
        let r = ((high as u64) << 32u64) | (low as u64);
        proof {
            assert(((high as u64) << 32u64) | (low as u64) == (high as u64) * 0x1_0000_0000 + (
            low as u64)) by (bit_vector);
        }
        r
    }

    fn into_u32s(self) -> (r: (u32, u32)) {
        let high = (self >> 32u64) as u32;
        let low = self as u32;
        proof {
            assert(((self >> 32u64) as u32 as u64) * 0x1_0000_0000 + (self as u32 as u64)
                == self) by (bit_vector);
        }
        (high, low)
    }
}

} // verus!
