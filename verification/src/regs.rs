use vstd::prelude::*;

use crate::io::IoEvent;
use crate::io::RegisterIo;

verus! {

pub const BOOT0_OFFSET: usize = 0x00000000;

// 3:0 - chipset minor revision
pub const BOOT0_MINOR_REV_MASK: u32 = 0x0000000f;

// 7:4 - chipset major revision
pub const BOOT0_MAJOR_REV_MASK: u32 = 0x000000f0;

// 28:20 - chipset identifier (combining the implementation and architecture
//         identifier fields)
pub const BOOT0_CHIPSET_MASK: u32 = 0x1ff00000;

/// The chipset identifier packed into bits 28:20 of the boot register.
pub open spec fn spec_chipset_field(bits: u32) -> u32 {
    (bits & BOOT0_CHIPSET_MASK) >> 20u32
}

/// The minor revision packed into bits 3:0 of the boot register.
pub open spec fn spec_minor_rev(bits: u32) -> u8 {
    (bits & BOOT0_MINOR_REV_MASK) as u8
}

/// The major revision packed into bits 7:4 of the boot register.
pub open spec fn spec_major_rev(bits: u32) -> u8 {
    ((bits & BOOT0_MAJOR_REV_MASK) >> 4u32) as u8
}

/// The boot/identification register, exposing chipset identity and revision.
#[derive(Clone, Copy)]
pub struct Boot0 {
    bits: u32,
}

impl Boot0 {
    /// The raw register value this decoder was built from.
    pub closed spec fn spec_bits(&self) -> u32 {
        self.bits
    }

    pub fn read<B: RegisterIo>(bar: &mut B) -> (r: Self)
        ensures
            final(bar).log() == old(bar).log().push(
                IoEvent::Read32 { offset: BOOT0_OFFSET, value: r.spec_bits() },
            ),
    {
        Boot0 { bits: bar.read32(BOOT0_OFFSET) }
    }

    pub fn chipset(&self) -> (r: u32)
        ensures
            r == spec_chipset_field(self.spec_bits()),
            r < 0x200,
    {
        let b = self.bits;
        proof {
            assert((b & 0x1ff00000u32) >> 20u32 < 0x200) by (bit_vector);
        }
        (b & BOOT0_CHIPSET_MASK) >> 20u32
    }

    pub fn minor_rev(&self) -> (r: u8)
        ensures
            r == spec_minor_rev(self.spec_bits()),
    {
        (self.bits & BOOT0_MINOR_REV_MASK) as u8
    }

    pub fn major_rev(&self) -> (r: u8)
        ensures
            r == spec_major_rev(self.spec_bits()),
    {
        ((self.bits & BOOT0_MAJOR_REV_MASK) >> 4u32) as u8
    }
}

/// Law: the packed chipset field decodes exactly. Packing an identifier into
/// bits 28:20 of a boot register value and decoding the chipset field yields
/// the identifier back, whatever the bits outside the field hold.
pub proof fn lemma_chipset_field_roundtrip(id: u32, rest: u32)
    requires
        id < 0x200,
        rest & BOOT0_CHIPSET_MASK == 0,
    ensures
        spec_chipset_field((id << 20u32) | rest) == id,
{
    assert((((id << 20u32) | rest) & 0x1ff00000u32) >> 20u32 == id) by (bit_vector)
        requires
            id < 0x200,
            rest & 0x1ff00000u32 == 0,
    ;
}

pub const PTIMER_TIME_0: usize = 0x00009400;

pub const PTIMER_TIME_1: usize = 0x00009410;

/// The low word of the two-register monotonic hardware counter.
#[derive(Clone, Copy, PartialEq, Eq, Structural)]
pub struct PtimerTime0 {
    bits: u32,
}

impl PtimerTime0 {
    pub closed spec fn spec_bits(&self) -> u32 {
        self.bits
    }

    pub fn read<B: RegisterIo>(bar: &mut B) -> (r: Self)
        ensures
            final(bar).log() == old(bar).log().push(
                IoEvent::Read32 { offset: PTIMER_TIME_0, value: r.spec_bits() },
            ),
    {
        PtimerTime0 { bits: bar.read32(PTIMER_TIME_0) }
    }

    pub fn write<B: RegisterIo>(bar: &mut B, val: u32)
        ensures
            final(bar).log() == old(bar).log().push(
                IoEvent::Write32 { offset: PTIMER_TIME_0, value: val },
            ),
    {
        bar.write32(val, PTIMER_TIME_0)
    }

    pub fn lo(&self) -> (r: u32)
        ensures
            r == self.spec_bits(),
    {
        self.bits
    }
}

/// The high word of the two-register monotonic hardware counter.
#[derive(Clone, Copy, PartialEq, Eq, Structural)]
pub struct PtimerTime1 {
    bits: u32,
}

impl PtimerTime1 {
    pub closed spec fn spec_bits(&self) -> u32 {
        self.bits
    }

    pub fn read<B: RegisterIo>(bar: &mut B) -> (r: Self)
        ensures
            final(bar).log() == old(bar).log().push(
                IoEvent::Read32 { offset: PTIMER_TIME_1, value: r.spec_bits() },
            ),
    {
        PtimerTime1 { bits: bar.read32(PTIMER_TIME_1) }
    }

    pub fn write<B: RegisterIo>(bar: &mut B, val: u32)
        ensures
            final(bar).log() == old(bar).log().push(
                IoEvent::Write32 { offset: PTIMER_TIME_1, value: val },
            ),
    {
        bar.write32(val, PTIMER_TIME_1)
    }

    pub fn hi(&self) -> (r: u32)
        ensures
            r == self.spec_bits(),
    {
        self.bits
    }
}

} // verus!
