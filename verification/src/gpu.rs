use vstd::prelude::*;

use crate::firmware::firmware_path;
use crate::firmware::spec_booter_load_name;
use crate::firmware::spec_booter_unload_name;
use crate::firmware::spec_bootloader_name;
use crate::firmware::spec_firmware_path;
use crate::firmware::spec_fw_version;
use crate::firmware::spec_gsp_name;
use crate::io::IoEvent;
use crate::io::RegisterIo;
use crate::regs::BOOT0_OFFSET;
use crate::regs::Boot0;
use crate::regs::spec_chipset_field;
use crate::regs::spec_major_rev;
use crate::regs::spec_minor_rev;
use crate::request::FirmwareDevice;
use crate::request::FwFunc;
use crate::timer::Timer;

verus! {

/// ASCII lowercasing of a single byte: uppercase letters are mapped to their
/// lowercase counterpart, every other byte is unchanged.
pub open spec fn spec_lower_byte(b: u8) -> u8 {
    if 'A' as u8 <= b && b <= 'Z' as u8 {
        (b + 32) as u8
    } else {
        b
    }
}

/// ASCII lowercasing of a byte string, applied pointwise.
pub open spec fn spec_lower_bytes(s: Seq<u8>) -> Seq<u8> {
    Seq::new(s.len(), |i: int| spec_lower_byte(s[i]))
}

/// Copy a byte slice into an owned vector.
pub fn vec_from(b: &[u8]) -> (r: Vec<u8>)
    ensures
        r@ == b@,
{
    let mut v: Vec<u8> = Vec::new();
    let mut i: usize = 0;
    while i < b.len()
        invariant
            i <= b@.len(),
            v@ == b@.take(i as int),
        decreases b@.len() - i,
    {
        v.push(b[i]);
        proof {
            assert(v@ =~= b@.take(i + 1));
        }
        i = i + 1;
    }
    proof {
        assert(b@.take(b@.len() as int) =~= b@);
    }
    v
}

/// Map every ASCII uppercase letter of `s` to lowercase, leaving all other
/// bytes unchanged.
pub fn to_lowercase_bytes(s: &[u8]) -> (r: Vec<u8>)
    ensures
        r@ == spec_lower_bytes(s@),
{
    let mut v: Vec<u8> = Vec::new();
    let mut i: usize = 0;
    while i < s.len()
        invariant
            i <= s@.len(),
            v@ == spec_lower_bytes(s@).take(i as int),
        decreases s@.len() - i,
    {
        let b = s[i];
        if 'A' as u8 <= b && b <= 'Z' as u8 {
            v.push(b + 32);
        } else {
            v.push(b);
        }
        proof {
            assert(v@ =~= spec_lower_bytes(s@).take(i + 1));
        }
        i = i + 1;
    }
    proof {
        assert(spec_lower_bytes(s@).take(s@.len() as int) =~= spec_lower_bytes(s@));
    }
    v
}

/// Enum representation of the GPU chipset.
#[derive(Clone, Copy, PartialEq, Eq, Structural, Debug)]
pub enum Chipset {
    TU102,
    TU104,
    TU106,
    TU117,
    TU116,
    GA102,
    GA103,
    GA104,
    GA106,
    GA107,
    AD102,
    AD103,
    AD104,
    AD106,
    AD107,
}

/// Enum representation of the GPU generation.
#[derive(Clone, Copy, PartialEq, Eq, Structural, Debug)]
pub enum Architecture {
    Turing,
    Ampere,
    Ada,
}

/// The vendor-assigned numeric device identifier of each catalog variant.
pub open spec fn spec_chipset_id(c: Chipset) -> u32 {
    match c {
        Chipset::TU102 => 0x162,
        Chipset::TU104 => 0x164,
        Chipset::TU106 => 0x166,
        Chipset::TU117 => 0x167,
        Chipset::TU116 => 0x168,
        Chipset::GA102 => 0x172,
        Chipset::GA103 => 0x173,
        Chipset::GA104 => 0x174,
        Chipset::GA106 => 0x176,
        Chipset::GA107 => 0x177,
        Chipset::AD102 => 0x192,
        Chipset::AD103 => 0x193,
        Chipset::AD104 => 0x194,
        Chipset::AD106 => 0x196,
        Chipset::AD107 => 0x197,
    }
}

/// The catalog lookup: the variant a numeric chipset identifier denotes, if any.
pub open spec fn spec_chipset_of_id(value: u32) -> Option<Chipset> {
    if value == 0x162 {
        Some(Chipset::TU102)
    } else if value == 0x164 {
        Some(Chipset::TU104)
    } else if value == 0x166 {
        Some(Chipset::TU106)
    } else if value == 0x167 {
        Some(Chipset::TU117)
    } else if value == 0x168 {
        Some(Chipset::TU116)
    } else if value == 0x172 {
        Some(Chipset::GA102)
    } else if value == 0x173 {
        Some(Chipset::GA103)
    } else if value == 0x174 {
        Some(Chipset::GA104)
    } else if value == 0x176 {
        Some(Chipset::GA106)
    } else if value == 0x177 {
        Some(Chipset::GA107)
    } else if value == 0x192 {
        Some(Chipset::AD102)
    } else if value == 0x193 {
        Some(Chipset::AD103)
    } else if value == 0x194 {
        Some(Chipset::AD104)
    } else if value == 0x196 {
        Some(Chipset::AD106)
    } else if value == 0x197 {
        Some(Chipset::AD107)
    } else {
        None
    }
}

/// The architecture family that groups each chipset.
pub open spec fn spec_chipset_arch(c: Chipset) -> Architecture {
    match c {
        Chipset::TU102 | Chipset::TU104 | Chipset::TU106 | Chipset::TU117 | Chipset::TU116
            => Architecture::Turing,
        Chipset::GA102 | Chipset::GA103 | Chipset::GA104 | Chipset::GA106 | Chipset::GA107
            => Architecture::Ampere,
        Chipset::AD102 | Chipset::AD103 | Chipset::AD104 | Chipset::AD106 | Chipset::AD107
            => Architecture::Ada,
    }
}

/// The declared (uppercase) symbolic name of each catalog variant.
pub open spec fn spec_chipset_upper_name(c: Chipset) -> Seq<u8> {
    match c {
        Chipset::TU102 => seq!['T' as u8, 'U' as u8, '1' as u8, '0' as u8, '2' as u8],
        Chipset::TU104 => seq!['T' as u8, 'U' as u8, '1' as u8, '0' as u8, '4' as u8],
        Chipset::TU106 => seq!['T' as u8, 'U' as u8, '1' as u8, '0' as u8, '6' as u8],
        Chipset::TU117 => seq!['T' as u8, 'U' as u8, '1' as u8, '1' as u8, '7' as u8],
        Chipset::TU116 => seq!['T' as u8, 'U' as u8, '1' as u8, '1' as u8, '6' as u8],
        Chipset::GA102 => seq!['G' as u8, 'A' as u8, '1' as u8, '0' as u8, '2' as u8],
        Chipset::GA103 => seq!['G' as u8, 'A' as u8, '1' as u8, '0' as u8, '3' as u8],
        Chipset::GA104 => seq!['G' as u8, 'A' as u8, '1' as u8, '0' as u8, '4' as u8],
        Chipset::GA106 => seq!['G' as u8, 'A' as u8, '1' as u8, '0' as u8, '6' as u8],
        Chipset::GA107 => seq!['G' as u8, 'A' as u8, '1' as u8, '0' as u8, '7' as u8],
        Chipset::AD102 => seq!['A' as u8, 'D' as u8, '1' as u8, '0' as u8, '2' as u8],
        Chipset::AD103 => seq!['A' as u8, 'D' as u8, '1' as u8, '0' as u8, '3' as u8],
        Chipset::AD104 => seq!['A' as u8, 'D' as u8, '1' as u8, '0' as u8, '4' as u8],
        Chipset::AD106 => seq!['A' as u8, 'D' as u8, '1' as u8, '0' as u8, '6' as u8],
        Chipset::AD107 => seq!['A' as u8, 'D' as u8, '1' as u8, '0' as u8, '7' as u8],
    }
}

/// The canonical lowercase symbolic name of each catalog variant, derived
/// mechanically from the declared name by ASCII lowercasing.
pub open spec fn spec_chipset_name(c: Chipset) -> Seq<u8> {
    spec_lower_bytes(spec_chipset_upper_name(c))
}

/// The catalog, in declaration order.
pub open spec fn spec_catalog() -> Seq<Chipset> {
    seq![
        Chipset::TU102,
        Chipset::TU104,
        Chipset::TU106,
        Chipset::TU117,
        Chipset::TU116,
        Chipset::GA102,
        Chipset::GA103,
        Chipset::GA104,
        Chipset::GA106,
        Chipset::GA107,
        Chipset::AD102,
        Chipset::AD103,
        Chipset::AD104,
        Chipset::AD106,
        Chipset::AD107,
    ]
}

fn bytes5(b0: u8, b1: u8, b2: u8, b3: u8, b4: u8) -> (r: Vec<u8>)
    ensures
        r@ == seq![b0, b1, b2, b3, b4],
{
    let mut v: Vec<u8> = Vec::new();
    v.push(b0);
    v.push(b1);
    v.push(b2);
    v.push(b3);
    v.push(b4);
    proof {
        assert(v@ =~= seq![b0, b1, b2, b3, b4]);
    }
    v
}

impl Chipset {
    /// The vendor-assigned numeric device identifier of this variant.
    pub fn id(&self) -> (r: u32)
        ensures
            r == spec_chipset_id(*self),
    {
        match self {
            Chipset::TU102 => 0x162,
            Chipset::TU104 => 0x164,
            Chipset::TU106 => 0x166,
            Chipset::TU117 => 0x167,
            Chipset::TU116 => 0x168,
            Chipset::GA102 => 0x172,
            Chipset::GA103 => 0x173,
            Chipset::GA104 => 0x174,
            Chipset::GA106 => 0x176,
            Chipset::GA107 => 0x177,
            Chipset::AD102 => 0x192,
            Chipset::AD103 => 0x193,
            Chipset::AD104 => 0x194,
            Chipset::AD106 => 0x196,
            Chipset::AD107 => 0x197,
        }
    }

    /// Look a raw numeric chipset identifier up in the catalog; identifiers
    /// outside the catalog are a hard failure.
    pub fn try_from(value: u32) -> (r: Result<Chipset, crate::Error>)
        ensures
            r == match spec_chipset_of_id(value) {
                Some(c) => Ok::<Chipset, crate::Error>(c),
                None => Err::<Chipset, crate::Error>(crate::Error::UnknownDevice),
            },
    {
        match value {
            0x162 => Ok(Chipset::TU102),
            0x164 => Ok(Chipset::TU104),
            0x166 => Ok(Chipset::TU106),
            0x167 => Ok(Chipset::TU117),
            0x168 => Ok(Chipset::TU116),
            0x172 => Ok(Chipset::GA102),
            0x173 => Ok(Chipset::GA103),
            0x174 => Ok(Chipset::GA104),
            0x176 => Ok(Chipset::GA106),
            0x177 => Ok(Chipset::GA107),
            0x192 => Ok(Chipset::AD102),
            0x193 => Ok(Chipset::AD103),
            0x194 => Ok(Chipset::AD104),
            0x196 => Ok(Chipset::AD106),
            0x197 => Ok(Chipset::AD107),
            _ => Err(crate::Error::UnknownDevice),
        }
    }

    /// The architecture family of this chipset.
    pub fn arch(&self) -> (r: Architecture)
        ensures
            r == spec_chipset_arch(*self),
    {
        match self {
            Chipset::TU102 | Chipset::TU104 | Chipset::TU106 | Chipset::TU117
                | Chipset::TU116 => Architecture::Turing,
            Chipset::GA102 | Chipset::GA103 | Chipset::GA104 | Chipset::GA106
                | Chipset::GA107 => Architecture::Ampere,
            Chipset::AD102 | Chipset::AD103 | Chipset::AD104 | Chipset::AD106
                | Chipset::AD107 => Architecture::Ada,
        }
    }

    /// The declared (uppercase) symbolic name of this variant.
    pub fn upper_name(&self) -> (r: Vec<u8>)
        ensures
            r@ == spec_chipset_upper_name(*self),
    {
        match self {
            Chipset::TU102 => bytes5('T' as u8, 'U' as u8, '1' as u8, '0' as u8, '2' as u8),
            Chipset::TU104 => bytes5('T' as u8, 'U' as u8, '1' as u8, '0' as u8, '4' as u8),
            Chipset::TU106 => bytes5('T' as u8, 'U' as u8, '1' as u8, '0' as u8, '6' as u8),
            Chipset::TU117 => bytes5('T' as u8, 'U' as u8, '1' as u8, '1' as u8, '7' as u8),
            Chipset::TU116 => bytes5('T' as u8, 'U' as u8, '1' as u8, '1' as u8, '6' as u8),
            Chipset::GA102 => bytes5('G' as u8, 'A' as u8, '1' as u8, '0' as u8, '2' as u8),
            Chipset::GA103 => bytes5('G' as u8, 'A' as u8, '1' as u8, '0' as u8, '3' as u8),
            Chipset::GA104 => bytes5('G' as u8, 'A' as u8, '1' as u8, '0' as u8, '4' as u8),
            Chipset::GA106 => bytes5('G' as u8, 'A' as u8, '1' as u8, '0' as u8, '6' as u8),
            Chipset::GA107 => bytes5('G' as u8, 'A' as u8, '1' as u8, '0' as u8, '7' as u8),
            Chipset::AD102 => bytes5('A' as u8, 'D' as u8, '1' as u8, '0' as u8, '2' as u8),
            Chipset::AD103 => bytes5('A' as u8, 'D' as u8, '1' as u8, '0' as u8, '3' as u8),
            Chipset::AD104 => bytes5('A' as u8, 'D' as u8, '1' as u8, '0' as u8, '4' as u8),
            Chipset::AD106 => bytes5('A' as u8, 'D' as u8, '1' as u8, '0' as u8, '6' as u8),
            Chipset::AD107 => bytes5('A' as u8, 'D' as u8, '1' as u8, '0' as u8, '7' as u8),
        }
    }

    /// The canonical lowercase symbolic name of this variant, used both as a
    /// debug label and as a firmware path component.
    pub fn name(&self) -> (r: Vec<u8>)
        ensures
            r@ == spec_chipset_name(*self),
    {
        let upper = self.upper_name();
        to_lowercase_bytes(upper.as_slice())
    }

    /// The catalog, in declaration order.
    pub fn all() -> (r: Vec<Chipset>)
        ensures
            r@ == spec_catalog(),
    {
        let mut v: Vec<Chipset> = Vec::new();
        v.push(Chipset::TU102);
        v.push(Chipset::TU104);
        v.push(Chipset::TU106);
        v.push(Chipset::TU117);
        v.push(Chipset::TU116);
        v.push(Chipset::GA102);
        v.push(Chipset::GA103);
        v.push(Chipset::GA104);
        v.push(Chipset::GA106);
        v.push(Chipset::GA107);
        v.push(Chipset::AD102);
        v.push(Chipset::AD103);
        v.push(Chipset::AD104);
        v.push(Chipset::AD106);
        v.push(Chipset::AD107);
        proof {
            assert(v@ =~= spec_catalog());
        }
        v
    }
}

/// Law: identification is exact. Every catalog variant is found under its own
/// identifier, and an identifier is found in the catalog if and only if some
/// variant carries it.
pub proof fn lemma_identify_exact(c: Chipset, value: u32)
    ensures
        spec_chipset_of_id(spec_chipset_id(c)) == Some(c),
        spec_chipset_of_id(value) matches Some(d) ==> spec_chipset_id(d) == value,
        spec_chipset_of_id(value) is None ==> forall|d: Chipset| spec_chipset_id(d) != value,
{
}

/// Law: the derived symbolic name of every catalog variant equals its declared
/// name with every ASCII uppercase letter mapped to lowercase and all other
/// bytes unchanged.
pub proof fn lemma_name_is_lowercased_declared_name(c: Chipset)
    ensures
        spec_chipset_name(c) == spec_lower_bytes(spec_chipset_upper_name(c)),
        spec_chipset_name(c).len() == spec_chipset_upper_name(c).len(),
        forall|i: int|
            0 <= i < spec_chipset_upper_name(c).len() ==> spec_chipset_name(c)[i]
                == spec_lower_byte(spec_chipset_upper_name(c)[i]),
{
}

/// The major/minor revision pair decoded from the boot register.
#[derive(Clone, Copy, PartialEq, Eq, Structural, Debug)]
pub struct Revision {
    pub major: u8,
    pub minor: u8,
}

impl Revision {
    pub fn from_boot0(boot0: Boot0) -> (r: Self)
        ensures
            r.major == spec_major_rev(boot0.spec_bits()),
            r.minor == spec_minor_rev(boot0.spec_bits()),
    {
        Revision { major: boot0.major_rev(), minor: boot0.minor_rev() }
    }
}

/// Immutable snapshot of the chipset and its revision, read once from the
/// boot register at attach time.
#[derive(Clone, Copy, PartialEq, Eq, Structural, Debug)]
pub struct Spec {
    pub chipset: Chipset,
    /// The revision of the chipset.
    pub revision: Revision,
}

impl Spec {
    /// Read the boot register once and decode it: an identifier outside the
    /// catalog is a hard failure, since firmware paths cannot be derived for
    /// an unknown device.
    pub fn new<B: RegisterIo>(bar: &mut B) -> (r: Result<Spec, crate::Error>)
        ensures
            final(bar).log().len() == old(bar).log().len() + 1,
            old(bar).log().is_prefix_of(final(bar).log()),
            final(bar).log().last() matches IoEvent::Read32 { offset, value } && offset
                == BOOT0_OFFSET && match r {
                Ok(s) => {
                    &&& spec_chipset_of_id(spec_chipset_field(value)) == Some(s.chipset)
                    &&& s.revision.major == spec_major_rev(value)
                    &&& s.revision.minor == spec_minor_rev(value)
                },
                Err(e) => {
                    &&& e == crate::Error::UnknownDevice
                    &&& spec_chipset_of_id(spec_chipset_field(value)) is None
                },
            },
    {
        let boot0 = Boot0::read(bar);
        let chipset = match Chipset::try_from(boot0.chipset()) {
            Ok(c) => c,
            Err(e) => {
                return Err(e);
            },
        };
        Ok(Spec { chipset, revision: Revision::from_boot0(boot0) })
    }
}

/// The host supplies, under each of the four component paths of chipset `c`
/// at version `ver`, exactly the bytes `fw` holds.
pub open spec fn spec_firmware_matches<D: FirmwareDevice>(
    dev: D,
    c: Chipset,
    ver: Seq<u8>,
    fw: Firmware,
) -> bool {
    let nm = spec_chipset_name(c);
    &&& dev.blob(spec_firmware_path(nm, spec_booter_load_name(), ver)) == Some(fw.booter_load@)
    &&& dev.blob(spec_firmware_path(nm, spec_booter_unload_name(), ver)) == Some(
        fw.booter_unload@,
    )
    &&& dev.blob(spec_firmware_path(nm, spec_bootloader_name(), ver)) == Some(fw.bootloader@)
    &&& dev.blob(spec_firmware_path(nm, spec_gsp_name(), ver)) == Some(fw.gsp@)
}

/// The host lacks at least one of the four component blobs of chipset `c` at
/// version `ver`.
pub open spec fn spec_firmware_missing<D: FirmwareDevice>(dev: D, c: Chipset, ver: Seq<u8>) -> bool {
    let nm = spec_chipset_name(c);
    ||| dev.blob(spec_firmware_path(nm, spec_booter_load_name(), ver)) is None
    ||| dev.blob(spec_firmware_path(nm, spec_booter_unload_name(), ver)) is None
    ||| dev.blob(spec_firmware_path(nm, spec_bootloader_name(), ver)) is None
    ||| dev.blob(spec_firmware_path(nm, spec_gsp_name(), ver)) is None
}

/// The firmware blobs required for the GPU to operate.
pub struct Firmware {
    pub booter_load: Vec<u8>,
    pub booter_unload: Vec<u8>,
    pub bootloader: Vec<u8>,
    pub gsp: Vec<u8>,
}

impl Firmware {
    /// Request the four firmware components of `spec`'s chipset at version
    /// `ver` from the host; the first missing blob fails the whole request.
    pub fn new<D: FirmwareDevice>(dev: &D, spec: &Spec, ver: &[u8]) -> (r: Result<
        Firmware,
        crate::Error,
    >)
        requires
            ver@.len() + 100 <= usize::MAX,
        ensures
            r matches Ok(fw) ==> spec_firmware_matches(*dev, spec.chipset, ver@, fw),
            r matches Err(e) ==> e == crate::Error::FirmwareRequestFailed
                && spec_firmware_missing(*dev, spec.chipset, ver@),
    {
        let chip_name = spec.chipset.name();
        let component = crate::firmware::booter_load_name();
        let path = firmware_path(chip_name.as_slice(), component.as_slice(), ver);
        let booter_load = match dev.request(path.as_slice(), FwFunc::request()) {
            Ok(d) => d,
            Err(e) => {
                return Err(e);
            },
        };
        let component = crate::firmware::booter_unload_name();
        let path = firmware_path(chip_name.as_slice(), component.as_slice(), ver);
        let booter_unload = match dev.request(path.as_slice(), FwFunc::request()) {
            Ok(d) => d,
            Err(e) => {
                return Err(e);
            },
        };
        let component = crate::firmware::bootloader_name();
        let path = firmware_path(chip_name.as_slice(), component.as_slice(), ver);
        let bootloader = match dev.request(path.as_slice(), FwFunc::request()) {
            Ok(d) => d,
            Err(e) => {
                return Err(e);
            },
        };
        let component = crate::firmware::gsp_name();
        let path = firmware_path(chip_name.as_slice(), component.as_slice(), ver);
        let gsp = match dev.request(path.as_slice(), FwFunc::request()) {
            Ok(d) => d,
            Err(e) => {
                return Err(e);
            },
        };
        Ok(Firmware { booter_load, booter_unload, bootloader, gsp })
    }
}

/// The resources required to operate the GPU.
pub struct Gpu {
    pub spec: Spec,
    pub fw: Firmware,
    pub timer: Timer,
}

impl Gpu {
    /// Bring the device up: identify the chipset from the boot register, then
    /// request its four firmware components at the catalog's fixed version.
    pub fn new<B: RegisterIo, D: FirmwareDevice>(bar: &mut B, dev: &D) -> (r: Result<
        Gpu,
        crate::Error,
    >)
        ensures
            final(bar).log().len() == old(bar).log().len() + 1,
            old(bar).log().is_prefix_of(final(bar).log()),
            final(bar).log().last() matches IoEvent::Read32 { offset, value } && offset
                == BOOT0_OFFSET && match r {
                Ok(g) => {
                    &&& spec_chipset_of_id(spec_chipset_field(value)) == Some(g.spec.chipset)
                    &&& g.spec.revision.major == spec_major_rev(value)
                    &&& g.spec.revision.minor == spec_minor_rev(value)
                    &&& spec_firmware_matches(*dev, g.spec.chipset, spec_fw_version(), g.fw)
                },
                Err(crate::Error::UnknownDevice) => spec_chipset_of_id(spec_chipset_field(value))
                    is None,
                Err(crate::Error::FirmwareRequestFailed) => spec_chipset_of_id(
                    spec_chipset_field(value),
                ) matches Some(c) && spec_firmware_missing(*dev, c, spec_fw_version()),
                Err(_) => false,
            },
    {
        let spec = match Spec::new(bar) {
            Ok(s) => s,
            Err(e) => {
                return Err(e);
            },
        };
        let ver = crate::firmware::fw_version();
        let fw = match Firmware::new(dev, &spec, ver.as_slice()) {
            Ok(f) => f,
            Err(e) => {
                return Err(e);
            },
        };
        Ok(Gpu { spec, fw, timer: Timer::new() })
    }

    /// Self-test of the timer subdevice: a condition that is already true
    /// must succeed at once, and a condition that never holds must time out.
    /// Both outcomes are proved, so the self-test always passes.
    pub fn test_timer<B: RegisterIo>(&self, bar: &mut B) -> (r: Result<(), crate::Error>)
        ensures
            r matches Ok(_),
    {
        let always = || -> (o: Option<()>)
            ensures
                o == Some(()),
            { Some(()) };
        let first = self.timer.wait_on(bar, 10_000_000, always);
        let never = || -> (o: Option<()>)
            ensures
                o is None,
            { None };
        let second = self.timer.wait_on(bar, 10_000_000, never);
        match (first, second) {
            (Ok(_), Err(crate::Error::Timeout)) => Ok(()),
            _ => {
                proof {
                    assert(false);
                }
                Err(crate::Error::Timeout)
            },
        }
    }
}

} // verus!
