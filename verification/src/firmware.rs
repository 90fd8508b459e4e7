use vstd::prelude::*;

use crate::gpu::Chipset;
use crate::gpu::spec_catalog;
use crate::gpu::spec_chipset_name;
use crate::gpu::vec_from;
use crate::modinfo;
use crate::modinfo::spec_module_entry;

verus! {

/// The vendor directory every firmware path starts with.
pub open spec fn spec_vendor_dir() -> Seq<u8> {
    seq!['n' as u8, 'v' as u8, 'i' as u8, 'd' as u8, 'i' as u8, 'a' as u8, '/' as u8]
}

/// The subsystem directory between the chipset name and the blob name.
pub open spec fn spec_subsystem_dir() -> Seq<u8> {
    seq!['/' as u8, 'g' as u8, 's' as u8, 'p' as u8, '/' as u8]
}

/// The suffix every firmware path ends with.
pub open spec fn spec_bin_suffix() -> Seq<u8> {
    seq!['.' as u8, 'b' as u8, 'i' as u8, 'n' as u8]
}

/// The firmware version all paths are resolved against.
pub open spec fn spec_fw_version() -> Seq<u8> {
    seq![
        '5' as u8,
        '3' as u8,
        '5' as u8,
        '.' as u8,
        '1' as u8,
        '1' as u8,
        '3' as u8,
        '.' as u8,
        '0' as u8,
        '1' as u8,
    ]
}

pub open spec fn spec_booter_load_name() -> Seq<u8> {
    seq![
        'b' as u8,
        'o' as u8,
        'o' as u8,
        't' as u8,
        'e' as u8,
        'r' as u8,
        '_' as u8,
        'l' as u8,
        'o' as u8,
        'a' as u8,
        'd' as u8,
    ]
}

pub open spec fn spec_booter_unload_name() -> Seq<u8> {
    seq![
        'b' as u8,
        'o' as u8,
        'o' as u8,
        't' as u8,
        'e' as u8,
        'r' as u8,
        '_' as u8,
        'u' as u8,
        'n' as u8,
        'l' as u8,
        'o' as u8,
        'a' as u8,
        'd' as u8,
    ]
}

pub open spec fn spec_bootloader_name() -> Seq<u8> {
    seq![
        'b' as u8,
        'o' as u8,
        'o' as u8,
        't' as u8,
        'l' as u8,
        'o' as u8,
        'a' as u8,
        'd' as u8,
        'e' as u8,
        'r' as u8,
    ]
}

pub open spec fn spec_gsp_name() -> Seq<u8> {
    seq!['g' as u8, 's' as u8, 'p' as u8]
}

/// The path under which a firmware component of version `ver` is requested
/// for the chipset whose lowercase name is `chipset`:
/// `nvidia/<chipset>/gsp/<fw>-<ver>.bin`.
pub open spec fn spec_firmware_path(chipset: Seq<u8>, fw: Seq<u8>, ver: Seq<u8>) -> Seq<u8> {
    spec_vendor_dir() + chipset + spec_subsystem_dir() + fw + seq!['-' as u8] + ver
        + spec_bin_suffix()
}

/// One NUL-terminated manifest entry for a chipset/component pair, at the
/// catalog's fixed firmware version.
pub open spec fn spec_entry(chipset: Seq<u8>, fw: Seq<u8>) -> Seq<u8> {
    spec_firmware_path(chipset, fw, spec_fw_version()) + seq![0u8]
}

/// The four manifest entries of one chipset, in component order.
pub open spec fn spec_block_bytes(chipset: Seq<u8>) -> Seq<u8> {
    spec_entry(chipset, spec_booter_load_name()) + spec_entry(chipset, spec_booter_unload_name())
        + spec_entry(chipset, spec_bootloader_name()) + spec_entry(chipset, spec_gsp_name())
}

/// The manifest entries of one catalog variant.
pub open spec fn spec_chipset_block(c: Chipset) -> Seq<u8> {
    spec_block_bytes(spec_chipset_name(c))
}

/// The concatenated manifest entries of a sequence of chipsets, in order.
pub open spec fn spec_blocks(cs: Seq<Chipset>) -> Seq<u8>
    decreases cs.len(),
{
    if cs.len() == 0 {
        Seq::<u8>::empty()
    } else {
        spec_blocks(cs.drop_last()) + spec_chipset_block(cs.last())
    }
}

/// The complete firmware path manifest for the given module name: the
/// optional module-name pseudo-entry followed by, for every chipset in
/// catalog order, the four NUL-terminated component paths.
pub open spec fn spec_manifest(module_name: Seq<u8>) -> Seq<u8> {
    spec_module_entry(module_name) + spec_blocks(spec_catalog())
}

pub fn booter_load_name() -> (r: Vec<u8>)
    ensures
        r@ == spec_booter_load_name(),
{
    let a: [u8; 11] = [
        'b' as u8,
        'o' as u8,
        'o' as u8,
        't' as u8,
        'e' as u8,
        'r' as u8,
        '_' as u8,
        'l' as u8,
        'o' as u8,
        'a' as u8,
        'd' as u8,
    ];
    let v = vec_from(a.as_slice());
    proof {
        assert(v@ =~= spec_booter_load_name());
    }
    v
}

pub fn booter_unload_name() -> (r: Vec<u8>)
    ensures
        r@ == spec_booter_unload_name(),
{
    let a: [u8; 13] = [
        'b' as u8,
        'o' as u8,
        'o' as u8,
        't' as u8,
        'e' as u8,
        'r' as u8,
        '_' as u8,
        'u' as u8,
        'n' as u8,
        'l' as u8,
        'o' as u8,
        'a' as u8,
        'd' as u8,
    ];
    let v = vec_from(a.as_slice());
    proof {
        assert(v@ =~= spec_booter_unload_name());
    }
    v
}

pub fn bootloader_name() -> (r: Vec<u8>)
    ensures
        r@ == spec_bootloader_name(),
{
    let a: [u8; 10] = [
        'b' as u8,
        'o' as u8,
        'o' as u8,
        't' as u8,
        'l' as u8,
        'o' as u8,
        'a' as u8,
        'd' as u8,
        'e' as u8,
        'r' as u8,
    ];
    let v = vec_from(a.as_slice());
    proof {
        assert(v@ =~= spec_bootloader_name());
    }
    v
}

pub fn gsp_name() -> (r: Vec<u8>)
    ensures
        r@ == spec_gsp_name(),
{
    let a: [u8; 3] = ['g' as u8, 's' as u8, 'p' as u8];
    let v = vec_from(a.as_slice());
    proof {
        assert(v@ =~= spec_gsp_name());
    }
    v
}

pub fn fw_version() -> (r: Vec<u8>)
    ensures
        r@ == spec_fw_version(),
{
    let a: [u8; 10] = [
        '5' as u8,
        '3' as u8,
        '5' as u8,
        '.' as u8,
        '1' as u8,
        '1' as u8,
        '3' as u8,
        '.' as u8,
        '0' as u8,
        '1' as u8,
    ];
    let v = vec_from(a.as_slice());
    proof {
        assert(v@ =~= spec_fw_version());
    }
    v
}

/// Construct the request path `nvidia/<chipset>/gsp/<fw>-<ver>.bin`.
pub fn firmware_path(chipset: &[u8], fw: &[u8], ver: &[u8]) -> (r: Vec<u8>)
    requires
        chipset@.len() + fw@.len() + ver@.len() + 20 <= usize::MAX,
    ensures
        r@ == spec_firmware_path(chipset@, fw@, ver@),
{
    let vendor: [u8; 7] = [
        'n' as u8,
        'v' as u8,
        'i' as u8,
        'd' as u8,
        'i' as u8,
        'a' as u8,
        '/' as u8,
    ];
    let subsystem: [u8; 5] = ['/' as u8, 'g' as u8, 's' as u8, 'p' as u8, '/' as u8];
    let dash: [u8; 1] = ['-' as u8];
    let suffix: [u8; 4] = ['.' as u8, 'b' as u8, 'i' as u8, 'n' as u8];
    let mut v = vec_from(vendor.as_slice());
    append_bytes(&mut v, chipset);
    append_bytes(&mut v, subsystem.as_slice());
    append_bytes(&mut v, fw);
    append_bytes(&mut v, dash.as_slice());
    append_bytes(&mut v, ver);
    append_bytes(&mut v, suffix.as_slice());
    proof {
        assert(v@ =~= spec_firmware_path(chipset@, fw@, ver@));
    }
    v
}

/// Append the bytes of `b` to `v`.
pub fn append_bytes(v: &mut Vec<u8>, b: &[u8])
    requires
        old(v)@.len() + b@.len() <= usize::MAX,
    ensures
        final(v)@ == old(v)@ + b@,
{
    let ghost orig = v@;
    let mut i: usize = 0;
    while i < b.len()
        invariant
            i <= b@.len(),
            orig.len() + b@.len() <= usize::MAX,
            v@ == orig + b@.take(i as int),
        decreases b@.len() - i,
    {
        v.push(b[i]);
        proof {
            assert(v@ =~= orig + b@.take(i + 1));
        }
        i = i + 1;
    }
    proof {
        assert(v@ =~= orig + b@);
    }
}

/// Driver-specific wrapper that composes the manifest entries for this
/// device's firmware components.
pub struct ModInfoBuilder(modinfo::ModInfoBuilder);

impl ModInfoBuilder {
    fn make_entry_file(self, chipset: &[u8], fw: &[u8]) -> (r: Self)
        requires
            self.0.well_formed(),
            self.0.pushed().len() + (if self.0.pushed().len() == 0 {
                self.0.module_name().len() + 11
            } else {
                1
            }) + chipset@.len() + fw@.len() + 60 <= usize::MAX,
        ensures
            r.0.well_formed(),
            r.0.pushed() == (if self.0.pushed().len() == 0 {
                spec_module_entry(self.0.module_name())
            } else {
                self.0.pushed() + seq![0u8]
            }) + spec_firmware_path(chipset@, fw@, spec_fw_version()),
            r.0.pushed().len() == (if self.0.pushed().len() == 0 {
                spec_module_entry(self.0.module_name()).len()
            } else {
                self.0.pushed().len() + 1
            }) + 27 + chipset@.len() + fw@.len(),
            r.0.capacity() == self.0.capacity(),
            r.0.module_name() == self.0.module_name(),
    {
        let ghost base = if self.0.pushed().len() == 0 {
            spec_module_entry(self.0.module_name())
        } else {
            self.0.pushed() + seq![0u8]
        };
        let vendor: [u8; 7] = [
            'n' as u8,
            'v' as u8,
            'i' as u8,
            'd' as u8,
            'i' as u8,
            'a' as u8,
            '/' as u8,
        ];
        let subsystem: [u8; 5] = ['/' as u8, 'g' as u8, 's' as u8, 'p' as u8, '/' as u8];
        let dash: [u8; 1] = ['-' as u8];
        let suffix: [u8; 4] = ['.' as u8, 'b' as u8, 'i' as u8, 'n' as u8];
        let version = fw_version();
        let mut b = self.0.prepare();
        b = b.push(vendor.as_slice());
        b = b.push(chipset);
        b = b.push(subsystem.as_slice());
        b = b.push(fw);
        b = b.push(dash.as_slice());
        b = b.push(version.as_slice());
        b = b.push(suffix.as_slice());
        proof {
            assert(b.pushed() =~= base + spec_firmware_path(chipset@, fw@, spec_fw_version()));
            assert(spec_firmware_path(chipset@, fw@, spec_fw_version()).len() == 27
                + chipset@.len() + fw@.len());
            assert(spec_module_entry(self.0.module_name()).len() == if self.0.module_name().len()
                == 0 {
                0int
            } else {
                self.0.module_name().len() + 11int
            });
        }
        ModInfoBuilder(b)
    }

    #[verifier::rlimit(60)]
    fn make_entry_chipset(self, chipset: &[u8]) -> (r: Self)
        requires
            self.0.well_formed(),
            self.0.pushed().len() + (if self.0.pushed().len() == 0 {
                self.0.module_name().len() + 11
            } else {
                1
            }) + 4 * chipset@.len() + 400 <= usize::MAX,
        ensures
            r.0.well_formed(),
            r.0.pushed() + seq![0u8] == (if self.0.pushed().len() == 0 {
                spec_module_entry(self.0.module_name())
            } else {
                self.0.pushed() + seq![0u8]
            }) + spec_block_bytes(chipset@),
            r.0.pushed().len() > 0,
            r.0.pushed().len() <= self.0.pushed().len() + (if self.0.pushed().len() == 0 {
                self.0.module_name().len() + 11
            } else {
                1
            }) + 4 * chipset@.len() + 200,
            r.0.capacity() == self.0.capacity(),
            r.0.module_name() == self.0.module_name(),
    {
        let ghost base = if self.0.pushed().len() == 0 {
            spec_module_entry(self.0.module_name())
        } else {
            self.0.pushed() + seq![0u8]
        };
        let bl = booter_load_name();
        let bu = booter_unload_name();
        let bootloader = bootloader_name();
        let gsp = gsp_name();
        let this = self.make_entry_file(chipset, bl.as_slice());
        let this = this.make_entry_file(chipset, bu.as_slice());
        let this = this.make_entry_file(chipset, bootloader.as_slice());
        let this = this.make_entry_file(chipset, gsp.as_slice());
        proof {
            assert(this.0.pushed() + seq![0u8] =~= base + spec_block_bytes(chipset@));
        }
        this
    }

    /// Run the whole push sequence: for every chipset in catalog order, the
    /// four firmware component entries. With capacity 0 this is the sizing
    /// pass; with a non-zero capacity, the building pass.
    #[verifier::rlimit(60)]
    pub fn create(module_name: Vec<u8>, capacity: usize) -> (r: modinfo::ModInfoBuilder)
        requires
            module_name@.len() + 4000 <= usize::MAX,
        ensures
            r.well_formed(),
            r.capacity() == capacity,
            r.module_name() == module_name@,
            r.pushed() + seq![0u8] == spec_manifest(module_name@),
            r.pushed().len() < module_name@.len() + 3600,
    {
        let ghost m = module_name@;
        let cat = Chipset::all();
        let mut this = ModInfoBuilder(modinfo::ModInfoBuilder::new(module_name, capacity));
        let mut i: usize = 0;
        while i < cat.len()
            invariant
                cat@ == spec_catalog(),
                m.len() + 4000 <= usize::MAX,
                i <= 15,
                this.0.well_formed(),
                this.0.capacity() == capacity,
                this.0.module_name() == m,
                i == 0 ==> this.0.pushed() == Seq::<u8>::empty(),
                i > 0 ==> this.0.pushed() + seq![0u8] == spec_module_entry(m) + spec_blocks(
                    spec_catalog().take(i as int),
                ),
                i > 0 ==> this.0.pushed().len() > 0,
                this.0.pushed().len() <= m.len() + 11 + i * 230,
            decreases 15 - i,
        {
            let ghost pre = this.0.pushed();
            let name = cat[i].name();
            proof {
                assert(name@.len() == 5);
            }
            this = this.make_entry_chipset(name.as_slice());
            proof {
                let cs = spec_catalog();
                assert(cs.take(i + 1).drop_last() =~= cs.take(i as int));
                assert(cs.take(i + 1).last() == cs[i as int]);
                assert(spec_blocks(cs.take(i + 1)) == spec_blocks(cs.take(i as int))
                    + spec_chipset_block(cs[i as int]));
                if i == 0 {
                    assert(this.0.pushed() + seq![0u8] =~= spec_module_entry(m) + spec_blocks(
                        cs.take(1),
                    ));
                } else {
                    assert(this.0.pushed() + seq![0u8] =~= spec_module_entry(m) + spec_blocks(
                        cs.take(i + 1),
                    ));
                }
            }
            i = i + 1;
        }
        proof {
            assert(spec_catalog().take(15) =~= spec_catalog());
        }
        this.0
    }
}

/// Law: the sizing pass and the building pass agree. Any two builder runs of
/// the identical push sequence for the same module name — which is what
/// `create` guarantees for both passes — have pushed the same bytes, so the
/// building pass's occupied length (its pushes plus the one trailing
/// terminator) always equals the sizing pass's final length plus one.
pub proof fn lemma_two_pass_agreement(
    sizing: modinfo::ModInfoBuilder,
    building: modinfo::ModInfoBuilder,
    module_name: Seq<u8>,
)
    requires
        sizing.pushed() + seq![0u8] == spec_manifest(module_name),
        building.pushed() + seq![0u8] == spec_manifest(module_name),
    ensures
        building.pushed() == sizing.pushed(),
        building.pushed().len() + 1 == sizing.pushed().len() + 1,
{
    assert((sizing.pushed() + seq![0u8]).drop_last() =~= sizing.pushed());
    assert((building.pushed() + seq![0u8]).drop_last() =~= building.pushed());
}

/// Resolve the full manifest in two passes: a sizing pass computes the exact
/// capacity, then a building pass at that capacity fills the buffer. The two
/// passes run the identical push sequence, so the building pass provably
/// occupies exactly the sizing pass's final length plus one trailing
/// terminator.
pub fn build_manifest(module_name: &[u8]) -> (r: Vec<u8>)
    requires
        module_name@.len() + 4000 <= usize::MAX,
    ensures
        r@ == spec_manifest(module_name@),
{
    let sizer = ModInfoBuilder::create(vec_from(module_name), 0);
    let len = sizer.build_length();
    let builder = ModInfoBuilder::create(vec_from(module_name), len);
    proof {
        assert(builder.pushed() == sizer.pushed()) by {
            assert((builder.pushed() + seq![0u8]).drop_last() =~= builder.pushed());
            assert((sizer.pushed() + seq![0u8]).drop_last() =~= sizer.pushed());
        }
    }
    match builder.build() {
        Some(v) => {
            proof {
                assert(v@ =~= spec_manifest(module_name@));
            }
            v
        },
        None => {
            proof {
                assert(false);
            }
            Vec::new()
        },
    }
}

} // verus!
