use nova_core::firmware::{ModInfoBuilder, build_manifest, firmware_path};
use nova_core::modinfo;

fn one_entry_pass(capacity: usize) -> modinfo::ModInfoBuilder {
    // One chipset, one component, exactly as the builder itself would push
    // them: module name "x", vendor prefix "nvidia", subsystem "gsp",
    // component "gsp", version "535.113.01".
    let b = modinfo::ModInfoBuilder::new(b"x".to_vec(), capacity);
    let b = b.prepare();
    let b = b.push(b"nvidia/");
    let b = b.push(b"tu102");
    let b = b.push(b"/gsp/");
    let b = b.push(b"gsp");
    let b = b.push(b"-");
    let b = b.push(b"535.113.01");
    b.push(b".bin")
}

#[test]
fn sizing_then_building_agree_on_one_entry() {
    let sizing_final_length = {
        let sizer = one_entry_pass(0);
        sizer.build_length() - 1
    };
    let capacity = sizing_final_length + 1;
    let built = one_entry_pass(capacity).build().unwrap();
    assert_eq!(built.len(), sizing_final_length + 1);
    let parts: Vec<&[u8]> = built.split(|b| *b == 0).collect();
    assert_eq!(
        parts,
        vec![
            b"x.firmware=".as_slice(),
            b"nvidia/tu102/gsp/gsp-535.113.01.bin".as_slice(),
            b"".as_slice(),
        ],
    );
}

#[test]
fn building_at_the_wrong_capacity_is_a_hard_failure() {
    assert!(one_entry_pass(10).build().is_none());
    let right = one_entry_pass(0).build_length();
    assert!(one_entry_pass(right + 1).build().is_none());
    assert!(one_entry_pass(right).build().is_some());
}

#[test]
fn push_requires_a_prepare_separator_between_entries() {
    let b = modinfo::ModInfoBuilder::new(b"m".to_vec(), 0);
    let b = b.prepare().push(b"one").prepare().push(b"two");
    // "m.firmware=\0" + "one" + "\0" + "two", plus build's terminator.
    assert_eq!(b.build_length(), 12 + 3 + 1 + 3 + 1);
}

#[test]
fn manifest_covers_every_chipset_and_component() {
    let built = build_manifest(b"NovaCore");
    let parts: Vec<&[u8]> = built.split(|b| *b == 0).collect();
    // The module pseudo-entry, four entries for each of 15 chipsets, and the
    // empty tail after the final terminator.
    assert_eq!(parts.len(), 1 + 60 + 1);
    assert_eq!(parts[0], b"NovaCore.firmware=".as_slice());
    assert_eq!(parts[1], b"nvidia/tu102/gsp/booter_load-535.113.01.bin".as_slice());
    assert_eq!(parts[2], b"nvidia/tu102/gsp/booter_unload-535.113.01.bin".as_slice());
    assert_eq!(parts[3], b"nvidia/tu102/gsp/bootloader-535.113.01.bin".as_slice());
    assert_eq!(parts[4], b"nvidia/tu102/gsp/gsp-535.113.01.bin".as_slice());
    assert_eq!(parts[60], b"nvidia/ad107/gsp/gsp-535.113.01.bin".as_slice());
    assert_eq!(parts[61], b"".as_slice());
    for name in [
        "tu102", "tu104", "tu106", "tu117", "tu116", "ga102", "ga103", "ga104", "ga106",
        "ga107", "ad102", "ad103", "ad104", "ad106", "ad107",
    ] {
        let wanted = format!("nvidia/{}/gsp/gsp-535.113.01.bin", name);
        assert!(parts.iter().any(|p| *p == wanted.as_bytes()));
    }
}

#[test]
fn manifest_building_pass_fills_exactly_the_sized_capacity() {
    let sizer = ModInfoBuilder::create(b"NovaCore".to_vec(), 0);
    let capacity = sizer.build_length();
    let builder = ModInfoBuilder::create(b"NovaCore".to_vec(), capacity);
    let built = builder.build().unwrap();
    assert_eq!(built.len(), capacity);
    assert_eq!(built, build_manifest(b"NovaCore"));
}

#[test]
fn manifest_without_a_module_name_has_no_leading_entry() {
    let built = build_manifest(b"");
    let parts: Vec<&[u8]> = built.split(|b| *b == 0).collect();
    assert_eq!(parts.len(), 60 + 1);
    assert_eq!(parts[0], b"nvidia/tu102/gsp/booter_load-535.113.01.bin".as_slice());
    assert_eq!(parts[60], b"".as_slice());
}

#[test]
fn firmware_path_lays_out_all_components() {
    assert_eq!(
        firmware_path(b"ad102", b"bootloader", b"535.113.01"),
        b"nvidia/ad102/gsp/bootloader-535.113.01.bin".to_vec(),
    );
    assert_eq!(firmware_path(b"c", b"f", b"v"), b"nvidia/c/gsp/f-v.bin".to_vec());
}
