use nova_core::Error;
use nova_core::gpu::{Architecture, Chipset, to_lowercase_bytes};

const CATALOG: [(u32, Chipset, &[u8], &[u8]); 15] = [
    (0x162, Chipset::TU102, b"TU102", b"tu102"),
    (0x164, Chipset::TU104, b"TU104", b"tu104"),
    (0x166, Chipset::TU106, b"TU106", b"tu106"),
    (0x167, Chipset::TU117, b"TU117", b"tu117"),
    (0x168, Chipset::TU116, b"TU116", b"tu116"),
    (0x172, Chipset::GA102, b"GA102", b"ga102"),
    (0x173, Chipset::GA103, b"GA103", b"ga103"),
    (0x174, Chipset::GA104, b"GA104", b"ga104"),
    (0x176, Chipset::GA106, b"GA106", b"ga106"),
    (0x177, Chipset::GA107, b"GA107", b"ga107"),
    (0x192, Chipset::AD102, b"AD102", b"ad102"),
    (0x193, Chipset::AD103, b"AD103", b"ad103"),
    (0x194, Chipset::AD104, b"AD104", b"ad104"),
    (0x196, Chipset::AD106, b"AD106", b"ad106"),
    (0x197, Chipset::AD107, b"AD107", b"ad107"),
];

#[test]
fn identify_returns_matching_variant_for_every_catalog_id() {
    for (id, chipset, _, _) in CATALOG {
        assert_eq!(Chipset::try_from(id), Ok(chipset));
        assert_eq!(chipset.id(), id);
    }
}

#[test]
fn identify_rejects_ids_outside_the_catalog() {
    for id in [0x000, 0x161, 0x163, 0x165, 0x169, 0x170, 0x178, 0x191, 0x195, 0x198, 0x1ff,
        0x200, 0x1620, u32::MAX]
    {
        assert_eq!(Chipset::try_from(id), Err(Error::UnknownDevice));
    }
}

#[test]
fn derived_name_is_the_declared_name_lowercased() {
    for (_, chipset, upper, lower) in CATALOG {
        assert_eq!(chipset.upper_name(), upper.to_vec());
        assert_eq!(chipset.name(), lower.to_vec());
        assert_eq!(to_lowercase_bytes(&chipset.upper_name()), chipset.name());
    }
}

#[test]
fn lowercasing_maps_uppercase_only_and_keeps_other_bytes() {
    assert_eq!(to_lowercase_bytes(b"AbC-12z"), b"abc-12z".to_vec());
    assert_eq!(to_lowercase_bytes(b""), b"".to_vec());
    assert_eq!(to_lowercase_bytes(b"AZ"), b"az".to_vec());
    assert_eq!(to_lowercase_bytes(b"@[`{"), b"@[`{".to_vec());
    assert_eq!(to_lowercase_bytes(b"already lower 535.113.01"),
        b"already lower 535.113.01".to_vec());
}

#[test]
fn architecture_groups_chipsets_by_generation() {
    for (_, chipset, upper, _) in CATALOG {
        let expected = match upper[0] {
            b'T' => Architecture::Turing,
            b'G' => Architecture::Ampere,
            _ => Architecture::Ada,
        };
        assert_eq!(chipset.arch(), expected);
    }
}

#[test]
fn catalog_lists_all_variants_in_declaration_order() {
    let all = Chipset::all();
    assert_eq!(all.len(), 15);
    for (i, (_, chipset, _, _)) in CATALOG.iter().enumerate() {
        assert_eq!(all[i], *chipset);
    }
}
