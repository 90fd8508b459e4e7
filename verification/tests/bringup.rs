use nova_core::Error;
use nova_core::gpu::{Chipset, Gpu, Spec};
use nova_core::regs::Boot0;
use nova_core::request::{FirmwareDevice, FwFunc};
use nova_core::sim::{SimBar, SimFirmwareDevice};

fn stable_clock() -> Vec<u64> {
    vec![3, 3, 3]
}

fn tu102_store() -> SimFirmwareDevice {
    let mut dev = SimFirmwareDevice::new();
    dev.insert(b"nvidia/tu102/gsp/booter_load-535.113.01.bin".to_vec(), b"LOAD".to_vec());
    dev.insert(b"nvidia/tu102/gsp/booter_unload-535.113.01.bin".to_vec(), b"UNLOAD".to_vec());
    dev.insert(b"nvidia/tu102/gsp/bootloader-535.113.01.bin".to_vec(), b"BOOTLDR".to_vec());
    dev.insert(b"nvidia/tu102/gsp/gsp-535.113.01.bin".to_vec(), b"GSP".to_vec());
    dev
}

#[test]
fn boot_register_decodes_chipset_and_revision() {
    // Bits 28:24 arch, 23:20 impl, 7:4 major, 3:0 minor; everything outside
    // those fields must be ignored by the decoders.
    let raw: u32 = 0x1620_00a3 | 0xe000_0000 | 0x000f_ff00;
    let mut bar = SimBar::new(raw, stable_clock());
    let boot0 = Boot0::read(&mut bar);
    assert_eq!(boot0.chipset(), 0x162);
    assert_eq!(boot0.major_rev(), 0xa);
    assert_eq!(boot0.minor_rev(), 0x3);
}

#[test]
fn packed_chipset_field_round_trips_to_the_catalog_id() {
    for (id, chipset) in [(0x162u32, Chipset::TU102), (0x197, Chipset::AD107)] {
        let raw = (id << 20) | 0x8000_0071;
        let mut bar = SimBar::new(raw, stable_clock());
        let boot0 = Boot0::read(&mut bar);
        assert_eq!(boot0.chipset(), id);
        assert_eq!(Chipset::try_from(boot0.chipset()), Ok(chipset));
    }
}

#[test]
fn spec_snapshot_identifies_a_known_device() {
    let mut bar = SimBar::new(0x1720_0051, stable_clock());
    let spec = Spec::new(&mut bar).unwrap();
    assert_eq!(spec.chipset, Chipset::GA102);
    assert_eq!(spec.revision.major, 5);
    assert_eq!(spec.revision.minor, 1);
}

#[test]
fn spec_snapshot_rejects_an_unknown_device() {
    let mut bar = SimBar::new(0x1610_0000, stable_clock());
    assert_eq!(Spec::new(&mut bar), Err(Error::UnknownDevice));
}

#[test]
fn gpu_bringup_loads_all_four_firmware_blobs() {
    let mut bar = SimBar::new(0x1620_00a1, stable_clock());
    let dev = tu102_store();
    let gpu = match Gpu::new(&mut bar, &dev) {
        Ok(g) => g,
        Err(e) => panic!("bring-up failed: {:?}", e),
    };
    assert_eq!(gpu.spec.chipset, Chipset::TU102);
    assert_eq!(gpu.spec.revision.major, 0xa);
    assert_eq!(gpu.spec.revision.minor, 0x1);
    assert_eq!(gpu.fw.booter_load, b"LOAD".to_vec());
    assert_eq!(gpu.fw.booter_unload, b"UNLOAD".to_vec());
    assert_eq!(gpu.fw.bootloader, b"BOOTLDR".to_vec());
    assert_eq!(gpu.fw.gsp, b"GSP".to_vec());
}

#[test]
fn gpu_bringup_fails_when_the_chipset_is_unknown() {
    let mut bar = SimBar::new(0x1990_0000, stable_clock());
    let dev = tu102_store();
    match Gpu::new(&mut bar, &dev) {
        Err(Error::UnknownDevice) => {},
        other => panic!("expected UnknownDevice, got {:?}", other.map(|_| ())),
    }
}

#[test]
fn gpu_bringup_fails_when_a_blob_is_missing() {
    let mut bar = SimBar::new(0x1620_0000, stable_clock());
    let mut dev = SimFirmwareDevice::new();
    // Everything but the main firmware blob is available.
    dev.insert(b"nvidia/tu102/gsp/booter_load-535.113.01.bin".to_vec(), b"LOAD".to_vec());
    dev.insert(b"nvidia/tu102/gsp/booter_unload-535.113.01.bin".to_vec(), b"UNLOAD".to_vec());
    dev.insert(b"nvidia/tu102/gsp/bootloader-535.113.01.bin".to_vec(), b"BOOTLDR".to_vec());
    match Gpu::new(&mut bar, &dev) {
        Err(Error::FirmwareRequestFailed) => {},
        other => panic!("expected FirmwareRequestFailed, got {:?}", other.map(|_| ())),
    }
}

#[test]
fn timer_self_test_passes_on_a_frozen_clock() {
    let mut bar = SimBar::new(0x1620_0000, stable_clock());
    let dev = tu102_store();
    let gpu = Gpu::new(&mut bar, &dev).unwrap();
    assert_eq!(gpu.test_timer(&mut bar), Ok(()));
}

#[test]
fn both_request_modes_return_the_same_blob() {
    let dev = tu102_store();
    let path: &[u8] = b"nvidia/tu102/gsp/gsp-535.113.01.bin";
    assert_eq!(dev.request(path, FwFunc::request()), Ok(b"GSP".to_vec()));
    assert_eq!(dev.request(path, FwFunc::request_nowarn()), Ok(b"GSP".to_vec()));
    let missing: &[u8] = b"nvidia/tu102/gsp/other-535.113.01.bin";
    assert_eq!(dev.request(missing, FwFunc::request()), Err(Error::FirmwareRequestFailed));
    assert_eq!(dev.request(missing, FwFunc::request_nowarn()), Err(Error::FirmwareRequestFailed));
}

#[test]
fn firmware_store_keeps_the_first_entry_for_a_path() {
    let mut dev = SimFirmwareDevice::new();
    dev.insert(b"p".to_vec(), b"first".to_vec());
    dev.insert(b"p".to_vec(), b"second".to_vec());
    assert_eq!(dev.request(b"p", FwFunc::request()), Ok(b"first".to_vec()));
}

#[test]
fn error_kinds_are_distinct() {
    let kinds = [
        Error::UnknownDevice,
        Error::ResourceUnavailable,
        Error::Timeout,
        Error::FirmwareRequestFailed,
    ];
    for (i, a) in kinds.iter().enumerate() {
        for (j, b) in kinds.iter().enumerate() {
            assert_eq!(i == j, a == b);
        }
    }
}
