use kernel_core::pci::PciDevice;
use kernel_core::pci::PciRegistry;
use kernel_core::pci::Register;
use kernel_core::pci::check_device;
use kernel_core::pci::config_address;
use kernel_core::pci::get_device;
use kernel_core::pci::scan_devices;
use kernel_core::pci::collect_devices;
use kernel_core::pci::ConfigSnapshot;
use kernel_core::pci::SCAN_PROBES;
use kernel_core::QemuExitCode;

#[test]
fn register_lanes() {
    let r = Register::new(0x8139_10EC);
    assert_eq!(r.dword(), 0x8139_10EC);
    assert_eq!(r.word(0), 0x10EC);
    assert_eq!(r.word(1), 0x8139);
    assert_eq!(r.byte(0), 0xEC);
    assert_eq!(r.byte(1), 0x10);
    assert_eq!(r.byte(2), 0x39);
    assert_eq!(r.byte(3), 0x81);
}

#[test]
fn config_address_encoding() {
    // Bus 0, slot 3, function 0, register 4: enable bit | slot | offset.
    assert_eq!(config_address(0, 3, 0, 4), 0x8000_0000 | (3 << 11) | 16);
    assert_eq!(config_address(0xAB, 31, 7, 63), 0x8000_0000 | (0xAB << 16) | (31 << 11) | (7 << 8) | 0xFC);
    assert_eq!(config_address(0, 0, 0, 0), 0x8000_0000);
}

fn sample_device(vendor: u16, id: u16, bar0: u32) -> PciDevice {
    let reg0 = Register::new(((id as u32) << 16) | vendor as u32);
    let reg2 = Register::new(0x0200_0010);
    check_device(0, 3, reg0, reg2, [bar0, 0, 0, 0, 0, 0]).unwrap()
}

#[test]
fn check_device_absent() {
    let reg0 = Register::new(0xFFFF_FFFF);
    let reg2 = Register::new(0);
    assert!(check_device(0, 0, reg0, reg2, [0; 6]).is_none());
}

#[test]
fn check_device_present_decodes_header() {
    let d = sample_device(0x10EC, 0x8139, 0xC101);
    assert_eq!(d.vendor, 0x10EC);
    assert_eq!(d.id, 0x8139);
    assert_eq!(d.class, 0x02);
    assert_eq!(d.subclass, 0x00);
    assert_eq!(d.prog, 0x00);
    assert_eq!(d.revision, 0x10);
    assert_eq!(d.bus, 0);
    assert_eq!(d.slot, 3);
    assert_eq!(d.function, 0);
}

#[test]
fn io_base_masks_flag_bits() {
    let d = sample_device(0x10EC, 0x8139, 0xC101);
    assert_eq!(d.io_base(), 0xC100);
}

#[test]
fn enable_mastering_sets_bit_two() {
    let d = sample_device(0x10EC, 0x8139, 0);
    let cmd = d.enable_mastering(Register::new(0x0103));
    assert_eq!(cmd.inner, 0x0107);
}

#[test]
fn scan_records_once() {
    let mut reg = PciRegistry::new();
    assert!(!reg.scanned);
    scan_devices(&mut reg, vec![sample_device(0x10EC, 0x8139, 0xC101)]);
    assert!(reg.scanned);
    assert_eq!(reg.devices.len(), 1);
}

#[test]
fn scan_twice_is_idempotent() {
    let mut reg = PciRegistry::new();
    scan_devices(&mut reg, vec![sample_device(0x10EC, 0x8139, 0xC101), sample_device(0x8086, 0x7010, 0)]);
    let before: Vec<(u16, u16)> = reg.devices.iter().map(|d| (d.vendor, d.id)).collect();
    // A second walk may report anything; the registry must not change.
    scan_devices(&mut reg, vec![sample_device(0x1234, 0x5678, 0)]);
    let after: Vec<(u16, u16)> = reg.devices.iter().map(|d| (d.vendor, d.id)).collect();
    assert_eq!(before, after);
    assert_eq!(reg.devices.len(), 2);
}

#[test]
fn get_device_finds_first_match() {
    let mut reg = PciRegistry::new();
    scan_devices(
        &mut reg,
        vec![
            sample_device(0x8086, 0x7010, 1),
            sample_device(0x10EC, 0x8139, 2),
            sample_device(0x10EC, 0x8139, 3),
        ],
    );
    let d = get_device(&reg, 0x10EC, 0x8139).unwrap();
    assert_eq!(d.base_addresses[0], 2);
    assert!(get_device(&reg, 0x1022, 0x2000).is_none());
}

#[test]
fn collect_devices_walks_in_scan_order() {
    let empty = ConfigSnapshot {
        reg0: Register::new(0xFFFF_FFFF),
        reg2: Register::new(0),
        bars: [0; 6],
    };
    let mut probes = vec![empty; SCAN_PROBES];
    // An IDE controller at bus 0, slot 1 and the NIC at bus 2, slot 3.
    probes[1] = ConfigSnapshot {
        reg0: Register::new(0x7010_8086),
        reg2: Register::new(0x0101_8000),
        bars: [0; 6],
    };
    probes[2 * 32 + 3] = ConfigSnapshot {
        reg0: Register::new(0x8139_10EC),
        reg2: Register::new(0x0200_0010),
        bars: [0xC101, 0, 0, 0, 0, 0],
    };
    let devices = collect_devices(&probes);
    assert_eq!(devices.len(), 2);
    assert_eq!((devices[0].bus, devices[0].slot, devices[0].vendor), (0, 1, 0x8086));
    assert_eq!((devices[1].bus, devices[1].slot, devices[1].vendor), (2, 3, 0x10EC));
    assert_eq!(devices[1].function, 0);
    assert_eq!(devices[1].io_base(), 0xC100);
}

#[test]
fn qemu_exit_codes() {
    assert_eq!(QemuExitCode::Success.exit_code(), 0x10);
    assert_eq!(QemuExitCode::Failed.exit_code(), 0x11);
}
