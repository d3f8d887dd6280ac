use kernel_core::net::InterfaceRegistry;
use kernel_core::net::TcpListener;
use kernel_core::net::add_interface;
use kernel_core::net::any_changed;
use kernel_core::net::default_iface_config;
use kernel_core::net::get_interface;
use kernel_core::net::get_interfaces;
use kernel_core::net::is_rtl8139;
use kernel_core::pci::Register;
use kernel_core::pci::check_device;

#[test]
fn recognises_the_nic() {
    assert!(is_rtl8139(0x10EC, 0x8139));
    assert!(!is_rtl8139(0x8086, 0x7010));
    assert!(!is_rtl8139(0x10EC, 0x8169));
}

#[test]
fn default_config_matches_user_mode_network() {
    let c = default_iface_config();
    assert_eq!(c.addr, [10, 0, 2, 15]);
    assert_eq!(c.prefix_len, 24);
    assert_eq!(c.gateway, [10, 0, 2, 2]);
}

fn device(vendor: u16, id: u16, bar0: u32) -> kernel_core::pci::PciDevice {
    let reg0 = Register::new(((id as u32) << 16) | vendor as u32);
    check_device(0, 3, reg0, Register::new(0), [bar0, 0, 0, 0, 0, 0]).unwrap()
}

#[test]
fn add_interface_registers_the_nic_only() {
    let mut reg = InterfaceRegistry::new();
    assert_eq!(add_interface(&mut reg, &device(0x8086, 0x7010, 0)), None);
    assert_eq!(get_interfaces(&reg), 0);
    let idx = add_interface(&mut reg, &device(0x10EC, 0x8139, 0xC101)).unwrap();
    assert_eq!(idx, 0);
    assert_eq!(get_interfaces(&reg), 1);
    let info = get_interface(&reg, 0).unwrap();
    assert_eq!(info.index, 0);
    assert_eq!(info.io_base, 0xC100);
    assert!(get_interface(&reg, 1).is_none());
}

#[test]
fn any_changed_or_of_flags() {
    assert!(!any_changed(&vec![]));
    assert!(!any_changed(&vec![false, false]));
    assert!(any_changed(&vec![false, true, false]));
}

#[test]
fn listener_rearms_after_accept() {
    let mut l = TcpListener::new();
    l.listen(80);
    assert_eq!(l.endpoint, Some(80));
    // Not ready: nothing accepted, still armed.
    assert!(!l.accept_step(false, false));
    assert!(l.armed);
    // An established connection is taken and a new listener is armed on
    // the same port.
    assert!(l.accept_step(true, false));
    assert!(l.armed);
    assert_eq!(l.endpoint, Some(80));
    assert!(l.accept_step(false, true));
}
