use kernel_core::rtl8139::EtherRxToken;
use kernel_core::rtl8139::InitStep;
use kernel_core::rtl8139::RX_BUFFER_LEN;
use kernel_core::rtl8139::Rtl8139;
use kernel_core::rtl8139::RxOutcome;
use kernel_core::rtl8139::capabilities;
use kernel_core::rtl8139::handle_isr;
use kernel_core::rtl8139::init_commands;
use kernel_core::rtl8139::irq_vector;
use kernel_core::rtl8139::tx_dma_done;
use kernel_core::rtl8139::tx_ok;

#[test]
fn transmit_slots_cycle() {
    let mut nic = Rtl8139::new(0xC100);
    assert_eq!(nic.current_tx, 3);
    assert_eq!(nic.get_transmit_buffer(100), 0);
    assert_eq!(nic.get_transmit_buffer(100), 1);
    assert_eq!(nic.get_transmit_buffer(100), 2);
    assert_eq!(nic.get_transmit_buffer(100), 3);
    assert_eq!(nic.get_transmit_buffer(100), 0);
}

#[test]
fn transmit_command_clamps_and_masks() {
    let mut nic = Rtl8139::new(0xC100);
    nic.get_transmit_buffer(10);
    let c = nic.transmit_packet(10);
    // Slot 0's status port, length clamped up to the 60-byte minimum.
    assert_eq!(c.port_offset, 0x10);
    assert_eq!(c.status_value, 60);
    nic.get_transmit_buffer(1500);
    let c = nic.transmit_packet(1500);
    assert_eq!(c.port_offset, 0x14);
    assert_eq!(c.status_value, 1500);
}

#[test]
fn receive_empty_when_bufe_set() {
    let mut nic = Rtl8139::new(0xC100);
    let rx = vec![0u8; RX_BUFFER_LEN];
    assert!(matches!(nic.receive_packet(0x05, 0, 0, &rx), RxOutcome::Empty));
    assert_eq!(nic.rx_offset, 0);
}

#[test]
fn receive_not_ready_resyncs_capr() {
    let mut nic = Rtl8139::new(0xC100);
    // Header at offset 16 has no ROK bit; CBA reads 100.
    let rx = vec![0u8; RX_BUFFER_LEN];
    match nic.receive_packet(0x04, 0, 100, &rx) {
        RxOutcome::NotReady { capr_write } => assert_eq!(capr_write, 84),
        _ => panic!("expected a resync"),
    }
    assert_eq!(nic.rx_offset, 0);
}

#[test]
fn receive_extracts_packet() {
    let mut nic = Rtl8139::new(0xC100);
    let mut rx = vec![0u8; RX_BUFFER_LEN];
    // CAPR starts at 65520; with the 16-byte padding the first packet sits
    // at ring offset 0.  Header: ROK, length word 20 (4 header bytes plus
    // 16 of data).
    rx[0] = 0x01;
    rx[1] = 0x00;
    rx[2] = 20;
    rx[3] = 0;
    for i in 0..16 {
        rx[4 + i] = 0xA0 + i as u8;
    }
    match nic.receive_packet(0x04, 0xFFF0, 0, &rx) {
        RxOutcome::Packet { data, capr_write } => {
            let expected: Vec<u8> = (0..16).map(|i| 0xA0 + i as u8).collect();
            assert_eq!(data, expected);
            // The read offset advances past header + data, 4-byte aligned.
            assert_eq!(nic.rx_offset, 24);
            assert_eq!(capr_write, 24 - 16);
        }
        _ => panic!("expected a packet"),
    }
}

#[test]
fn receive_aligns_read_offset() {
    let mut nic = Rtl8139::new(0xC100);
    let mut rx = vec![0u8; RX_BUFFER_LEN];
    rx[0] = 0x01;
    rx[2] = 21;  // 17 bytes of data: 0 + 21 + 4 = 25, aligned up to 28
    match nic.receive_packet(0x04, 0xFFF0, 0, &rx) {
        RxOutcome::Packet { data, capr_write } => {
            assert_eq!(data.len(), 17);
            assert_eq!(nic.rx_offset, 28);
            assert_eq!(capr_write, 12);
        }
        _ => panic!("expected a packet"),
    }
}

#[test]
fn init_sequence_order() {
    let steps = init_commands(0x1234_5000, [0x10, 0x20, 0x30, 0x40], 11);
    assert_eq!(steps.len(), 12);
    assert_eq!(steps[0], InitStep::Write8 { offset: 0x52, value: 0 });
    assert_eq!(steps[1], InitStep::Write8 { offset: 0x37, value: 0x10 });
    assert_eq!(steps[2], InitStep::WaitClear8 { offset: 0x37, mask: 0x10 });
    assert_eq!(steps[3], InitStep::Write32 { offset: 0x30, value: 0x1234_5000 });
    assert_eq!(steps[4], InitStep::Write32 { offset: 0x20, value: 0x10 });
    assert_eq!(steps[5], InitStep::Write32 { offset: 0x24, value: 0x20 });
    assert_eq!(steps[6], InitStep::Write32 { offset: 0x28, value: 0x30 });
    assert_eq!(steps[7], InitStep::Write32 { offset: 0x2C, value: 0x40 });
    assert_eq!(steps[8], InitStep::Write16 { offset: 0x3C, value: 0x5 });
    assert_eq!(steps[9], InitStep::SetHandler { vector: 43 });
    assert_eq!(steps[10], InitStep::Write32 { offset: 0x44, value: 0x8F });
    assert_eq!(steps[11], InitStep::Write8 { offset: 0x37, value: 0x0C });
}

#[test]
fn isr_ack_and_rx_notification() {
    let a = handle_isr(0x0005);
    assert_eq!(a.ack, 0x0005);
    assert!(a.notify_rx);
    let a = handle_isr(0x0004);
    assert!(!a.notify_rx);
}

#[test]
fn interrupt_vector_offsets_by_32() {
    assert_eq!(irq_vector(11), 43);
    assert_eq!(irq_vector(0), 32);
}

#[test]
fn tx_status_bits() {
    assert!(tx_dma_done(0x2000));
    assert!(!tx_dma_done(0x1000));
    assert!(tx_ok(0x8000));
    assert!(!tx_ok(0x2000));
}

#[test]
fn advertised_capabilities() {
    let c = capabilities();
    assert_eq!(c.max_transmission_unit, 1536);
    assert_eq!(c.max_burst_size, 1);
    assert_eq!(c.medium, kernel_core::rtl8139::Medium::Ethernet);
}

#[test]
fn rx_token_hands_buffer_through() {
    let t = EtherRxToken::new(vec![1, 2, 3]);
    assert_eq!(t.into_buffer(), vec![1, 2, 3]);
}
