use corefw::events::{MidiEvent, MidiPort};
use corefw::launchpad_pro::usb::usb_config;
use corefw::usb::control::{handle_setup_request, next_ep0_chunk, ControlState, SetupAction};
use corefw::usb::descriptors::{build_config_descriptor, build_device_descriptor, encode_string_descriptor};
use corefw::usb::midi::UsbMidiPacket;
use corefw::usb::otg::{fifo_bytes, fifo_words, rx_fifo_action, setup_packet, RxFifoAction};
use corefw::usb::pma::{clear_ctr_write, ep_actions, pma_bytes, EpRxAction, EpTxAction, pma_layout, pma_words, rx_count, rx_stat_write, tx_stat_write};
use corefw::usb::queues::{Ring, UsbQueues};
use corefw::usb::UsbDeviceConfig;
use corefw::usb::{dequeue_midi_event, enqueue_tx_packets, init_event_queues, take_tx_payload};

fn ready_control() -> ControlState {
    let mut control = ControlState::new();
    corefw::launchpad_pro::usb::init(&mut control);
    control
}

fn packet_bytes(action: &SetupAction) -> Vec<u8> {
    match action {
        SetupAction::SendPacket { data } => data.clone(),
        _ => panic!("expected a data packet"),
    }
}

#[test]
fn device_descriptor_carries_ids() {
    let cfg = usb_config();
    let mut out = [0u8; 18];
    build_device_descriptor(&cfg, &mut out);
    assert_eq!(out, [18, 1, 0x00, 0x02, 0, 0, 0, 8, 0x35, 0x12, 0x51, 0x00, 0x00, 0x02, 1, 2, 3, 1]);
}

#[test]
fn config_descriptor_declares_its_length_and_power() {
    let cfg = usb_config();
    let mut out = [0u8; 129];
    build_config_descriptor(&cfg, &mut out);
    assert_eq!(&out[0..9], &[9, 2, 129, 0, 2, 1, 0, 0x80, 250]);
    // Bulk OUT endpoint 1, bulk IN endpoint 0x81.
    assert_eq!(&out[103..107], &[7, 5, 0x01, 0x02]);
    assert_eq!(&out[116..120], &[7, 5, 0x81, 0x02]);
    assert_eq!(&out[123..129], &[6, 0x25, 1, 2, 7, 8]);
}

#[test]
fn string_descriptor_is_utf16_or_refused() {
    let mut out = [0xaau8; 8];
    assert_eq!(encode_string_descriptor("Hi", &mut out), 6);
    assert_eq!(out, [6, 3, b'H', 0, b'i', 0, 0xaa, 0xaa]);
    let mut small = [0u8; 4];
    assert_eq!(encode_string_descriptor("Long", &mut small), 0);
    assert_eq!(small, [0, 0, 0, 0]);
}

#[test]
fn device_descriptor_is_sent_in_ep0_sized_packets() {
    let mut control = ready_control();
    let first = handle_setup_request(&mut control, [0x80, 0x06, 0x00, 0x01, 0, 0, 64, 0]);
    assert_eq!(packet_bytes(&first), vec![18, 1, 0x00, 0x02, 0, 0, 0, 8]);
    assert_eq!(next_ep0_chunk(&mut control).unwrap(), vec![0x35, 0x12, 0x51, 0x00, 0x00, 0x02, 1, 2]);
    assert_eq!(next_ep0_chunk(&mut control).unwrap(), vec![3, 1]);
    assert!(next_ep0_chunk(&mut control).is_none());
}

#[test]
fn short_request_ending_on_packet_boundary_gets_no_zero_length_packet() {
    let mut control = ready_control();
    let first = handle_setup_request(&mut control, [0x80, 0x06, 0x00, 0x01, 0, 0, 8, 0]);
    assert_eq!(packet_bytes(&first).len(), 8);
    assert!(next_ep0_chunk(&mut control).is_none());
}

#[test]
fn long_descriptor_is_sent_whole() {
    let mut control = ready_control();
    let first = handle_setup_request(&mut control, [0x80, 0x06, 0x00, 0x02, 0, 0, 0xff, 0]);
    assert_eq!(packet_bytes(&first).len(), 8);
    let mut total = 8;
    while let Some(chunk) = next_ep0_chunk(&mut control) {
        assert!(!chunk.is_empty());
        total += chunk.len();
    }
    assert_eq!(total, 129);
}

#[test]
fn zero_length_packet_ends_a_transfer_shorter_than_asked() {
    let cfg = UsbDeviceConfig {
        vendor_id: 1,
        product_id: 2,
        bcd_device: 3,
        ep0_max_packet_size: 8,
        max_power_ma: 100,
        manufacturer: "m",
        product: "abc",
        serial_number: "s",
        port1_name: "p1",
        port2_name: "p2",
        use_ep2_for_out: true,
    };
    let mut control = ControlState::new();
    control.init(&cfg);
    let first = handle_setup_request(&mut control, [0x80, 0x06, 2, 3, 0, 0, 64, 0]);
    assert_eq!(packet_bytes(&first), vec![8, 3, b'a', 0, b'b', 0, b'c', 0]);
    assert_eq!(next_ep0_chunk(&mut control), Some(vec![]));
    assert!(next_ep0_chunk(&mut control).is_none());
    assert_eq!(pma_layout(&cfg), (0x40, 0x80, 0xc0, 0x00, 0x100));
}

#[test]
fn setup_requests_address_configuration_and_stalls() {
    let mut control = ready_control();
    assert!(matches!(handle_setup_request(&mut control, [0x00, 0x05, 0x85, 0, 0, 0, 0, 0]), SetupAction::StatusIn));
    assert_eq!(control.pending_address, 5);
    assert!(matches!(
        handle_setup_request(&mut control, [0x00, 0x09, 1, 0, 0, 0, 0, 0]),
        SetupAction::ConfigurationChanged(1)
    ));
    assert_eq!(control.configuration, 1);
    assert!(matches!(handle_setup_request(&mut control, [0x00, 0x09, 2, 0, 0, 0, 0, 0]), SetupAction::Stall));
    let cfg = handle_setup_request(&mut control, [0x80, 0x08, 0, 0, 0, 0, 1, 0]);
    assert_eq!(packet_bytes(&cfg), vec![1]);
    // Class requests stall.
    assert!(matches!(handle_setup_request(&mut control, [0x21, 0x0a, 0, 0, 0, 0, 0, 0]), SetupAction::Stall));
    // Unknown string index stalls.
    assert!(matches!(handle_setup_request(&mut control, [0x80, 0x06, 9, 3, 0, 0, 64, 0]), SetupAction::Stall));
}

#[test]
fn string_requests_read_the_configured_names() {
    let mut control = ready_control();
    let lang = handle_setup_request(&mut control, [0x80, 0x06, 0, 3, 0, 0, 0xff, 0]);
    assert_eq!(packet_bytes(&lang), vec![4, 3, 0x09, 0x04]);
    let product = handle_setup_request(&mut control, [0x80, 0x06, 2, 3, 0, 0, 0xff, 0]);
    assert_eq!(packet_bytes(&product), vec![28, 3, b'L', 0, b'a', 0, b'u', 0]);
}

#[test]
fn unconfigured_control_state_stalls() {
    let mut control = ControlState::new();
    assert!(matches!(handle_setup_request(&mut control, [0x80, 0x06, 0x00, 0x01, 0, 0, 64, 0]), SetupAction::Stall));
}

#[test]
fn ring_is_fifo_and_keeps_one_slot_free() {
    let mut ring: Ring<u8, 4> = Ring::new(0);
    assert!(ring.is_empty());
    assert_eq!(ring.free_space(), 3);
    assert!(ring.push(1));
    assert!(ring.push(2));
    assert!(ring.push(3));
    assert!(!ring.push(4));
    assert_eq!(ring.len(), 3);
    assert_eq!(ring.pop(), Some(1));
    assert!(ring.push(5));
    assert_eq!(ring.pop(), Some(2));
    assert_eq!(ring.pop(), Some(3));
    assert_eq!(ring.pop(), Some(5));
    assert_eq!(ring.pop(), None);
    assert_eq!(ring.free_space(), 3);
}

#[test]
fn usb_queues_deliver_events_and_packets() {
    let mut queues: UsbQueues = init_event_queues();
    assert!(dequeue_midi_event(&mut queues).is_none());
    let event = MidiEvent { port: MidiPort::Midi, status: 0x90, data1: 60, data2: 100 };
    assert!(queues.midi_rx.push(event));
    assert_eq!(dequeue_midi_event(&mut queues), Some(event));

    let packet = UsbMidiPacket { data: [0x09, 0x90, 60, 100] };
    let packets = vec![packet; 20];
    assert!(enqueue_tx_packets(&mut queues, &packets).is_ok());
    let payload = take_tx_payload(&mut queues);
    assert_eq!(payload.len(), 64);
    assert_eq!(&payload[0..4], &[0x09, 0x90, 60, 100]);
    assert_eq!(take_tx_payload(&mut queues).len(), 16);
    assert!(take_tx_payload(&mut queues).is_empty());

    let too_many = vec![packet; 64];
    assert!(enqueue_tx_packets(&mut queues, &too_many).is_err());
    assert!(take_tx_payload(&mut queues).is_empty());
}

#[test]
fn packet_memory_layout_and_counts() {
    let cfg = usb_config();
    assert_eq!(pma_layout(&cfg), (0x40, 0x48, 0x90, 0x50, 0x00));
    assert_eq!(rx_count(8), 0x1000);
    assert_eq!(rx_count(64), 0x8400);
}

#[test]
fn packet_memory_words_round_trip() {
    let data = [1u8, 2, 3, 4, 5];
    let words = pma_words(&data);
    assert_eq!(words, vec![0x0201, 0x0403, 0x0005]);
    assert_eq!(pma_bytes(&words, 5), data.to_vec());
}

#[test]
fn fifo_words_round_trip_and_setup_packets() {
    let data = [1u8, 2, 3, 4, 5, 6];
    let words = fifo_words(&data);
    assert_eq!(words, vec![0x0403_0201, 0x0000_0605]);
    assert_eq!(fifo_bytes(&words, 6), data.to_vec());
    assert_eq!(setup_packet(0x0100_0680, 0x0040_0000), [0x80, 0x06, 0x00, 0x01, 0, 0, 0x40, 0]);
}

#[test]
fn endpoint_register_writes_toggle_to_the_wanted_status() {
    // TX status NAK (0b10) wanted, currently VALID (0b11): write 0b01.
    let reg: u16 = 0x8000 | 0x0030 | 0x3000 | 0x0600 | 0x0001 | 0x4040;
    let w = tx_stat_write(reg, 0b10);
    assert_eq!(w & 0x0030, 0x0010);
    assert_eq!(w & 0x878f, reg & 0x878f);
    assert_eq!(w & 0x7040, 0);
    let w = rx_stat_write(reg, 0b11);
    assert_eq!(w & 0x3000, 0);
    assert_eq!(clear_ctr_write(reg, true, false), (reg & !0x7070) & !0x8000);
    assert_eq!(clear_ctr_write(reg, false, false), reg & !0x7070);
}

#[test]
fn receive_fifo_entries_are_dispatched_by_status() {
    assert_eq!(rx_fifo_action(6, 0), RxFifoAction::Setup);
    assert_eq!(rx_fifo_action(2, 1), RxFifoAction::OutData { parse_midi: true });
    assert_eq!(rx_fifo_action(2, 0), RxFifoAction::OutData { parse_midi: false });
    assert_eq!(rx_fifo_action(3, 1), RxFifoAction::RearmEp1);
    assert_eq!(rx_fifo_action(3, 0), RxFifoAction::RearmEp0);
    assert_eq!(rx_fifo_action(3, 2), RxFifoAction::Ignore);
    assert_eq!(rx_fifo_action(4, 0), RxFifoAction::AckSetupDone);
    assert_eq!(rx_fifo_action(1, 0), RxFifoAction::Drain);
}

#[test]
fn endpoint_events_are_dispatched_by_register() {
    assert_eq!(ep_actions(0, 0x8800, false), (EpRxAction::Setup, EpTxAction::Idle));
    assert_eq!(ep_actions(0, 0x8000, false), (EpRxAction::RearmEp0, EpTxAction::Idle));
    assert_eq!(ep_actions(0, 0x0080, false), (EpRxAction::Idle, EpTxAction::Ep0Next));
    assert_eq!(ep_actions(1, 0x8080, false), (EpRxAction::MidiOut, EpTxAction::PumpMidi));
    assert_eq!(ep_actions(1, 0x8000, true), (EpRxAction::Ignore, EpTxAction::Idle));
    assert_eq!(ep_actions(2, 0x8000, true), (EpRxAction::MidiOut, EpTxAction::Idle));
    assert_eq!(ep_actions(2, 0x0080, true), (EpRxAction::Idle, EpTxAction::Ignore));
}
