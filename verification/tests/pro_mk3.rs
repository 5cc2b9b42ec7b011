use corefw::events::SurfaceEvent;
use corefw::launchpad_pro_mk3::led::highspeed::{pack_rgb, write_fb, Leds as FastLeds};
use corefw::launchpad_pro_mk3::led::legacy::Leds as LegacyLeds;
use corefw::launchpad_pro_mk3::led::LedSystem;
use corefw::launchpad_pro_mk3::runtime::{
    cmd_55_frame, cmd_aa_frame, led_brightness_config, map_control, parse_stats_response, parse_version_response,
    keep_waiting_for_link, raw_to_velocity, rom_addr_xor, rom_address_packet, side_aux_bits, uart_brr_oversampling16, M0Stream, ResponseScanner,
    M0FirmwareStatus, RuntimeDriver, M0_FW_LEGACY, M0_FW_ROADRUNNER, M0_FW_UNKNOWN,
};

#[test]
fn command_frames() {
    assert_eq!(cmd_aa_frame(1, 0x0102), [0xaa, 1, 2, 1, 0]);
    assert_eq!(cmd_55_frame(7, 0x00fc_0804), [0x55, 7, 0xfc, 0x08, 0x04]);
    assert_eq!(led_brightness_config(3), (109, 0));
    assert_eq!(led_brightness_config(9), (255, 1));
    assert_eq!(side_aux_bits(true, true), 0xc0);
    assert_eq!(side_aux_bits(false, true), 0x80);
    assert_eq!(rom_addr_xor(0x0800_0000), 0x08);
    assert_eq!(rom_address_packet(0x1fff_f7a6), [0x1f, 0xff, 0xf7, 0xa6, 0x1f ^ 0xff ^ 0xf7 ^ 0xa6]);
    assert_eq!(uart_brr_oversampling16(115_200), 469);
}

#[test]
fn pad_controls_map_to_surface() {
    assert_eq!(raw_to_velocity(0), 1);
    assert_eq!(raw_to_velocity(0x0c40), 127);
    assert_eq!(map_control(0, true, 0x0c40), Some(SurfaceEvent { pressed: true, index: 11, value: 127 }));
    assert_eq!(map_control(78, false, 0), Some(SurfaceEvent { pressed: false, index: 0, value: 0 }));
    assert_eq!(map_control(76, true, 0), None);
    assert_eq!(map_control(200, true, 0), None);
}

#[test]
fn responses_are_scanned_and_parsed() {
    let mut scanner = ResponseScanner::new(0xcc, 5);
    assert!(scanner.push(0x00).is_none());
    assert!(scanner.push(0xcc).is_none());
    assert!(scanner.push(0x01).is_none());
    assert!(scanner.push(1).is_none());
    assert!(scanner.push(2).is_none());
    let response = scanner.push(3).unwrap();
    assert_eq!(parse_version_response(&response), Some((1, 2, 3)));
    assert_eq!(parse_version_response(&[0xcc, 2, 1, 2, 3]), None);
    let stats = [0xdd, 1, 1, 0, 0, 0, 2, 0, 0, 0, 0, 1, 0, 0];
    let s = parse_stats_response(&stats).unwrap();
    assert_eq!((s.fast_frames, s.commits, s.rx_overruns), (1, 2, 256));
}

#[test]
fn button_stream_reports_changes_and_misses() {
    let mut stream = M0Stream::new();
    let mut frame = vec![0u8; 140];
    frame[0] = 0xaa;
    frame[1] = 0xaa;
    frame[2] = 1;
    // Pad 0 at full pressure.
    frame[4] = 0x40;
    frame[5] = 0x0c;
    let outcome = stream.on_poll_result(true, &frame, 10, 0);
    assert_eq!(outcome.event, Some(SurfaceEvent { pressed: true, index: 11, value: 127 }));
    assert_eq!(stream.led_tx_slots, 16);
    assert!(stream.stream_synced);
    // Same counter again: ignored.
    let again = stream.on_poll_result(true, &frame, 11, 0);
    assert_eq!(again.event, None);
    // A missed frame is tolerated; a long silence restarts the link.
    stream.ready = true;
    let miss = stream.on_poll_result(false, &frame, 12, 0);
    assert!(miss.drain_rx && !miss.restart && stream.stream_synced);
    assert_eq!(stream.stream_miss_streak, 1);
    let stall = stream.on_poll_result(false, &frame, 400, 0);
    assert!(stall.restart);
    assert!(!stream.ready);
    // The stall follows a tolerated miss: the stream is dropped too.
    assert!(!stream.stream_synced);
    assert_eq!(stream.stream_miss_streak, 2);
}

#[test]
fn highspeed_frame_holds_plane_bits() {
    assert_eq!(pack_rgb(63, 1, 200), (63 << 12) | (1 << 6) | 63);
    let mut fb = [0xffu8; 264];
    write_fb(&mut fb, 0, 1, 0, 0);
    assert_eq!(fb[0], 0xfe);
    assert_eq!(fb[11], 0xff);
    let mut leds = FastLeds::new();
    leds.set_rgb_led(0, 63, 63, 63);
    assert!(!leds.task(false, 1, 0));
    assert!(leds.task(true, 1, 0));
    assert!(leds.framebuffer().iter().any(|b| *b != 0xff));
    leds.frame_sent(0);
    assert!(!leds.task(true, 1, 100));
}

#[test]
fn legacy_batches_send_newest_changes_first() {
    let mut leds = LegacyLeds::new();
    leds.set_rgb_led(11, 1, 2, 3);
    leds.set_rgb_led(12, 4, 5, 6);
    let batch = leds.task(true, 2);
    // After a resync every slot is dirty: the latest change first, then
    // the others (never changed) by slot.
    assert_eq!(batch.len(), 15);
    assert_eq!(batch[0], (44, (4 << 18) | (5 << 10) | (6 << 2)));
    assert_eq!(batch[1], (0, 0));
    leds.commit_batch(&batch);
    assert!(leds.task(false, 2).is_empty());
    assert!(leds.task(true, 1).is_empty());

    let mut system = LedSystem::new_highspeed();
    assert!(system.is_highspeed());
    system.set_led(11, 0xffffff);
    assert!(!LedSystem::new_legacy().is_highspeed());
}

#[test]
fn firmware_kind_selects_led_driver() {
    let mut driver = RuntimeDriver::new();
    assert!(!driver.highspeed_leds_enabled());
    driver.apply_m0_firmware_status(M0FirmwareStatus { status: 0, kind: M0_FW_ROADRUNNER, version_major: 1, version_minor: 2, version_patch: 3 });
    assert_eq!(driver.cached_m0_firmware_status().unwrap().version_minor, 2);
    assert!(driver.highspeed_leds_enabled() && driver.leds.is_highspeed());
    driver.apply_m0_firmware_status(M0FirmwareStatus::unknown());
    assert_eq!(driver.cached_m0_firmware_status().unwrap().kind, M0_FW_UNKNOWN);
    assert!(driver.leds.is_highspeed());
    driver.confirm_legacy_m0_firmware();
    assert_eq!(driver.m0_firmware_kind, M0_FW_LEGACY);
    assert!(!driver.leds.is_highspeed());
    assert_eq!(driver.set_brightness(12), 7);
    driver.fill(0x00ff00);
    assert_eq!(driver.device_id(), 35);
}

#[test]
fn link_modes_and_retries() {
    let mut stream = M0Stream::new();
    assert!(stream.retry_due(300));
    assert_eq!(stream.last_retry_ms, 300);
    assert!(!stream.retry_due(400));
    assert_eq!(stream.set_mode(2, 1000), 0);
    assert_eq!(stream.mode, 2);
    assert_eq!(stream.last_retry_ms, 700);
    assert_eq!(stream.set_mode(9, 1000), 6);
    assert_eq!(stream.mode, 2);
    assert!(!stream.can_send_led_frame());
    let st = stream.status();
    assert!(!st.ready && st.mode == 2);
    stream.led_slot_used();
    assert_eq!(stream.led_tx_slots, 0);
}

#[test]
fn dirty_slots_are_picked_latest_first() {
    let mut leds = LegacyLeds::new();
    leds.dirty = [false; 108];
    leds.dirty[3] = true;
    leds.dirty[40] = true;
    leds.dirty[7] = true;
    leds.dirty[90] = true;
    leds.seq[3] = 5;
    leds.seq[40] = 9;
    leds.seq[7] = 5;
    leds.seq[90] = 1;
    assert_eq!(leds.select_dirty(), vec![40, 3, 7, 90]);
    leds.dirty = [true; 108];
    assert_eq!(leds.select_dirty().len(), 15);
}

#[test]
fn power_up_waits_for_the_coprocessor() {
    assert!(keep_waiting_for_link(false, 0));
    assert!(keep_waiting_for_link(false, 1499));
    assert!(!keep_waiting_for_link(false, 1500));
    assert!(!keep_waiting_for_link(true, 10));
    let mut driver = RuntimeDriver::new();
    driver.finish_startup(false, M0_FW_UNKNOWN);
    assert_eq!(driver.m0_firmware_kind, M0_FW_UNKNOWN);
    driver.finish_startup(true, M0_FW_ROADRUNNER);
    assert_eq!(driver.m0_firmware_kind, M0_FW_UNKNOWN);
    driver.finish_startup(true, M0_FW_UNKNOWN);
    assert_eq!(driver.m0_firmware_kind, M0_FW_LEGACY);
    assert!(!driver.leds.is_highspeed());
}

#[test]
fn led_task_sends_the_newest_dirty_slots() {
    let mut leds = LegacyLeds::new();
    // Bring the link up: the resync leaves every slot dirty and unknown.
    assert!(leds.task(true, 0).is_empty());
    leds.dirty = [false; 108];
    leds.hw = [0; 108];
    leds.target[5] = 0x10;
    leds.target[9] = 0x20;
    leds.dirty[5] = true;
    leds.dirty[9] = true;
    leds.dirty[20] = true;
    leds.seq[5] = 1;
    leds.seq[9] = 3;
    leds.seq[20] = 2;
    // Slot 20 already shows its color: it is no longer dirty, nothing sent.
    assert_eq!(leds.task(true, 2), vec![(9, 0x20), (5, 0x10)]);
    assert!(!leds.dirty[20]);
    assert!(leds.dirty[5] && leds.dirty[9]);
    // Without two free slots nothing is sent.
    assert!(leds.task(true, 1).is_empty());
}
