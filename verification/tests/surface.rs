use corefw::events::{MidiEvent, MidiPort, SurfaceEvent};
use corefw::launchpad_mini_mk3::buttons::Buttons;
use corefw::launchpad_mini_mk3::grid::{advance_slot, brightness_index, flip_index, prepare_plan, surface_events};
use corefw::launchpad_mk2::grid::{
    is_button_capture_slot, next_surface_phase, select_group_bits, surface_event, timer_arr_from_ticks, Grid as Mk2Grid,
};
use corefw::launchpad_mk2::inputs::{debounce_pressed, debounce_released, GridEvent as Mk2Event, Inputs as Mk2Inputs};
use corefw::launchpad_mk2::leds::{apply_led_brightness, key_from_index, Leds as Mk2Leds};
use corefw::launchpad_pro::din::{
    cable_state, cable_state_from_idr, dequeue_midi_event, enqueue_tx_message, ingest_rx_byte, next_tx_bytes,
    short_message_len, DinQueues, MidiParser,
};
use corefw::launchpad_pro::grid::{app_input, divide_to_200hz, pack_sequence, power_mode_for, AppInput, Grid as ProGrid};
use corefw::launchpad_pro::inputs::{aftertouch_from_diff, velocity_for_overshoot, GridEvent, Inputs as ProInputs};
use corefw::launchpad_pro::leds::{set_power_mode, Leds as ProLeds, ScanAction, ScanSequencer};
use corefw::launchpad_s_and_mini::hw::{TickEvents, EVENT_1KHZ, EVENT_200HZ, EVENT_20HZ};

#[test]
fn din_cable_detect_bits() {
    let s = cable_state(0x03);
    assert!(s.midi_in_connected && s.midi_out_connected);
    let s = cable_state(0x02);
    assert!(!s.midi_in_connected && s.midi_out_connected);
}

#[test]
fn din_parser_uses_running_status() {
    let mut queues = DinQueues::new();
    let mut parser = MidiParser::new();
    assert_eq!(short_message_len(0x90), Some(3));
    assert_eq!(short_message_len(0xc0), Some(2));
    assert_eq!(short_message_len(0xf8), Some(1));
    assert_eq!(short_message_len(0xf0), None);
    assert_eq!(ingest_rx_byte(&mut queues, &mut parser, 0x90), None);
    assert_eq!(ingest_rx_byte(&mut queues, &mut parser, 60), None);
    let on = MidiEvent { port: MidiPort::Din, status: 0x90, data1: 60, data2: 100 };
    assert_eq!(ingest_rx_byte(&mut queues, &mut parser, 100), Some(on));
    assert_eq!(ingest_rx_byte(&mut queues, &mut parser, 62), None);
    let second = MidiEvent { port: MidiPort::Din, status: 0x90, data1: 62, data2: 0 };
    assert_eq!(ingest_rx_byte(&mut queues, &mut parser, 0), Some(second));
    let clock = MidiEvent { port: MidiPort::Din, status: 0xf8, data1: 0, data2: 0 };
    assert_eq!(ingest_rx_byte(&mut queues, &mut parser, 0xf8), Some(clock));
    assert_eq!(dequeue_midi_event(&mut queues), Some(on));
    assert_eq!(dequeue_midi_event(&mut queues), Some(second));
    assert_eq!(dequeue_midi_event(&mut queues), Some(clock));
    assert_eq!(dequeue_midi_event(&mut queues), None);
}

#[test]
fn din_transmit_queue_limits() {
    let mut queues = DinQueues::new();
    assert!(enqueue_tx_message(&mut queues, &[]).is_err());
    assert!(enqueue_tx_message(&mut queues, &[0u8; 257]).is_err());
    for _ in 0..16 {
        assert!(enqueue_tx_message(&mut queues, &[0x90, 1, 2]).is_ok());
    }
    assert!(enqueue_tx_message(&mut queues, &[0x90, 1, 2]).is_err());
    assert_eq!(next_tx_bytes(&mut queues), Some(vec![0x90, 1, 2]));
    assert!(enqueue_tx_message(&mut queues, &[0xc0, 5]).is_ok());
    for _ in 0..15 {
        assert!(next_tx_bytes(&mut queues).is_some());
    }
    assert_eq!(next_tx_bytes(&mut queues), Some(vec![0xc0, 5]));
    assert_eq!(next_tx_bytes(&mut queues), None);
}

#[test]
fn din_cable_detect_from_pins() {
    assert_eq!(cable_state_from_idr(0x0000), 3);
    assert_eq!(cable_state_from_idr(0x0200), 2);
    assert_eq!(cable_state_from_idr(0x0300), 0);
}

#[test]
fn mk2_debounce_confirms_press_then_release() {
    let mut state = 0u8;
    assert!(!debounce_pressed(&mut state, 2));
    assert!(!debounce_pressed(&mut state, 2));
    assert!(debounce_pressed(&mut state, 2));
    assert_eq!(state, 0x80);
    assert!(!debounce_pressed(&mut state, 2));
    let mut releases = 0;
    for _ in 0..0x21 {
        if debounce_released(&mut state, 0x20) {
            releases += 1;
        }
    }
    assert_eq!(releases, 1);
    assert_eq!(state, 0);
}

#[test]
fn mk2_scan_queues_key_events() {
    let mut inputs = Mk2Inputs::new();
    let mut raw = [0u8; 32];
    // Bit 7 of raw byte 0 is key 0x48.
    raw[0] = 0x80;
    inputs.decode_buttons(&raw);
    inputs.decode_buttons(&raw);
    assert!(inputs.poll_event().is_none());
    inputs.decode_buttons(&raw);
    assert_eq!(inputs.poll_event(), Some(Mk2Event::Press { index: 0x48, value: 127 }));
    assert!(inputs.poll_event().is_none());
    let open = [0u8; 32];
    for _ in 0..0x21 {
        inputs.decode_buttons(&open);
    }
    assert_eq!(inputs.poll_event(), Some(Mk2Event::Release { index: 0x48 }));
    assert_eq!(surface_event(Mk2Event::Press { index: 0x48, value: 127 }), Some(SurfaceEvent { pressed: true, index: 91, value: 127 }));
    assert_eq!(surface_event(Mk2Event::Release { index: 80 }), None);
}

#[test]
fn mk2_leds_scale_with_brightness() {
    assert_eq!(apply_led_brightness(63, 7), 63);
    assert_eq!(apply_led_brightness(0, 7), 0);
    assert_eq!(apply_led_brightness(1, 0), 1);
    assert_eq!(apply_led_brightness(63, 0), 10);
    assert_eq!(apply_led_brightness(200, 9), 63);
    assert_eq!(key_from_index(11), Some(63));
    assert_eq!(key_from_index(10), None);
    assert_eq!(key_from_index(200), None);
    let mut leds = Mk2Leds::new();
    leds.set_led_rgb(11, 63, 0, 0);
    let mut out = [0u8; 8];
    leds.build_group_payload(0, 0, &mut out);
    // Red of key 63 is plane byte 0x06: group 0, shift byte 0, lane 6, lit (active low).
    assert_eq!(out[0], !0x40u8);
    leds.build_group_payload(4, 0, &mut out);
    assert_eq!(out, [0xff; 8]);
    leds.set_brightness(200);
    assert_eq!(leds.brightness(), 7);
}

#[test]
fn mk2_scan_timing() {
    assert!(is_button_capture_slot(1) && is_button_capture_slot(3) && is_button_capture_slot(5));
    assert!(!is_button_capture_slot(0) && !is_button_capture_slot(2) && !is_button_capture_slot(7));
    assert_eq!(timer_arr_from_ticks(0), 2);
    assert_eq!(timer_arr_from_ticks(374), 374);
    assert_eq!(next_surface_phase(2), 0);
    assert_eq!(select_group_bits(3), 1 << 26);
    let mut grid = Mk2Grid::new();
    for _ in 0..4 {
        grid.blank_phase();
    }
    assert_eq!(grid.selected_bit, 1);
    assert_eq!(grid.selected_group, 0);
    assert_eq!(grid.bright_phase(), 1);
}

#[test]
fn mini_mk3_buttons_need_two_scans() {
    let mut buttons = Buttons::new();
    assert!(!buttons.is_valid(0));
    assert!(buttons.is_valid(1));
    // Button 1 sits at byte 0, bit 0.
    buttons.capture_scan(0, 0, &[1, 0, 0, 0, 0, 0, 0, 0]);
    assert_eq!(buttons.strength(1), 1);
    assert!(!buttons.is_pressed(1));
    buttons.capture_scan(2, 0, &[1, 0, 0, 0, 0, 0, 0, 0]);
    assert!(buttons.is_pressed(1));
    buttons.capture_scan(4, 0, &[0xff; 8]);
    assert_eq!(buttons.strength(1), 2);
    let mut prev = vec![false; 100];
    let events = surface_events(&buttons, &mut prev);
    assert_eq!(events, vec![SurfaceEvent { pressed: true, index: 91, value: 127 }]);
    assert!(surface_events(&buttons, &mut prev).is_empty());
}

#[test]
fn mini_mk3_scan_plan() {
    assert_eq!(advance_slot(95), 0);
    assert_eq!(advance_slot(3), 4);
    let plan = prepare_plan(5);
    assert_eq!((plan.row, plan.phase, plan.start, plan.group, plan.capture_row), (1, 0, 8, 1, 0));
    assert_eq!(brightness_index(7), 10);
    assert_eq!(brightness_index(0), 0);
    assert_eq!(flip_index(11), 81);
}

#[test]
fn pro_pad_velocity_curve_and_aftertouch() {
    assert_eq!(velocity_for_overshoot(0), 0);
    assert_eq!(velocity_for_overshoot(1000), 127);
    assert_eq!(aftertouch_from_diff(512), 0);
    assert_eq!(aftertouch_from_diff(769), 127);
    assert_eq!(aftertouch_from_diff(600), 43);
}

#[test]
fn pro_saturated_hit_fires_at_once_and_releases_after_hold_off() {
    let mut inputs = ProInputs::new();
    let mut samples = [0u16; 16];
    // Pad sensor 56 (index 11) reads ADC channel 0.
    samples[0] = 8000;
    inputs.capture_adc_bank(0, &samples);
    inputs.accumulate_adc_max();
    inputs.tick_200hz();
    assert_eq!(inputs.poll_event(), Some(GridEvent::Press { index: 11, value: 127 }));
    // Held: a new peak only feeds aftertouch, never a second press.
    inputs.accumulate_adc_max();
    inputs.tick_200hz();
    assert!(inputs.poll_event().is_none());
    let quiet = [0u16; 16];
    inputs.capture_adc_bank(0, &quiet);
    inputs.accumulate_adc_max();
    let mut released = false;
    for _ in 0..6 {
        inputs.tick_200hz();
        if let Some(event) = inputs.poll_event() {
            assert_eq!(event, GridEvent::Release { index: 11 });
            released = true;
        }
    }
    assert!(released);
}

#[test]
fn pro_side_buttons_debounce() {
    let mut inputs = ProInputs::new();
    inputs.set_switch_raw(0, true);
    inputs.tick_1khz();
    inputs.tick_1khz();
    assert!(inputs.poll_event().is_none());
    inputs.tick_1khz();
    assert_eq!(inputs.poll_event(), Some(GridEvent::Press { index: 94, value: 127 }));
    inputs.set_switch_raw(40, true);
    inputs.capture_switch_entry(99, true);
    assert!(inputs.poll_event().is_none());
}

#[test]
fn pro_grid_helpers() {
    assert_eq!(power_mode_for(true), 2);
    assert_eq!(power_mode_for(false), 1);
    assert_eq!(pack_sequence(&[11, 10, 13]), 11 | (10 << 5) | (13 << 10));
    assert_eq!(app_input(GridEvent::Release { index: 5 }), AppInput::Surface(SurfaceEvent { pressed: false, index: 5, value: 0 }));
    let mut grid = ProGrid::new(false);
    assert_eq!(grid.poll_power_mode(true), None);
    assert_eq!(grid.poll_power_mode(true), None);
    assert_eq!(grid.poll_power_mode(true), Some(2));
    assert_eq!(grid.poll_power_mode(true), None);
}

#[test]
fn pro_led_payload_and_sequencer() {
    let mut leds = ProLeds::new();
    leds.set_led_rgb(11, 1, 0, 0);
    let mut out = [0u8; 10];
    leds.build_group_payload(0, 0, &mut out);
    assert!(out.iter().any(|b| *b != 0xff));
    leds.build_group_payload(9, 0, &mut out);
    assert_eq!(out, [0xff; 10]);

    let mut seq = ScanSequencer::new();
    assert_eq!(seq.next_action(), ScanAction::Blank);
    assert_eq!(seq.next_action(), ScanAction::NullSurface);
    assert_eq!(seq.next_action(), ScanAction::LedShift);
    assert_eq!(seq.next_action(), ScanAction::WaitForShift);
    seq.dma_complete();
    assert_eq!(seq.next_action(), ScanAction::Bright);
    assert_eq!(seq.phase_delay(ScanAction::Bright, 1), 374);
    set_power_mode(&mut seq, 9);
    assert_eq!(seq.phase_delay(ScanAction::Bright, 1), 935);
    assert_eq!(seq.phase_delay(ScanAction::WaitForShift, 0), 5);
}

#[test]
fn tick_events_are_taken_once() {
    let mut t = TickEvents::new();
    for _ in 0..5 {
        t.tick();
    }
    assert_eq!(t.take_events(EVENT_1KHZ), EVENT_1KHZ);
    assert_eq!(t.take_events(EVENT_1KHZ), 0);
    assert_eq!(t.take_events(EVENT_200HZ | EVENT_20HZ), EVENT_200HZ);
}

#[test]
fn pads_step_every_fifth_millisecond() {
    let mut divider = 0u8;
    let mut steps = 0;
    for _ in 0..20 {
        let (next, step) = divide_to_200hz(divider);
        divider = next;
        if step {
            steps += 1;
        }
    }
    assert_eq!(steps, 4);
    assert_eq!(divide_to_200hz(4), (0, true));
    assert_eq!(divide_to_200hz(0), (1, false));
}

#[test]
fn millisecond_collect_filters_vbus() {
    let mut grid = ProGrid::new(false);
    assert_eq!(grid.tick_1khz_collect(true), None);
    assert_eq!(grid.adc_bank, 1);
    assert_eq!(grid.tick_1khz_collect(true), None);
    assert_eq!(grid.tick_1khz_collect(true), Some(2));
    assert_eq!(grid.tick_1khz_collect(true), None);
    assert_eq!(grid.adc_bank, 0);
    assert_eq!(grid.tick_1khz_collect(false), None);
    assert_eq!(grid.tick_1khz_collect(false), None);
    assert_eq!(grid.tick_1khz_collect(false), Some(1));
}
