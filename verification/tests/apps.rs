use corefw::app::boot::BootApp;
use corefw::app::host::{AppHost, SysexAction};
use corefw::app::palette_editor::color::{hsv_to_rgb, rgb, scale_color};
use corefw::app::palette_editor::hue_picker;
use corefw::app::palette_editor::overview;
use corefw::app::palette_editor::sl_picker;
use corefw::app::palette_editor::{ensure_custom_palette_has_template, PaletteEditorApp, Screen};
use corefw::app::performance::{apply_velocity_curve, velocity_curve_high, velocity_curve_low, PerformanceApp};
use corefw::app::programmer::ProgrammerApp;
use corefw::app::setup::page_init::wheel;
use corefw::app::AppId;
use corefw::driver::{Driver, LedCommand};
use corefw::events::{AftertouchEvent, MidiEvent, MidiPort, SurfaceEvent};
use corefw::led::LedState;
use corefw::palette::{Palette, Palettes};
use corefw::settings::Settings;
use corefw::system::{Layout, Rotation, RotationKind, RotationMap, Sys};

fn identity() -> Vec<u8> {
    (0..=255u8).collect()
}

fn sys() -> Sys {
    let colors: Vec<(u8, u8, u8)> = (0..128u32).map(|i| ((i % 64) as u8, 0, 63 - (i % 64) as u8)).collect();
    let palettes = Palettes {
        novation: Palette::from_colors(colors.clone()).unwrap(),
        mat1jaczyyy: Palette::from_colors(colors.clone()).unwrap(),
        mxos: Palette::from_colors(colors).unwrap(),
    };
    // Notes 36.. on the bottom-left pads, as a simple drum layout.
    let mut xy_to_dr = vec![0u8; 256];
    let mut dr_to_xy = vec![0u8; 256];
    for row in 1..=8u8 {
        for col in 1..=8u8 {
            let index = row * 10 + col;
            let note = 36 + (row - 1) * 8 + (col - 1);
            xy_to_dr[index as usize] = note;
            dr_to_xy[note as usize] = index;
        }
    }
    let maps = (0..4)
        .map(|_| RotationMap { to_raw: identity(), to_canonical: identity(), to_canonical_grid_only: identity() })
        .collect();
    let mut settings = Settings::erased();
    settings.palette = 0;
    settings.velocity_enabled = 1;
    settings.velocity_curve = 1;
    settings.aftertouch_mode = 1;
    Sys {
        leds: LedState::new(),
        driver: Driver::new(7, false),
        settings,
        palettes,
        layout: Layout::from_tables(xy_to_dr, dr_to_xy).unwrap(),
        rotation: Rotation { kind: RotationKind::Default, maps },
        save_requested: false,
    }
}

fn sent(sys: &Sys) -> Vec<(MidiPort, Vec<u8>)> {
    sys.driver.sent.iter().map(|m| (m.port, m.data.clone())).collect()
}

#[test]
fn velocity_curves() {
    assert_eq!(velocity_curve_low(0), 0);
    assert_eq!(velocity_curve_low(64), 32);
    assert_eq!(velocity_curve_low(127), 127);
    assert_eq!(velocity_curve_low(200), 127);
    assert_eq!(velocity_curve_high(0), 0);
    assert_eq!(velocity_curve_high(1), 11);
    assert_eq!(velocity_curve_high(64), 90);
    assert_eq!(velocity_curve_high(127), 127);
    assert_eq!(apply_velocity_curve(1, 200), 127);
    assert_eq!(apply_velocity_curve(0, 64), 32);
    assert_eq!(apply_velocity_curve(2, 64), 90);
}

#[test]
fn color_math() {
    assert_eq!(rgb(1, 2, 3), 0x010203);
    assert_eq!(hsv_to_rgb(0, 255, 255), 0xff0000);
    assert_eq!(hsv_to_rgb(10, 0, 200), 0xc8c8c8);
    assert_eq!(hsv_to_rgb(10, 200, 0), 0);
    assert_eq!(hsv_to_rgb(86, 255, 255), 0x00ff00);
    assert_eq!(scale_color(0xff2000, 32), 0x7f1000);
    assert_eq!(scale_color(0x123456, 64), 0x123456);
    assert_eq!(wheel(0), 0xff0000);
    assert_eq!(wheel(85), 0x00ff00);
    assert_eq!(wheel(170), 0x0000ff);
}

#[test]
fn palette_editor_pads() {
    assert!(matches!(hue_picker::handle_press(93), hue_picker::Action::Back));
    assert!(matches!(hue_picker::handle_press(11), hue_picker::Action::Select(0)));
    assert!(matches!(hue_picker::handle_press(88), hue_picker::Action::Select(252)));
    assert!(matches!(hue_picker::handle_press(19), hue_picker::Action::NoAction));
    assert!(matches!(overview::handle_press(11, 0), overview::Action::NoAction));
    assert!(matches!(overview::handle_press(12, 0), overview::Action::Select(1)));
    assert!(matches!(overview::handle_press(15, 1), overview::Action::Select(96)));
    assert!(matches!(overview::handle_press(94, 0), overview::Action::NextPage));
    assert!(matches!(overview::handle_press(94, 1), overview::Action::NoAction));
    assert!(matches!(overview::handle_press(93, 1), overview::Action::PreviousPage));
    match sl_picker::handle_press(88) {
        sl_picker::Action::Select { saturation, lightness } => {
            assert_eq!(saturation, 252);
            assert_eq!(lightness, 252);
        }
        _ => panic!("expected a selection"),
    }
    match sl_picker::handle_press(11) {
        sl_picker::Action::Select { saturation, lightness } => {
            assert_eq!(saturation, 0);
            assert_eq!(lightness, 16);
        }
        _ => panic!("expected a selection"),
    }
}

#[test]
fn stored_color_shows_in_overview() {
    let mut settings = Settings::erased();
    settings.palette = 4;
    sl_picker::store(&mut settings, 5, 0, 255, 255);
    assert_eq!(overview::get_palette_rgb(&settings, 5), 0xfc0000);
}

#[test]
fn programmer_mode_sends_notes_and_lights_pads() {
    let mut sys = sys();
    let mut app = ProgrammerApp::new();
    app.on_surface(&mut sys, SurfaceEvent { pressed: true, index: 45, value: 130 });
    app.on_surface(&mut sys, SurfaceEvent { pressed: false, index: 45, value: 0 });
    sys.settings.velocity_enabled = 0;
    app.on_surface(&mut sys, SurfaceEvent { pressed: true, index: 45, value: 3 });
    app.on_aftertouch(&mut sys, AftertouchEvent { index: 45, value: 9 });
    assert_eq!(
        sent(&sys),
        vec![
            (MidiPort::Midi, vec![0x90, 45, 127]),
            (MidiPort::Midi, vec![0x90, 45, 0]),
            (MidiPort::Midi, vec![0x90, 45, 127]),
            (MidiPort::Midi, vec![0xa0, 45, 9]),
        ]
    );
    app.on_midi(&mut sys, MidiEvent { port: MidiPort::Midi, status: 0x90, data1: 33, data2: 5 });
    assert_eq!(sys.driver.leds.get(33), LedCommand::Raw(5, 0, 58));
    app.on_midi(&mut sys, MidiEvent { port: MidiPort::Daw, status: 0x90, data1: 34, data2: 5 });
    assert_eq!(sys.driver.leds.get(34), LedCommand::Unset);
    app.on_midi(&mut sys, MidiEvent { port: MidiPort::Midi, status: 0xb0, data1: 80, data2: 5 });
    assert_eq!(sys.driver.leds.get(80), LedCommand::Unset);
}

#[test]
fn performance_mode_plays_the_layout() {
    let mut sys = sys();
    let mut app = PerformanceApp::new();
    app.on_surface(&mut sys, SurfaceEvent { pressed: true, index: 11, value: 64 });
    app.on_surface(&mut sys, SurfaceEvent { pressed: true, index: 95, value: 64 });
    sys.settings.velocity_curve = 2;
    app.on_surface(&mut sys, SurfaceEvent { pressed: true, index: 12, value: 64 });
    sys.settings.aftertouch_mode = 2;
    app.on_aftertouch(&mut sys, AftertouchEvent { index: 12, value: 50 });
    assert_eq!(
        sent(&sys),
        vec![(MidiPort::Midi, vec![0x90, 36, 64]), (MidiPort::Midi, vec![0x90, 37, 90]), (MidiPort::Midi, vec![0xd0, 50])]
    );
    app.on_midi(&mut sys, MidiEvent { port: MidiPort::Midi, status: 0x91, data1: 36, data2: 7 });
    assert_eq!(sys.driver.leds.get(11), LedCommand::Raw(7, 0, 56));
    app.on_midi(&mut sys, MidiEvent { port: MidiPort::Midi, status: 0x80, data1: 36, data2: 7 });
    assert_eq!(sys.driver.leds.get(11), LedCommand::Raw(0, 0, 63));
}

#[test]
fn boot_animation_plays_then_hands_over() {
    let mut sys = sys();
    // End at tick 1; two frames: tick 0 lights LED 1 (list), tick 1 lights
    // LEDs 0 and 9 (mask).
    let data = vec![1, 0, 2, 0, 0, 0, 1, 3, 1, 1, 1, 0, 1, 5, 0x82, 0x01, 0x02];
    let mut boot = BootApp::new(data);
    boot.on_tick(&mut sys);
    assert_eq!(boot.frame_index, 1);
    assert!(boot.take_requested_app_switch().is_none());
    boot.on_tick(&mut sys);
    assert_eq!(boot.frame_index, 2);
    assert_eq!(boot.take_requested_app_switch(), Some(AppId::Performance));
    let mut empty = BootApp::new(vec![]);
    empty.on_tick(&mut sys);
    assert_eq!(empty.take_requested_app_switch(), Some(AppId::Performance));
}

#[test]
fn setup_button_opens_and_closes_setup() {
    let mut sys = sys();
    let mut host = AppHost::new(AppId::Performance, vec![]);
    host.init(&mut sys);
    host.route_surface_event(&mut sys, SurfaceEvent { pressed: true, index: 0, value: 127 });
    assert_eq!(host.current, AppId::Setup);
    host.route_surface_event(&mut sys, SurfaceEvent { pressed: false, index: 0, value: 0 });
    assert_eq!(host.current, AppId::Setup);
    // Choose programmer mode, then press setup again to leave.
    host.route_surface_event(&mut sys, SurfaceEvent { pressed: true, index: 12, value: 127 });
    host.route_surface_event(&mut sys, SurfaceEvent { pressed: true, index: 0, value: 127 });
    assert_eq!(host.current, AppId::Programmer);
    assert!(sys.save_requested);
}

#[test]
fn holding_setup_button_returns_on_release() {
    let mut sys = sys();
    let mut host = AppHost::new(AppId::Performance, vec![]);
    host.route_surface_event(&mut sys, SurfaceEvent { pressed: true, index: 0, value: 127 });
    assert_eq!(host.current, AppId::Setup);
    for _ in 0..500 {
        host.route_tick_event(&mut sys);
    }
    host.route_surface_event(&mut sys, SurfaceEvent { pressed: false, index: 0, value: 0 });
    assert_eq!(host.current, AppId::Performance);
}

#[test]
fn host_routes_midi_and_sysex() {
    let mut sys = sys();
    let mut host = AppHost::new(AppId::Boot, vec![]);
    assert_eq!(host.receive_sysex(&mut sys, MidiPort::Daw, Some(AppId::Programmer)), SysexAction::Ignored);
    assert_eq!(host.receive_sysex(&mut sys, MidiPort::Midi, Some(AppId::Programmer)), SysexAction::Execute(AppId::Boot));
    host.switch(&mut sys, AppId::Performance);
    assert_eq!(host.receive_sysex(&mut sys, MidiPort::Midi, Some(AppId::Programmer)), SysexAction::Switched(AppId::Programmer));
    assert_eq!(host.current, AppId::Programmer);
    host.route_midi_event(&mut sys, MidiEvent { port: MidiPort::Midi, status: 0xfa, data1: 0, data2: 0 });
    assert!(sys.leds.tempo_listen);
    host.route_midi_event(&mut sys, MidiEvent { port: MidiPort::Midi, status: 0xfc, data1: 0, data2: 0 });
    assert!(!sys.leds.tempo_listen);
    host.route_midi_event(&mut sys, MidiEvent { port: MidiPort::Daw, status: 0x90, data1: 36, data2: 5 });
    host.route_midi_event(&mut sys, MidiEvent { port: MidiPort::Midi, status: 0x90, data1: 36, data2: 5 });
    assert_eq!(sys.driver.leds.get(36), LedCommand::Raw(5, 0, 58));
}

#[test]
fn custom_palette_starts_from_novation() {
    let mut sys = sys();
    sys.settings.palette = 5;
    let mut editor = PaletteEditorApp::new();
    editor.on_enter(&mut sys);
    assert_eq!(editor.screen, Screen::Overview);
    assert_eq!(sys.settings.custom_value(1, 0, 3), 3);
    assert_eq!(sys.settings.custom_value(1, 1, 3), 0);
    assert_eq!(sys.settings.custom_value(1, 2, 3), 60);
    // Slot 0 is still erased; a slot with any data is left alone.
    assert_eq!(sys.settings.custom_value(0, 0, 3), 0xff);
    sys.settings.set_custom_value(2, 0, 0, 9);
    let palettes = Palettes {
        novation: Palette::from_colors(vec![(1, 1, 1); 128]).unwrap(),
        mat1jaczyyy: Palette::from_colors(vec![(1, 1, 1); 128]).unwrap(),
        mxos: Palette::from_colors(vec![(1, 1, 1); 128]).unwrap(),
    };
    ensure_custom_palette_has_template(&mut sys.settings, &palettes, 6);
    assert_eq!(sys.settings.custom_value(2, 0, 0), 9);
    assert_eq!(sys.settings.custom_value(2, 1, 0), 0xff);
    ensure_custom_palette_has_template(&mut sys.settings, &palettes, 2);
}

#[test]
fn palette_editor_fades_between_screens() {
    let mut sys = sys();
    sys.settings.palette = 4;
    let mut editor = PaletteEditorApp::new();
    editor.on_enter(&mut sys);
    // Presses count only once the screen is fully shown.
    editor.on_surface(&mut sys, SurfaceEvent { pressed: true, index: 12, value: 127 });
    assert!(!editor.anim_fading_out);
    for _ in 0..160 {
        editor.on_tick(&mut sys);
    }
    assert_eq!(editor.anim_progress, 64);
    editor.on_surface(&mut sys, SurfaceEvent { pressed: true, index: 12, value: 127 });
    assert!(editor.anim_fading_out);
    assert_eq!(editor.selected_index, 1);
    for _ in 0..160 {
        editor.on_tick(&mut sys);
    }
    assert_eq!(editor.screen, Screen::HuePicker);
}

#[test]
fn switch_blanks_the_surface_before_the_new_app() {
    let mut sys = sys();
    let mut host = AppHost::new(AppId::Performance, vec![]);
    sys.led_set(11, 0x00ff00);
    assert_eq!(sys.driver.leds.get(11), LedCommand::Color(0x00ff00));
    host.switch(&mut sys, AppId::Programmer);
    assert_eq!(host.current, AppId::Programmer);
    assert_eq!(host.previous_app, AppId::Performance);
    assert_eq!(sys.driver.leds.get(11), LedCommand::Color(0));
    // Switching to the running app changes nothing.
    sys.led_set(12, 0x0000ff);
    host.switch(&mut sys, AppId::Programmer);
    assert_eq!(sys.driver.leds.get(12), LedCommand::Color(0x0000ff));
}

#[test]
fn init_restarts_the_animation_on_a_blank_surface() {
    let mut sys = sys();
    let data = vec![1, 0, 2, 0, 0, 0, 1, 3, 1, 1, 1, 0, 1, 5, 0x82, 0x01, 0x02];
    let mut host = AppHost::new(AppId::Boot, data);
    host.boot.tick = 7;
    host.boot.offset = 9;
    sys.led_set(11, 0xffffff);
    host.init(&mut sys);
    assert_eq!(host.current, AppId::Boot);
    assert_eq!(host.boot.tick, 0);
    assert_eq!(host.boot.frame_index, 0);
    assert_eq!(host.boot.offset, 4);
    assert_eq!(sys.driver.leds.get(11), LedCommand::Color(0));
}

#[test]
fn ticks_finish_the_animation_and_start_performance() {
    let mut sys = sys();
    let mut host = AppHost::new(AppId::Boot, vec![]);
    host.init(&mut sys);
    assert_eq!(host.current, AppId::Boot);
    host.route_tick_event(&mut sys);
    assert_eq!(host.current, AppId::Performance);
    assert!(host.boot.requested_switch.is_none());
}

#[test]
fn midi_clock_teaches_the_bar_length() {
    let mut sys = sys();
    let mut host = AppHost::new(AppId::Programmer, vec![]);
    let clock = MidiEvent { port: MidiPort::Midi, status: 0xf8, data1: 0, data2: 0 };
    // Not listening yet: clocks are not counted.
    host.route_midi_event(&mut sys, clock);
    assert_eq!(sys.leds.tempo_message_counter, 0);
    host.route_midi_event(&mut sys, MidiEvent { port: MidiPort::Midi, status: 0xfa, data1: 0, data2: 0 });
    for _ in 0..10 {
        host.route_tick_event(&mut sys);
    }
    assert_eq!(sys.leds.tempo_timer, 10);
    host.route_midi_event(&mut sys, clock);
    assert_eq!(sys.leds.tempo_message_counter, 1);
    for _ in 1..24 {
        host.route_midi_event(&mut sys, clock);
    }
    assert_eq!(sys.leds.tempo_message_counter, 24);
    assert_eq!(sys.leds.tempo_timer, 0);
    assert_eq!(sys.leds.tempo_bar, 40);
}

#[test]
fn pads_reach_the_running_app() {
    let mut sys = sys();
    let mut host = AppHost::new(AppId::Performance, vec![]);
    host.route_surface_event(&mut sys, SurfaceEvent { pressed: true, index: 11, value: 64 });
    host.route_surface_event(&mut sys, SurfaceEvent { pressed: false, index: 11, value: 0 });
    assert_eq!(sent(&sys), vec![(MidiPort::Midi, vec![0x90, 36, 64]), (MidiPort::Midi, vec![0x90, 36, 0])]);
    host.route_aftertouch_event(&mut sys, AftertouchEvent { index: 11, value: 20 });
    assert_eq!(sent(&sys).last().unwrap(), &(MidiPort::Midi, vec![0xa0, 36, 20]));
}

#[test]
fn pressure_is_ignored_outside_the_playing_modes() {
    let mut sys = sys();
    let mut host = AppHost::new(AppId::Setup, vec![]);
    host.route_aftertouch_event(&mut sys, AftertouchEvent { index: 11, value: 20 });
    assert!(sent(&sys).is_empty());
    assert_eq!(host.current, AppId::Setup);
}

#[test]
fn mode_select_message_switches_like_any_switch() {
    let mut sys = sys();
    let mut host = AppHost::new(AppId::Performance, vec![]);
    sys.led_set(11, 0x00ff00);
    assert_eq!(host.receive_sysex(&mut sys, MidiPort::Midi, Some(AppId::Programmer)), SysexAction::Switched(AppId::Programmer));
    assert_eq!(host.current, AppId::Programmer);
    assert_eq!(host.previous_app, AppId::Performance);
    assert_eq!(sys.driver.leds.get(11), LedCommand::Color(0));
    // Messages for the command set leave everything as it was.
    sys.led_set(12, 0x0000ff);
    assert_eq!(host.receive_sysex(&mut sys, MidiPort::Midi, None), SysexAction::Execute(AppId::Programmer));
    assert_eq!(sys.driver.leds.get(12), LedCommand::Color(0x0000ff));
    assert!(sent(&sys).is_empty());
}
