use corefw::driver::{LedCommand, LedOutput};
use corefw::led::{
    clear, flash, palette_rgb, pulse, pulse_factor, rg_calc, scale_channel, set_palette, tempo_midi_clock, tempo_start,
    tempo_stop, tick, LedColor, LedState,
};
use corefw::palette::{Palette, Palettes};
use corefw::settings::Settings;

fn palettes() -> Palettes {
    let colors: Vec<(u8, u8, u8)> = (0..128u32).map(|i| ((i % 64) as u8, ((i / 2) % 64) as u8, 5)).collect();
    let novation = Palette::from_colors(colors.clone()).unwrap();
    let mat = Palette::from_colors(colors.iter().map(|c| (c.1, c.0, 1)).collect()).unwrap();
    let mxos = Palette::from_colors(colors.iter().map(|c| (c.2, c.2, c.0)).collect()).unwrap();
    Palettes { novation, mat1jaczyyy: mat, mxos }
}

#[test]
fn palette_needs_exactly_128_colors() {
    assert!(Palette::from_colors(vec![(0, 0, 0); 127]).is_none());
    let p = Palette::from_colors(vec![(1, 2, 3); 128]).unwrap();
    assert_eq!(p.rgb(200), (1, 2, 3));
}

#[test]
fn set_keeps_color_through_ticks() {
    let mut state = LedState::new();
    let mut out = LedOutput::new();
    corefw::led::set(&mut state, &mut out, 11, 0x123456);
    assert_eq!(out.get(11), LedCommand::Color(0x123456));
    for _ in 0..10 {
        tick(&mut state, &mut out);
    }
    assert_eq!(out.get(11), LedCommand::Color(0x123456));
    assert_eq!(out.get(12), LedCommand::Unset);
    // Indices past the last LED still reach the driver but are not kept.
    corefw::led::set(&mut state, &mut out, 150, 0x010203);
    assert_eq!(out.get(150), LedCommand::Color(0x010203));
}

#[test]
fn pulse_factor_values() {
    assert_eq!(pulse_factor(0, 2000), 15);
    assert_eq!(pulse_factor(250, 2000), 63);
    assert_eq!(pulse_factor(999, 2000), 15);
    assert_eq!(pulse_factor(1000, 2000), 15);
    // A bar length not divisible by 8 overshoots full scale.
    assert_eq!(pulse_factor(1, 9), 64);
}

#[test]
fn scale_channel_truncates() {
    assert_eq!(scale_channel(63, 63, 63), 63);
    assert_eq!(scale_channel(255, 15, 63), 60);
    assert_eq!(LedColor::rgb8(0x3f2010).scaled(63), LedColor::rgb8(0x3f2010));
}

#[test]
fn pulse_and_flash_follow_the_tempo() {
    let mut state = LedState::new();
    let mut out = LedOutput::new();
    pulse(&mut state, &mut out, 20, 0x3f3f3f);
    // tempo counter 0: factor 15.
    assert_eq!(out.get(20), LedCommand::Color(0x0f0f0f));
    pulse(&mut state, &mut out, 21, 0);
    assert_eq!(out.get(21), LedCommand::Color(0));
    corefw::led::set(&mut state, &mut out, 30, 0x0000ff);
    flash(&mut state, &mut out, 30, 0xff0000);
    assert_eq!(out.get(30), LedCommand::Color(0xff0000));
    for _ in 0..250 {
        tick(&mut state, &mut out);
    }
    // Second eighth of the bar: the steady color shows.
    assert_eq!(out.get(30), LedCommand::Color(0x0000ff));
    clear(&mut state, &mut out);
    assert_eq!(out.get(30), LedCommand::Color(0));
    tick(&mut state, &mut out);
    assert_eq!(out.get(30), LedCommand::Color(0));
}

#[test]
fn midi_clock_learns_the_bar() {
    let mut state = LedState::new();
    let mut out = LedOutput::new();
    tempo_midi_clock(&mut state);
    assert_eq!(state.tempo_bar, 2000);
    tempo_start(&mut state);
    for _ in 0..125 {
        tick(&mut state, &mut out);
    }
    for _ in 0..24 {
        tempo_midi_clock(&mut state);
    }
    assert_eq!(state.tempo_bar, 500);
    assert_eq!(state.tempo_timer, 0);
    tempo_stop(&mut state);
    assert!(!state.tempo_listen);
}

#[test]
fn palette_selection() {
    let palettes = palettes();
    let mut settings = Settings::erased();
    settings.palette = 0;
    assert_eq!(palette_rgb(&settings, &palettes, 3), (3, 1, 5));
    settings.palette = 1;
    assert_eq!(palette_rgb(&settings, &palettes, 3), (1, 3, 1));
    settings.palette = 3;
    assert_eq!(palette_rgb(&settings, &palettes, 0x31), (21, 63, 0));
    assert_eq!(rg_calc(0x31, 0), 21);
    assert_eq!(rg_calc(0x31, 1), 63);
    assert_eq!(rg_calc(0x31, 2), 0);
    settings.palette = 5;
    settings.set_custom_value(1, 0, 7, 70);
    settings.set_custom_value(1, 1, 7, 10);
    settings.set_custom_value(1, 2, 7, 20);
    assert_eq!(palette_rgb(&settings, &palettes, 7 + 128), (63, 10, 20));
    settings.palette = 9;
    assert_eq!(palette_rgb(&settings, &palettes, 3), (3, 1, 5));

    let mut state = LedState::new();
    let mut out = LedOutput::new();
    set_palette(&mut state, &mut out, &settings, &palettes, 44, 3);
    assert_eq!(out.get(44), LedCommand::Raw(3, 1, 5));
}
