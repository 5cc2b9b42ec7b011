use vstd::prelude::*;
use crate::driver::{LedCommand, LedOutput};
use crate::palette::Palettes;
use crate::settings::Settings;

verus! {

pub const LED_COUNT: usize = 100;
pub const DEFAULT_TEMPO_BAR_TICKS: u32 = 2000;
pub const MIN_TEMPO_BAR_TICKS: u32 = 8;
pub const MIDI_CLOCKS_PER_BAR: u8 = 96;
pub const MIDI_CLOCKS_PER_BEAT: u8 = 24;

/// A color as the LED engine stores it: `kind` 0 is "no color", 1 is an 8-bit
/// RGB color, 2 is a raw 6-bit color.
#[derive(Copy, Clone, PartialEq, Eq, Structural, Debug)]
pub struct LedColor {
    pub kind: u8,
    pub r: u8,
    pub g: u8,
    pub b: u8,
}

pub open spec fn no_color() -> LedColor {
    LedColor { kind: 0, r: 0, g: 0, b: 0 }
}

pub open spec fn spec_rgb8(color: u32) -> LedColor {
    LedColor {
        kind: 1,
        r: ((color >> 16u32) & 0xffu32) as u8,
        g: ((color >> 8u32) & 0xffu32) as u8,
        b: (color & 0xffu32) as u8,
    }
}

/// `value * factor / max`, truncated to a byte.
pub open spec fn spec_scale_channel(value: u8, factor: u8, max: u8) -> u8 {
    ((value * factor) / (max as int)) as u8
}

pub open spec fn spec_scaled(c: LedColor, factor: u8) -> LedColor {
    if c.kind == 1 {
        LedColor {
            kind: 1,
            r: spec_scale_channel(c.r, factor, 63),
            g: spec_scale_channel(c.g, factor, 63),
            b: spec_scale_channel(c.b, factor, 63),
        }
    } else if c.kind == 2 {
        LedColor {
            kind: 2,
            r: spec_scale_channel(c.r & 0x3f, factor, 63),
            g: spec_scale_channel(c.g & 0x3f, factor, 63),
            b: spec_scale_channel(c.b & 0x3f, factor, 63),
        }
    } else {
        no_color()
    }
}

/// The driver command that shows a stored color.
pub open spec fn spec_command(c: LedColor) -> LedCommand {
    if c.kind == 1 {
        LedCommand::Color(((c.r as u32) << 16u32) | ((c.g as u32) << 8u32) | (c.b as u32))
    } else if c.kind == 2 {
        LedCommand::Raw(c.r, c.g, c.b)
    } else {
        LedCommand::Color(0)
    }
}

pub fn scale_channel(value: u8, factor: u8, max: u8) -> (r: u8)
    requires
        max > 0,
    ensures
        r == spec_scale_channel(value, factor, max),
{
    assert((value as u16) * (factor as u16) <= 65025) by (nonlinear_arith);
    (((value as u16) * (factor as u16)) / (max as u16)) as u8
}

impl LedColor {
    pub fn none() -> (r: Self)
        ensures
            r == no_color(),
    {
        LedColor { kind: 0, r: 0, g: 0, b: 0 }
    }

    pub fn rgb8(color: u32) -> (r: Self)
        ensures
            r == spec_rgb8(color),
    {
        LedColor {
            kind: 1,
            r: ((color >> 16) & 0xff) as u8,
            g: ((color >> 8) & 0xff) as u8,
            b: (color & 0xff) as u8,
        }
    }

    pub fn raw6(r: u8, g: u8, b: u8) -> (c: Self)
        ensures
            c == (LedColor { kind: 2, r, g, b }),
    {
        LedColor { kind: 2, r, g, b }
    }

    pub fn is_none(self) -> (r: bool)
        ensures
            r == (self.kind == 0),
    {
        self.kind == 0
    }

    pub fn is_black(self) -> (r: bool)
        ensures
            r == (self.r == 0 && self.g == 0 && self.b == 0),
    {
        self.r == 0 && self.g == 0 && self.b == 0
    }

    pub fn scaled(self, factor: u8) -> (r: Self)
        ensures
            r == spec_scaled(self, factor),
    {
        if self.kind == 1 {
            LedColor {
                kind: 1,
                r: scale_channel(self.r, factor, 63),
                g: scale_channel(self.g, factor, 63),
                b: scale_channel(self.b, factor, 63),
            }
        } else if self.kind == 2 {
            LedColor {
                kind: 2,
                r: scale_channel(self.r & 0x3f, factor, 63),
                g: scale_channel(self.g & 0x3f, factor, 63),
                b: scale_channel(self.b & 0x3f, factor, 63),
            }
        } else {
            LedColor::none()
        }
    }
}

/// Colors of every LED (steady, flashing and pulsing layers) and the tempo
/// the flashing and pulsing follow.
pub struct LedState {
    pub base: Vec<LedColor>,
    pub flash: Vec<LedColor>,
    pub pulse: Vec<LedColor>,
    pub tempo_counter: u32,
    pub tempo_timer: u32,
    pub tempo_bar: u32,
    pub tempo_listen: bool,
    pub tempo_message_counter: u8,
}

/// The LED engine's state as values: the three layers and the tempo.
pub struct LedView {
    pub base: Seq<LedColor>,
    pub flash: Seq<LedColor>,
    pub pulse: Seq<LedColor>,
    pub tempo_counter: u32,
    pub tempo_timer: u32,
    pub tempo_bar: u32,
    pub tempo_listen: bool,
    pub tempo_message_counter: u8,
}

impl View for LedState {
    type V = LedView;

    open spec fn view(&self) -> LedView {
        LedView {
            base: self.base@,
            flash: self.flash@,
            pulse: self.pulse@,
            tempo_counter: self.tempo_counter,
            tempo_timer: self.tempo_timer,
            tempo_bar: self.tempo_bar,
            tempo_listen: self.tempo_listen,
            tempo_message_counter: self.tempo_message_counter,
        }
    }
}

/// The engine after a steady color is set on one LED (which drops its flash
/// and pulse); indices past the last LED leave it unchanged.
pub open spec fn view_with_base(v: LedView, index: u8, color: LedColor) -> LedView {
    if valid_index(index) {
        LedView {
            base: v.base.update(index as int, color),
            flash: v.flash.update(index as int, no_color()),
            pulse: v.pulse.update(index as int, no_color()),
            ..v
        }
    } else {
        v
    }
}

/// The engine and the driver output after `set(index, color)`.
pub open spec fn spec_set(v: LedView, out: Seq<LedCommand>, index: u8, color: u32) -> (LedView, Seq<LedCommand>) {
    (view_with_base(v, index, spec_rgb8(color)), out.update(index as int, LedCommand::Color(color)))
}

/// The engine and the driver output after a raw 6-bit color is set.
pub open spec fn spec_set_raw6(v: LedView, out: Seq<LedCommand>, index: u8, c: (u8, u8, u8)) -> (LedView, Seq<LedCommand>) {
    (view_with_base(v, index, LedColor { kind: 2, r: c.0, g: c.1, b: c.2 }), out.update(index as int, LedCommand::Raw(c.0, c.1, c.2)))
}

/// The engine and the driver output after a run of `set` calls, in order.
pub open spec fn spec_sets(v: LedView, out: Seq<LedCommand>, writes: Seq<(u8, u32)>) -> (LedView, Seq<LedCommand>)
    decreases writes.len(),
{
    if writes.len() == 0 {
        (v, out)
    } else {
        let (v1, o1) = spec_sets(v, out, writes.drop_last());
        spec_set(v1, o1, writes.last().0, writes.last().1)
    }
}

/// Brightness factor (out of 63) of pulsing LEDs at a point of the bar: a
/// fast rise over the first eighth of each half bar, then a slow fall.
pub open spec fn spec_pulse_factor(tempo_counter: u32, tempo_bar: u32) -> u8 {
    let t = tempo_counter % (tempo_bar / 2);
    if t < tempo_bar / 8 {
        ((15 * tempo_bar + 384 * t) / (tempo_bar as int)) as u8
    } else {
        ((237 * tempo_bar - 384 * t) / (3 * tempo_bar)) as u8
    }
}

/// Flashing LEDs show their flash color during the first half of each quarter bar.
pub open spec fn spec_flash_on(tempo_counter: u32, tempo_bar: u32) -> bool {
    (tempo_counter % (tempo_bar / 4)) < tempo_bar / 8
}

pub open spec fn valid_index(index: u8) -> bool {
    (index as int) < LED_COUNT as int
}

/// What one LED shows at a tick: its pulse (scaled), else its flash or base
/// color depending on the flash phase; `None` when it has neither.
pub open spec fn spec_tick_led(s: &LedState, i: int, factor: u8, flash_on: bool) -> Option<LedCommand> {
    if s.pulse@[i].kind != 0 {
        Some(spec_command(spec_scaled(s.pulse@[i], factor)))
    } else if s.flash@[i].kind != 0 {
        Some(spec_command(if flash_on { s.flash@[i] } else { s.base@[i] }))
    } else {
        None
    }
}

pub open spec fn uniform(c: LedColor) -> Seq<LedColor> {
    Seq::new(LED_COUNT as nat, |i: int| c)
}

impl LedState {
    pub open spec fn wf(&self) -> bool {
        &&& self.base@.len() == LED_COUNT
        &&& self.flash@.len() == LED_COUNT
        &&& self.pulse@.len() == LED_COUNT
        &&& self.tempo_bar >= MIN_TEMPO_BAR_TICKS
        &&& self.tempo_counter < u32::MAX
    }

    /// The layers and tempo are unchanged.
    pub open spec fn same_tempo(&self, other: &LedState) -> bool {
        &&& self.tempo_counter == other.tempo_counter
        &&& self.tempo_timer == other.tempo_timer
        &&& self.tempo_bar == other.tempo_bar
        &&& self.tempo_listen == other.tempo_listen
        &&& self.tempo_message_counter == other.tempo_message_counter
    }

    pub open spec fn same_layers(&self, other: &LedState) -> bool {
        &&& self.base@ == other.base@
        &&& self.flash@ == other.flash@
        &&& self.pulse@ == other.pulse@
    }

    pub fn new() -> (r: Self)
        ensures
            r.wf(),
            r.base@ == uniform(no_color()),
            r.flash@ == uniform(no_color()),
            r.pulse@ == uniform(no_color()),
            r.tempo_counter == 0,
            r.tempo_timer == 0,
            r.tempo_bar == DEFAULT_TEMPO_BAR_TICKS,
            !r.tempo_listen,
            r.tempo_message_counter == 0,
    {
        LedState {
            base: uniform_vec(),
            flash: uniform_vec(),
            pulse: uniform_vec(),
            tempo_counter: 0,
            tempo_timer: 0,
            tempo_bar: DEFAULT_TEMPO_BAR_TICKS,
            tempo_listen: false,
            tempo_message_counter: 0,
        }
    }
}

fn uniform_vec() -> (r: Vec<LedColor>)
    ensures
        r@ == uniform(no_color()),
{
    let mut v: Vec<LedColor> = Vec::new();
    let mut i: usize = 0;
    while i < LED_COUNT
        invariant
            i <= LED_COUNT,
            v@ == Seq::new(i as nat, |k: int| no_color()),
        decreases LED_COUNT - i,
    {
        v.push(LedColor::none());
        i = i + 1;
    }
    v
}

pub fn is_valid_index(index: u8) -> (r: bool)
    ensures
        r == valid_index(index),
{
    (index as usize) < LED_COUNT
}

pub fn pulse_factor(tempo_counter: u32, tempo_bar: u32) -> (r: u8)
    requires
        tempo_bar >= MIN_TEMPO_BAR_TICKS,
    ensures
        r == spec_pulse_factor(tempo_counter, tempo_bar),
{
    let bar = tempo_bar as u64;
    let t = (tempo_counter % (tempo_bar / 2)) as u64;
    assert(t < bar / 2);
    assert(384 * t <= 192 * bar) by (nonlinear_arith) requires t < bar / 2;
    if t < bar / 8 {
        ((15 * bar + 384 * t) / bar) as u8
    } else {
        ((237 * bar - 384 * t) / (3 * bar)) as u8
    }
}

pub fn render_color(out: &mut LedOutput, index: u8, color: LedColor)
    requires
        old(out).wf(),
    ensures
        final(out).wf(),
        final(out)@ == old(out)@.update(index as int, spec_command(color)),
{
    if color.kind == 1 {
        let c = ((color.r as u32) << 16) | ((color.g as u32) << 8) | (color.b as u32);
        out.set_led(index, c);
    } else if color.kind == 2 {
        out.set_led_raw(index, color.r, color.g, color.b);
    } else {
        out.set_led(index, 0);
    }
}

/// The layers after a steady color is set on one LED.
pub open spec fn base_set(s: &LedState, n: &LedState, index: u8, color: LedColor) -> bool {
    if valid_index(index) {
        &&& n.base@ == s.base@.update(index as int, color)
        &&& n.flash@ == s.flash@.update(index as int, no_color())
        &&& n.pulse@ == s.pulse@.update(index as int, no_color())
    } else {
        n.same_layers(s)
    }
}

/// The layers after a flash color is set on one LED.
pub open spec fn flash_set(s: &LedState, n: &LedState, index: u8, color: LedColor) -> bool {
    if valid_index(index) {
        &&& n.base@ == s.base@
        &&& n.flash@ == s.flash@.update(index as int, color)
        &&& n.pulse@ == s.pulse@.update(index as int, no_color())
    } else {
        n.same_layers(s)
    }
}

/// The layers after a pulse color is set on one LED.
pub open spec fn pulse_set(s: &LedState, n: &LedState, index: u8, color: LedColor) -> bool {
    if valid_index(index) {
        &&& n.base@ == s.base@
        &&& n.flash@ == s.flash@.update(index as int, no_color())
        &&& n.pulse@ == s.pulse@.update(index as int, color)
    } else {
        n.same_layers(s)
    }
}

pub fn update_base(state: &mut LedState, index: u8, color: LedColor)
    requires
        old(state).wf(),
    ensures
        final(state).wf(),
        final(state).same_tempo(old(state)),
        base_set(old(state), final(state), index, color),
{
    if !is_valid_index(index) {
        return;
    }
    let i = index as usize;
    state.base.set(i, color);
    state.flash.set(i, LedColor::none());
    state.pulse.set(i, LedColor::none());
}

pub fn update_flash(state: &mut LedState, index: u8, color: LedColor)
    requires
        old(state).wf(),
    ensures
        final(state).wf(),
        final(state).same_tempo(old(state)),
        flash_set(old(state), final(state), index, color),
{
    if !is_valid_index(index) {
        return;
    }
    let i = index as usize;
    state.flash.set(i, color);
    state.pulse.set(i, LedColor::none());
}

pub fn update_pulse(state: &mut LedState, index: u8, color: LedColor)
    requires
        old(state).wf(),
    ensures
        final(state).wf(),
        final(state).same_tempo(old(state)),
        pulse_set(old(state), final(state), index, color),
{
    if !is_valid_index(index) {
        return;
    }
    let i = index as usize;
    state.pulse.set(i, color);
    state.flash.set(i, LedColor::none());
}

pub fn render_flash(state: &LedState, out: &mut LedOutput, index: u8, color: LedColor)
    requires
        state.wf(),
        old(out).wf(),
        valid_index(index),
    ensures
        final(out).wf(),
        final(out)@ == old(out)@.update(
            index as int,
            spec_command(
                if spec_flash_on(state.tempo_counter, state.tempo_bar) {
                    color
                } else {
                    state.base@[index as int]
                },
            ),
        ),
{
    let flash_period = state.tempo_bar / 4;
    let flash_on = (state.tempo_counter % flash_period) < (state.tempo_bar / 8);
    render_color(out, index, if flash_on { color } else { state.base[index as usize] });
}

pub fn render_pulse(state: &LedState, out: &mut LedOutput, index: u8, color: LedColor)
    requires
        state.wf(),
        old(out).wf(),
    ensures
        final(out).wf(),
        final(out)@ == old(out)@.update(
            index as int,
            spec_command(spec_scaled(color, spec_pulse_factor(state.tempo_counter, state.tempo_bar))),
        ),
{
    render_color(out, index, color.scaled(pulse_factor(state.tempo_counter, state.tempo_bar)));
}

/// Sets a steady 8-bit RGB color.
pub fn set(state: &mut LedState, out: &mut LedOutput, index: u8, color: u32)
    requires
        old(state).wf(),
        old(out).wf(),
    ensures
        final(state).wf(),
        final(out).wf(),
        final(state).same_tempo(old(state)),
        base_set(old(state), final(state), index, spec_rgb8(color)),
        final(out)@ == old(out)@.update(index as int, LedCommand::Color(color)),
        (final(state)@, final(out)@) == spec_set(old(state)@, old(out)@, index, color),
{
    update_base(state, index, LedColor::rgb8(color));
    out.set_led(index, color);
}

/// Sets a steady raw 6-bit color.
pub fn set_rgb(state: &mut LedState, out: &mut LedOutput, index: u8, r: u8, g: u8, b: u8)
    requires
        old(state).wf(),
        old(out).wf(),
    ensures
        final(state).wf(),
        final(out).wf(),
        final(state).same_tempo(old(state)),
        base_set(old(state), final(state), index, LedColor { kind: 2, r, g, b }),
        final(out)@ == old(out)@.update(index as int, LedCommand::Rgb(r, g, b)),
{
    update_base(state, index, LedColor::raw6(r, g, b));
    out.set_rgb_led(index, r, g, b);
}

/// Red/green palette: red from bits 0..1 and green from bits 4..5 of the velocity.
pub open spec fn spec_rg_calc(value: u8, index: u8) -> u8 {
    if index == 0 {
        ((value & 0x03) * 21) as u8
    } else if index == 1 {
        (((value >> 4u8) & 0x03) * 21) as u8
    } else {
        0
    }
}

pub fn rg_calc(value: u8, index: u8) -> (r: u8)
    ensures
        r == spec_rg_calc(value, index),
{
    if index == 0 {
        assert(value & 0x03 <= 3) by (bit_vector);
        (value & 0x03) * 21
    } else if index == 1 {
        assert((value >> 4u8) & 0x03 <= 3) by (bit_vector);
        ((value >> 4) & 0x03) * 21
    } else {
        0
    }
}

pub fn rg_palette_rgb(velocity: u8) -> (r: (u8, u8, u8))
    ensures
        r == (spec_rg_calc(velocity, 0), spec_rg_calc(velocity, 1), 0u8),
{
    (rg_calc(velocity, 0), rg_calc(velocity, 1), 0)
}

pub open spec fn min63(v: u8) -> u8 {
    if v < 63 { v } else { 63 }
}

/// The 6-bit color a velocity has in the selected palette.
pub open spec fn spec_palette_rgb(settings: &Settings, palettes: &Palettes, velocity: u8) -> (u8, u8, u8) {
    if settings.palette == 0 {
        palettes.novation.spec_rgb(velocity)
    } else if settings.palette == 1 {
        palettes.mat1jaczyyy.spec_rgb(velocity)
    } else if settings.palette == 2 {
        palettes.mxos.spec_rgb(velocity)
    } else if settings.palette == 3 {
        (spec_rg_calc(velocity, 0), spec_rg_calc(velocity, 1), 0u8)
    } else if settings.palette <= 6 {
        let slot = (settings.palette - 4) as int;
        let v = (velocity % 128) as int;
        (
            min63(settings.custom(slot, 0, v)),
            min63(settings.custom(slot, 1, v)),
            min63(settings.custom(slot, 2, v)),
        )
    } else {
        palettes.novation.spec_rgb(velocity)
    }
}

fn min_u8(a: u8, b: u8) -> (r: u8)
    ensures
        r == (if a < b { a } else { b }),
{
    if a < b { a } else { b }
}

pub fn palette_rgb(settings: &Settings, palettes: &Palettes, velocity: u8) -> (r: (u8, u8, u8))
    requires
        settings.wf(),
        palettes.wf(),
    ensures
        r == spec_palette_rgb(settings, palettes, velocity),
{
    match settings.palette {
        0 => palettes.novation.rgb(velocity),
        1 => palettes.mat1jaczyyy.rgb(velocity),
        2 => palettes.mxos.rgb(velocity),
        3 => rg_palette_rgb(velocity),
        4..=6 => {
            let slot = (settings.palette - 4) as usize;
            let v = (velocity as usize) & 0x7f;
            assert(v == velocity % 128) by (bit_vector) requires v == (velocity as usize) & 0x7f;
            (
                min_u8(settings.custom_value(slot, 0, v), 63),
                min_u8(settings.custom_value(slot, 1, v), 63),
                min_u8(settings.custom_value(slot, 2, v), 63),
            )
        },
        _ => palettes.novation.rgb(velocity),
    }
}

/// Sets a steady color from the selected palette.
pub fn set_palette(
    state: &mut LedState,
    out: &mut LedOutput,
    settings: &Settings,
    palettes: &Palettes,
    index: u8,
    velocity: u8,
)
    requires
        old(state).wf(),
        old(out).wf(),
        settings.wf(),
        palettes.wf(),
    ensures
        final(state).wf(),
        final(out).wf(),
        final(state).same_tempo(old(state)),
        ({
            let (r, g, b) = spec_palette_rgb(settings, palettes, velocity);
            &&& base_set(old(state), final(state), index, LedColor { kind: 2, r, g, b })
            &&& final(out)@ == old(out)@.update(index as int, LedCommand::Raw(r, g, b))
        }),
        (final(state)@, final(out)@) == spec_set_raw6(old(state)@, old(out)@, index, spec_palette_rgb(settings, palettes, velocity)),
{
    let (r, g, b) = palette_rgb(settings, palettes, velocity);
    update_base(state, index, LedColor::raw6(r, g, b));
    out.set_led_raw(index, r, g, b);
}

/// Sets a steady color from the Novation palette, whatever palette is selected.
pub fn novation(state: &mut LedState, out: &mut LedOutput, palettes: &Palettes, index: u8, velocity: u8)
    requires
        old(state).wf(),
        old(out).wf(),
        palettes.wf(),
    ensures
        final(state).wf(),
        final(out).wf(),
        final(state).same_tempo(old(state)),
        ({
            let (r, g, b) = palettes.novation.spec_rgb(velocity);
            &&& base_set(old(state), final(state), index, LedColor { kind: 2, r, g, b })
            &&& final(out)@ == old(out)@.update(index as int, LedCommand::Raw(r, g, b))
        }),
        (final(state)@, final(out)@) == spec_set_raw6(old(state)@, old(out)@, index, palettes.novation.spec_rgb(velocity)),
{
    let (r, g, b) = palettes.novation.rgb(velocity);
    update_base(state, index, LedColor::raw6(r, g, b));
    out.set_led_raw(index, r, g, b);
}

/// Makes an LED pulse with the tempo; black turns it off instead.
pub fn pulse(state: &mut LedState, out: &mut LedOutput, index: u8, color: u32)
    requires
        old(state).wf(),
        old(out).wf(),
    ensures
        final(state).wf(),
        final(out).wf(),
        final(state).same_tempo(old(state)),
        !valid_index(index) ==> final(state).same_layers(old(state)) && final(out)@ == old(out)@,
        valid_index(index) && color & 0xff_ffff == 0 ==> {
            &&& base_set(old(state), final(state), index, spec_rgb8(0))
            &&& final(out)@ == old(out)@.update(index as int, LedCommand::Color(0))
        },
        valid_index(index) && color & 0xff_ffff != 0 ==> {
            &&& pulse_set(old(state), final(state), index, spec_rgb8(color))
            &&& final(out)@ == old(out)@.update(
                index as int,
                spec_command(spec_scaled(spec_rgb8(color), spec_pulse_factor(old(state).tempo_counter, old(state).tempo_bar))),
            )
        },
{
    if !is_valid_index(index) {
        return;
    }
    let c = LedColor::rgb8(color);
    let (cr, cg, cb) = (c.r, c.g, c.b);
    assert((cr == 0 && cg == 0 && cb == 0) == (color & 0xff_ffff == 0)) by (bit_vector)
        requires
            cr == ((color >> 16u32) & 0xffu32) as u8,
            cg == ((color >> 8u32) & 0xffu32) as u8,
            cb == (color & 0xffu32) as u8,
    ;
    if c.is_black() {
        set(state, out, index, 0);
        return;
    }
    update_pulse(state, index, c);
    render_pulse(state, out, index, c);
}

/// Makes an LED pulse with a raw 6-bit color; black turns it off instead.
pub fn pulse_rgb(state: &mut LedState, out: &mut LedOutput, index: u8, r: u8, g: u8, b: u8)
    requires
        old(state).wf(),
        old(out).wf(),
    ensures
        final(state).wf(),
        final(out).wf(),
        final(state).same_tempo(old(state)),
        !valid_index(index) ==> final(state).same_layers(old(state)) && final(out)@ == old(out)@,
        valid_index(index) && r == 0 && g == 0 && b == 0 ==> {
            &&& base_set(old(state), final(state), index, LedColor { kind: 2, r: 0, g: 0, b: 0 })
            &&& final(out)@ == old(out)@.update(index as int, LedCommand::Rgb(0, 0, 0))
        },
        valid_index(index) && !(r == 0 && g == 0 && b == 0) ==> {
            &&& pulse_set(old(state), final(state), index, LedColor { kind: 2, r, g, b })
            &&& final(out)@ == old(out)@.update(
                index as int,
                spec_command(spec_scaled(LedColor { kind: 2, r, g, b }, spec_pulse_factor(old(state).tempo_counter, old(state).tempo_bar))),
            )
        },
{
    if !is_valid_index(index) {
        return;
    }
    let c = LedColor::raw6(r, g, b);
    if c.is_black() {
        set_rgb(state, out, index, 0, 0, 0);
        return;
    }
    update_pulse(state, index, c);
    render_pulse(state, out, index, c);
}

/// Makes an LED flash with the tempo between this color and its steady color.
pub fn flash(state: &mut LedState, out: &mut LedOutput, index: u8, color: u32)
    requires
        old(state).wf(),
        old(out).wf(),
    ensures
        final(state).wf(),
        final(out).wf(),
        final(state).same_tempo(old(state)),
        !valid_index(index) ==> final(state).same_layers(old(state)) && final(out)@ == old(out)@,
        valid_index(index) ==> {
            &&& flash_set(old(state), final(state), index, spec_rgb8(color))
            &&& final(out)@ == old(out)@.update(
                index as int,
                spec_command(
                    if spec_flash_on(old(state).tempo_counter, old(state).tempo_bar) {
                        spec_rgb8(color)
                    } else {
                        old(state).base@[index as int]
                    },
                ),
            )
        },
{
    if !is_valid_index(index) {
        return;
    }
    let c = LedColor::rgb8(color);
    update_flash(state, index, c);
    render_flash(state, out, index, c);
}

/// Makes an LED flash with a raw 6-bit color.
pub fn flash_rgb(state: &mut LedState, out: &mut LedOutput, index: u8, r: u8, g: u8, b: u8)
    requires
        old(state).wf(),
        old(out).wf(),
    ensures
        final(state).wf(),
        final(out).wf(),
        final(state).same_tempo(old(state)),
        !valid_index(index) ==> final(state).same_layers(old(state)) && final(out)@ == old(out)@,
        valid_index(index) ==> {
            &&& flash_set(old(state), final(state), index, LedColor { kind: 2, r, g, b })
            &&& final(out)@ == old(out)@.update(
                index as int,
                spec_command(
                    if spec_flash_on(old(state).tempo_counter, old(state).tempo_bar) {
                        LedColor { kind: 2, r, g, b }
                    } else {
                        old(state).base@[index as int]
                    },
                ),
            )
        },
{
    if !is_valid_index(index) {
        return;
    }
    let c = LedColor::raw6(r, g, b);
    update_flash(state, index, c);
    render_flash(state, out, index, c);
}

/// Forgets every color and blanks the surface.
pub fn clear(state: &mut LedState, out: &mut LedOutput)
    requires
        old(state).wf(),
        old(out).wf(),
    ensures
        final(state).wf(),
        final(out).wf(),
        final(state).same_tempo(old(state)),
        final(state).base@ == uniform(no_color()),
        final(state).flash@ == uniform(no_color()),
        final(state).pulse@ == uniform(no_color()),
        final(out)@ == Seq::new(crate::driver::LED_ADDRESS_COUNT as nat, |i: int| LedCommand::Color(0)),
{
    state.base = uniform_vec();
    state.flash = uniform_vec();
    state.pulse = uniform_vec();
    out.fill(0);
}

/// What one LED shows at a tick, read from the engine's view.
pub open spec fn spec_tick_led_view(v: LedView, i: int, factor: u8, flash_on: bool) -> Option<LedCommand> {
    if v.pulse[i].kind != 0 {
        Some(spec_command(spec_scaled(v.pulse[i], factor)))
    } else if v.flash[i].kind != 0 {
        Some(spec_command(if flash_on { v.flash[i] } else { v.base[i] }))
    } else {
        None
    }
}

/// The tempo one millisecond later: the timer saturates, the counter wraps
/// at the bar length.
pub open spec fn tempo_ticked(v: LedView) -> LedView {
    LedView {
        tempo_timer: if v.tempo_timer == u32::MAX { u32::MAX } else { (v.tempo_timer + 1) as u32 },
        tempo_counter: if v.tempo_counter + 1 >= v.tempo_bar { 0 } else { (v.tempo_counter + 1) as u32 },
        ..v
    }
}

/// The engine and the driver output after one tick: flashing and pulsing
/// LEDs are redrawn at the new point of the bar, the rest keep their output.
pub open spec fn spec_tick(v: LedView, out: Seq<LedCommand>) -> (LedView, Seq<LedCommand>) {
    let n = tempo_ticked(v);
    let factor = spec_pulse_factor(n.tempo_counter, n.tempo_bar);
    let flash_on = spec_flash_on(n.tempo_counter, n.tempo_bar);
    (
        n,
        Seq::new(
            out.len(),
            |i: int|
                if i < LED_COUNT {
                    match spec_tick_led_view(n, i, factor, flash_on) {
                        Some(c) => c,
                        None => out[i],
                    }
                } else {
                    out[i]
                },
        ),
    )
}

/// A MIDI start message: the tempo restarts and follows the clock.
pub open spec fn spec_tempo_start(v: LedView) -> LedView {
    LedView { tempo_counter: 0, tempo_timer: 0, tempo_listen: true, tempo_message_counter: 0, ..v }
}

/// A MIDI stop message: the tempo no longer follows the clock.
pub open spec fn spec_tempo_stop(v: LedView) -> LedView {
    LedView { tempo_listen: false, ..v }
}

/// A MIDI clock message, counted only while following the clock: each beat
/// (24 clocks) learns the bar length from the ticks since the last beat,
/// each bar (96 clocks) restarts the bar.
pub open spec fn spec_tempo_midi_clock(v: LedView) -> LedView {
    if !v.tempo_listen {
        v
    } else {
        let mc: u8 = if v.tempo_message_counter == 255 { 255u8 } else { (v.tempo_message_counter + 1) as u8 };
        let beat = mc % MIDI_CLOCKS_PER_BEAT == 0;
        let bar_end = mc >= MIDI_CLOCKS_PER_BAR;
        LedView {
            tempo_bar: if beat && v.tempo_timer != 0 { spec_bar_from_beat(v.tempo_timer) } else { v.tempo_bar },
            tempo_timer: if beat { 0 } else { v.tempo_timer },
            tempo_counter: if bar_end { 0 } else { v.tempo_counter },
            tempo_message_counter: if bar_end { 0 } else { mc },
            ..v
        }
    }
}

/// Advances the tempo by one millisecond tick and redraws flashing and pulsing LEDs.
pub fn tick(state: &mut LedState, out: &mut LedOutput)
    requires
        old(state).wf(),
        old(out).wf(),
    ensures
        final(state).wf(),
        final(out).wf(),
        final(state).same_layers(old(state)),
        final(state).tempo_timer == (if old(state).tempo_timer == u32::MAX {
            u32::MAX
        } else {
            (old(state).tempo_timer + 1) as u32
        }),
        final(state).tempo_counter == (if old(state).tempo_counter + 1 >= old(state).tempo_bar {
            0
        } else {
            (old(state).tempo_counter + 1) as u32
        }),
        final(state).tempo_bar == old(state).tempo_bar,
        final(state).tempo_listen == old(state).tempo_listen,
        final(state).tempo_message_counter == old(state).tempo_message_counter,
        forall|i: int| 0 <= i < LED_COUNT ==> #[trigger] final(out)@[i] == match spec_tick_led(
            final(state),
            i,
            spec_pulse_factor(final(state).tempo_counter, final(state).tempo_bar),
            spec_flash_on(final(state).tempo_counter, final(state).tempo_bar),
        ) {
            Some(c) => c,
            None => old(out)@[i],
        },
        forall|i: int| LED_COUNT <= i < crate::driver::LED_ADDRESS_COUNT ==> #[trigger] final(out)@[i] == old(out)@[i],
        (final(state)@, final(out)@) == spec_tick(old(state)@, old(out)@),
{
    state.tempo_timer = state.tempo_timer.saturating_add(1);
    state.tempo_counter = state.tempo_counter + 1;
    if state.tempo_counter >= state.tempo_bar {
        state.tempo_counter = 0;
    }
    let flash_period = state.tempo_bar / 4;
    let flash_on = (state.tempo_counter % flash_period) < (state.tempo_bar / 8);
    let factor = pulse_factor(state.tempo_counter, state.tempo_bar);
    let ghost out0 = out@;
    let mut index: usize = 0;
    while index < LED_COUNT
        invariant
            index <= LED_COUNT,
            state.wf(),
            out.wf(),
            flash_on == spec_flash_on(state.tempo_counter, state.tempo_bar),
            factor == spec_pulse_factor(state.tempo_counter, state.tempo_bar),
            forall|i: int| 0 <= i < index ==> #[trigger] out@[i] == match spec_tick_led(state, i, factor, flash_on) {
                Some(c) => c,
                None => out0[i],
            },
            forall|i: int| index <= i < crate::driver::LED_ADDRESS_COUNT ==> #[trigger] out@[i] == out0[i],
        decreases LED_COUNT - index,
    {
        let p = state.pulse[index];
        if !p.is_none() {
            render_color(out, index as u8, p.scaled(factor));
        } else {
            let f = state.flash[index];
            if !f.is_none() {
                render_color(out, index as u8, if flash_on { f } else { state.base[index] });
            }
        }
        index = index + 1;
    }
    proof {
        let t = spec_tick(old(state)@, old(out)@);
        assert(state@ == t.0);
        assert forall|i: int| 0 <= i < out@.len() implies #[trigger] out@[i] == t.1[i] by {
            if i < LED_COUNT {
                assert(spec_tick_led(state, i, factor, flash_on) == spec_tick_led_view(state@, i, factor, flash_on));
            }
        }
        assert(out@ =~= t.1);
    }
}

/// Starts following an external MIDI clock.
pub fn tempo_start(state: &mut LedState)
    requires
        old(state).wf(),
    ensures
        final(state).wf(),
        final(state).same_layers(old(state)),
        final(state).tempo_counter == 0,
        final(state).tempo_timer == 0,
        final(state).tempo_bar == old(state).tempo_bar,
        final(state).tempo_listen,
        final(state).tempo_message_counter == 0,
        final(state)@ == spec_tempo_start(old(state)@),
{
    state.tempo_counter = 0;
    state.tempo_timer = 0;
    state.tempo_listen = true;
    state.tempo_message_counter = 0;
}

/// The bar length learned from the ticks one beat took: four beats, at least
/// the minimum bar.
pub open spec fn spec_bar_from_beat(timer: u32) -> u32 {
    let bar = timer << 2u32;
    if bar < MIN_TEMPO_BAR_TICKS { MIN_TEMPO_BAR_TICKS } else { bar }
}

/// Counts one MIDI clock message: every 24 clocks the bar length is learned
/// from the ticks since the previous beat, every 96 the bar restarts.
pub fn tempo_midi_clock(state: &mut LedState)
    requires
        old(state).wf(),
    ensures
        final(state).wf(),
        final(state).same_layers(old(state)),
        final(state).tempo_listen == old(state).tempo_listen,
        !old(state).tempo_listen ==> final(state).same_tempo(old(state)),
        old(state).tempo_listen ==> ({
            let mc: u8 = if old(state).tempo_message_counter == 255 {
                255u8
            } else {
                (old(state).tempo_message_counter + 1) as u8
            };
            let beat = mc % MIDI_CLOCKS_PER_BEAT == 0;
            let bar_end = mc >= MIDI_CLOCKS_PER_BAR;
            &&& final(state).tempo_bar == (if beat && old(state).tempo_timer != 0 {
                spec_bar_from_beat(old(state).tempo_timer)
            } else {
                old(state).tempo_bar
            })
            &&& final(state).tempo_timer == (if beat { 0 } else { old(state).tempo_timer })
            &&& final(state).tempo_counter == (if bar_end { 0 } else { old(state).tempo_counter })
            &&& final(state).tempo_message_counter == (if bar_end { 0 } else { mc })
        }),
        final(state)@ == spec_tempo_midi_clock(old(state)@),
{
    if !state.tempo_listen {
        return;
    }
    state.tempo_message_counter = state.tempo_message_counter.saturating_add(1);
    if state.tempo_message_counter % MIDI_CLOCKS_PER_BEAT == 0 {
        if state.tempo_timer != 0 {
            let bar = state.tempo_timer << 2;
            state.tempo_bar = if bar < MIN_TEMPO_BAR_TICKS { MIN_TEMPO_BAR_TICKS } else { bar };
        }
        state.tempo_timer = 0;
    }
    if state.tempo_message_counter >= MIDI_CLOCKS_PER_BAR {
        state.tempo_counter = 0;
        state.tempo_message_counter = 0;
    }
}

/// Stops following the external MIDI clock.
pub fn tempo_stop(state: &mut LedState)
    requires
        old(state).wf(),
    ensures
        final(state).wf(),
        final(state).same_layers(old(state)),
        !final(state).tempo_listen,
        final(state).tempo_counter == old(state).tempo_counter,
        final(state).tempo_timer == old(state).tempo_timer,
        final(state).tempo_bar == old(state).tempo_bar,
        final(state).tempo_message_counter == old(state).tempo_message_counter,
        final(state)@ == spec_tempo_stop(old(state)@),
{
    state.tempo_listen = false;
}


/// Pulsing LEDs never fall below a quarter (15/63) of their brightness,
/// and with a bar length divisible by 8 never exceed full (63/63).
pub proof fn lemma_pulse_factor_range(tempo_counter: u32, tempo_bar: u32)
    requires
        tempo_bar >= MIN_TEMPO_BAR_TICKS,
    ensures
        15 <= spec_pulse_factor(tempo_counter, tempo_bar),
        tempo_bar % 8 == 0 ==> spec_pulse_factor(tempo_counter, tempo_bar) <= 63,
{
    let b = tempo_bar as int;
    let t = (tempo_counter % (tempo_bar / 2)) as int;
    assert(0 <= t < b / 2);
    if t < b / 8 {
        assert(15 * b <= 15 * b + 384 * t);
        assert(384 * t <= 48 * b) by (nonlinear_arith)
            requires
                t < b / 8,
                0 <= t,
                b >= 8,
        ;
        assert((15 * b + 384 * t) / b >= 15 && (15 * b + 384 * t) / b <= 63 && (15 * b + 384 * t) / b <= 255) by (nonlinear_arith)
            requires
                384 * t <= 48 * b,
                0 <= t,
                b >= 8,
        ;
    } else {
        assert(384 * t >= 48 * b - 384) by (nonlinear_arith)
            requires
                t >= b / 8,
                b >= 8,
        ;
        assert(384 * t <= 192 * b) by (nonlinear_arith)
            requires
                t < b / 2,
                0 <= t,
        ;
        assert(384 * t <= 192 * b - 384) by (nonlinear_arith)
            requires
                t < b / 2,
                0 <= t,
                b >= 8,
        ;
        assert((237 * b - 384 * t) / (3 * b) >= 15) by (nonlinear_arith)
            requires
                384 * t <= 192 * b - 384,
                b >= 8,
        ;
        assert((237 * b - 384 * t) / (3 * b) <= 79) by (nonlinear_arith)
            requires
                0 <= t,
                b >= 8,
        ;
        if b % 8 == 0 {
            assert(384 * t >= 48 * b) by (nonlinear_arith)
                requires
                    t >= b / 8,
                    b % 8 == 0,
            ;
            assert((237 * b - 384 * t) / (3 * b) <= 63) by (nonlinear_arith)
                requires
                    237 * b - 384 * t <= 189 * b,
                    b >= 8,
            ;
        }
    }
}

/// An LED given a steady color is left alone by the tempo tick: it shows
/// that color until it is set again.
pub proof fn lemma_set_led_is_steady(s: &LedState, n: &LedState, index: u8, color: LedColor, factor: u8, flash_on: bool)
    requires
        s.wf(),
        valid_index(index),
        base_set(s, n, index, color),
    ensures
        spec_tick_led(n, index as int, factor, flash_on) is None,
        n.base@[index as int] == color,
{
}

/// Each palette number shows its own table: 0 the Novation palette, 1 the
/// Mat1jaczyyy palette, 2 the MXOS palette (each at velocity modulo 128),
/// 3 the red/green ramp (red from bits 0-1 and green from bits 4-5 of the
/// velocity, in steps of 21, no blue), 4..=6 the custom slots 0..=2 with
/// every channel capped at 63, and any other number the Novation palette.
pub proof fn lemma_palette_numbers_select_tables(settings: &Settings, palettes: &Palettes, velocity: u8)
    ensures
        settings.palette == 0 ==> spec_palette_rgb(settings, palettes, velocity) == palettes.novation@[velocity as int % 128],
        settings.palette == 1 ==> spec_palette_rgb(settings, palettes, velocity) == palettes.mat1jaczyyy@[velocity as int % 128],
        settings.palette == 2 ==> spec_palette_rgb(settings, palettes, velocity) == palettes.mxos@[velocity as int % 128],
        settings.palette == 3 ==> spec_palette_rgb(settings, palettes, velocity) == (
            ((velocity % 4) * 21) as u8,
            (((velocity / 16) % 4) * 21) as u8,
            0u8,
        ),
        4 <= settings.palette <= 6 ==> ({
            let base = (settings.palette - 4) * 384 + velocity as int % 128;
            let c = |k: int| {
                let x = settings.custom_palette@[base + 128 * k];
                if x > 63 { 63u8 } else { x }
            };
            spec_palette_rgb(settings, palettes, velocity) == (c(0), c(1), c(2))
        }),
        settings.palette > 6 ==> spec_palette_rgb(settings, palettes, velocity) == palettes.novation@[velocity as int % 128],
{
    assert((velocity & 0x03) == velocity % 4 && ((velocity >> 4u8) & 0x03) == (velocity / 16) % 4) by (bit_vector);
}

} // verus!
