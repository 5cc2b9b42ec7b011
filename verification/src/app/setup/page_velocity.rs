use vstd::prelude::*;
use crate::events::SurfaceEvent;
use crate::led::{spec_set, spec_sets, LedView};
use crate::driver::LedCommand;
use crate::system::{writes_to_raw, Sys};
use super::text::{text_writes, Text};

verus! {

pub const TOGGLE_BUTTON: u8 = 31;
pub const CURVE_START: u8 = 21;
pub const CURVE_END: u8 = 23;

/// The velocity page's controls: the on/off toggle, then the three curve
/// buttons with the selected one lit (all off while velocity is off).
pub open spec fn velocity_frame(enabled: u8, curve: u8) -> Seq<(u8, u32)> {
    seq![(TOGGLE_BUTTON, if enabled != 0 { 0x10ff10u32 } else { 0xff1010u32 })] + if enabled != 0 {
        seq![(21u8, 0x101010u32), (22u8, 0x101010u32), (23u8, 0x101010u32), ((21 + (if curve < 2 { curve } else { 2 })) as u8, 0xff4000u32)]
    } else {
        seq![(21u8, 0u32), (22u8, 0u32), (23u8, 0u32)]
    }
}

/// The velocity settings (on/off, curve) a press asks for: the toggle
/// flips sensitivity; a curve button selects its curve while it is on.
pub open spec fn velocity_press(enabled: u8, curve: u8, event: SurfaceEvent) -> Option<(u8, u8)> {
    if !event.pressed {
        None
    } else if event.index == TOGGLE_BUTTON {
        Some((if enabled != 0 { 0u8 } else { 1u8 }, curve))
    } else if CURVE_START <= event.index <= CURVE_END && enabled != 0 {
        Some((enabled, (event.index - CURVE_START) as u8))
    } else {
        None
    }
}

/// The page as drawn on entry from the given engine and output.
pub open spec fn velocity_page_drawn(sys: &Sys, text: Text, v: LedView, out: Seq<LedCommand>) -> (LedView, Seq<LedCommand>) {
    let rot = sys.rotation;
    let s1 = spec_set(v, out, 69, 0x551500);
    let s2 = spec_sets(s1.0, s1.1, writes_to_raw(rot, text_writes(text, 32)));
    spec_sets(s2.0, s2.1, writes_to_raw(rot, velocity_frame(sys.settings.velocity_enabled, sys.settings.velocity_curve)))
}

/// Velocity sensitivity settings: on/off and the curve.
pub struct VelocityPage {
    pub text: Text,
}

impl VelocityPage {
    pub fn new() -> (r: Self)
        ensures
            r.text.line_mask@ == seq![0b10111110u8, 0b10111010, 0b10110010, 0b01011111],
            r.text.color_mask == 0b11100011,
            r.text.primary_color == 0xFFAA00,
            r.text.secondary_color == 0xFFFBCC,
    {
        let r = VelocityPage { text: Text::new([0b10111110, 0b10111010, 0b10110010, 0b01011111], 0b11100011, 0xFFAA00, 0xFFFBCC) };
        assert(r.text.line_mask@ =~= seq![0b10111110u8, 0b10111010, 0b10110010, 0b01011111]);
        r
    }

    fn draw(&self, sys: &mut Sys)
        requires
            old(sys).wf(),
        ensures
            final(sys).leds_now(
                old(sys),
                spec_sets(
                    old(sys).leds@,
                    old(sys).driver.leds@,
                    writes_to_raw(old(sys).rotation, velocity_frame(old(sys).settings.velocity_enabled, old(sys).settings.velocity_curve)),
                ),
            ),
    {
        let enabled = sys.settings.velocity_enabled;
        let curve = sys.settings.velocity_curve;
        let mut writes: Vec<(u8, u32)> = Vec::new();
        writes.push((TOGGLE_BUTTON, if enabled != 0 { 0x10ff10 } else { 0xff1010 }));
        if enabled != 0 {
            writes.push((21, 0x101010));
            writes.push((22, 0x101010));
            writes.push((23, 0x101010));
            writes.push((CURVE_START + if curve < 2 { curve } else { 2 }, 0xff4000));
        } else {
            writes.push((21, 0));
            writes.push((22, 0));
            writes.push((23, 0));
        }
        assert(writes@ =~= velocity_frame(enabled, curve));
        sys.led_sets(writes.as_slice());
    }

    /// Highlights the page tab, draws the title and the controls.
    pub fn on_enter(&self, sys: &mut Sys)
        requires
            old(sys).wf(),
        ensures
            final(sys).leds_now(old(sys), velocity_page_drawn(old(sys), self.text, old(sys).leds@, old(sys).driver.leds@)),
    {
        sys.led_set_raw(69, 0x551500);
        self.text.draw(sys);
        self.draw(sys);
    }

    /// The toggle switches velocity on or off; a curve button selects its
    /// curve while velocity is on. Either redraws the controls.
    /// A press on the velocity page, from `p0`/`s0` to `p1`/`s1`.
    pub open spec fn pressed(p0: VelocityPage, s0: Sys, p1: VelocityPage, s1: Sys, event: SurfaceEvent) -> bool {
        &&& p1 == p0
        &&& s1.wf()
        &&& s1.rotation == s0.rotation
        &&& s1.settings.palette == s0.settings.palette
        &&& s1.settings.custom_palette == s0.settings.custom_palette
        &&& s1.settings.aftertouch_mode == s0.settings.aftertouch_mode
        &&& s1.settings.aftertouch_curve == s0.settings.aftertouch_curve
        &&& s1.settings.brightness == s0.settings.brightness
        &&& match velocity_press(s0.settings.velocity_enabled, s0.settings.velocity_curve, event) {
            Some((enabled, curve)) => {
                let s = spec_sets(s0.leds@, s0.driver.leds@, writes_to_raw(s0.rotation, velocity_frame(enabled, curve)));
                &&& s1.settings.velocity_enabled == enabled
                &&& s1.settings.velocity_curve == curve
                &&& s1.leds@ == s.0
                &&& s1.driver.leds@ == s.1
            },
            None => {
                &&& s1.settings == s0.settings
                &&& s1.leds@ == s0.leds@
                &&& s1.driver.leds@ == s0.driver.leds@
            },
        }
    }

    pub fn on_surface(&mut self, sys: &mut Sys, event: SurfaceEvent)
        requires
            old(sys).wf(),
        ensures
            final(sys).wf(),
            final(sys).rotation == old(sys).rotation,
            final(sys).settings.palette == old(sys).settings.palette,
            final(sys).settings.custom_palette == old(sys).settings.custom_palette,
            final(sys).settings.aftertouch_mode == old(sys).settings.aftertouch_mode,
            final(sys).settings.aftertouch_curve == old(sys).settings.aftertouch_curve,
            final(sys).settings.brightness == old(sys).settings.brightness,
            match velocity_press(old(sys).settings.velocity_enabled, old(sys).settings.velocity_curve, event) {
                Some((enabled, curve)) => {
                    let s = spec_sets(old(sys).leds@, old(sys).driver.leds@, writes_to_raw(old(sys).rotation, velocity_frame(enabled, curve)));
                    &&& final(sys).settings.velocity_enabled == enabled
                    &&& final(sys).settings.velocity_curve == curve
                    &&& final(sys).leds@ == s.0
                    &&& final(sys).driver.leds@ == s.1
                },
                None => {
                    &&& final(sys).settings == old(sys).settings
                    &&& final(sys).leds@ == old(sys).leds@
                    &&& final(sys).driver.leds@ == old(sys).driver.leds@
                },
            },
            *final(self) == *old(self),
            Self::pressed(*old(self), *old(sys), *final(self), *final(sys), event),
    {
        if !event.pressed {
            return;
        }
        if event.index == TOGGLE_BUTTON {
            sys.settings.velocity_enabled = if sys.settings.velocity_enabled != 0 { 0 } else { 1 };
            self.draw(sys);
            return;
        }
        if CURVE_START <= event.index && event.index <= CURVE_END {
            if sys.settings.velocity_enabled == 0 {
                return;
            }
            sys.settings.velocity_curve = event.index - CURVE_START;
            self.draw(sys);
        }
    }
}

} // verus!
