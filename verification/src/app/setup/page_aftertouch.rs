use vstd::prelude::*;
use crate::events::SurfaceEvent;
use crate::led::{spec_set, spec_sets, LedView};
use crate::driver::LedCommand;
use crate::system::{writes_to_raw, Sys};
use super::text::{text_writes, Text};

verus! {

pub const AT_MODE_OFF: u8 = 0;
pub const AT_MODE_POLY: u8 = 1;
pub const AT_MODE_CHANNEL: u8 = 2;
pub const MODE_BUTTON_OFF: u8 = 31;
pub const MODE_BUTTON_POLY: u8 = 32;
pub const MODE_BUTTON_CHANNEL: u8 = 33;
pub const CURVE_START: u8 = 21;
pub const CURVE_END: u8 = 23;

/// The aftertouch page's controls: the three mode buttons with the
/// selected one bright, then the curve buttons (all off while aftertouch is
/// off).
pub open spec fn aftertouch_frame(mode: u8, curve: u8) -> Seq<(u8, u32)> {
    seq![
        (MODE_BUTTON_OFF, if mode == AT_MODE_OFF { 0xff1010u32 } else { 0x400101u32 }),
        (MODE_BUTTON_POLY, if mode == AT_MODE_POLY { 0x10ff10u32 } else { 0x014001u32 }),
        (MODE_BUTTON_CHANNEL, if mode == AT_MODE_CHANNEL { 0x10ff10u32 } else { 0x014001u32 })
    ] + if mode != AT_MODE_OFF {
        seq![(21u8, 0x101010u32), (22u8, 0x101010u32), (23u8, 0x101010u32), ((21 + (if curve < 2 { curve } else { 2 })) as u8, 0x4000ffu32)]
    } else {
        seq![(21u8, 0u32), (22u8, 0u32), (23u8, 0u32)]
    }
}

/// The aftertouch settings a press asks for: a mode button selects its
/// mode; a curve button selects its curve while aftertouch is on.
pub open spec fn aftertouch_press(mode: u8, curve: u8, event: SurfaceEvent) -> Option<(u8, u8)> {
    if !event.pressed {
        None
    } else if event.index == MODE_BUTTON_OFF {
        Some((AT_MODE_OFF, curve))
    } else if event.index == MODE_BUTTON_POLY {
        Some((AT_MODE_POLY, curve))
    } else if event.index == MODE_BUTTON_CHANNEL {
        Some((AT_MODE_CHANNEL, curve))
    } else if CURVE_START <= event.index <= CURVE_END && mode != AT_MODE_OFF {
        Some((mode, (event.index - CURVE_START) as u8))
    } else {
        None
    }
}

/// The page as drawn on entry from the given engine and output.
pub open spec fn aftertouch_page_drawn(sys: &Sys, text: Text, v: LedView, out: Seq<LedCommand>) -> (LedView, Seq<LedCommand>) {
    let rot = sys.rotation;
    let s1 = spec_set(v, out, 59, 0x150055);
    let s2 = spec_sets(s1.0, s1.1, writes_to_raw(rot, text_writes(text, 32)));
    spec_sets(s2.0, s2.1, writes_to_raw(rot, aftertouch_frame(sys.settings.aftertouch_mode, sys.settings.aftertouch_curve)))
}

/// Aftertouch settings: off, polyphonic or channel pressure, and the curve.
pub struct AftertouchPage {
    pub text: Text,
}

impl AftertouchPage {
    pub fn new() -> (r: Self)
        ensures
            r.text.line_mask@ == seq![0b01011111u8, 0b10110010, 0b11111010, 0b10110010],
            r.text.color_mask == 0b11100111,
            r.text.primary_color == 0x2000ff,
            r.text.secondary_color == 0xedddff,
    {
        let r = AftertouchPage { text: Text::new([0b01011111, 0b10110010, 0b11111010, 0b10110010], 0b11100111, 0x2000ff, 0xedddff) };
        assert(r.text.line_mask@ =~= seq![0b01011111u8, 0b10110010, 0b11111010, 0b10110010]);
        r
    }

    fn draw(&self, sys: &mut Sys)
        requires
            old(sys).wf(),
        ensures
            final(sys).leds_now(
                old(sys),
                spec_sets(
                    old(sys).leds@,
                    old(sys).driver.leds@,
                    writes_to_raw(old(sys).rotation, aftertouch_frame(old(sys).settings.aftertouch_mode, old(sys).settings.aftertouch_curve)),
                ),
            ),
    {
        let mode = sys.settings.aftertouch_mode;
        let curve = sys.settings.aftertouch_curve;
        let mut writes: Vec<(u8, u32)> = Vec::new();
        writes.push((MODE_BUTTON_OFF, if mode == AT_MODE_OFF { 0xff1010 } else { 0x400101 }));
        writes.push((MODE_BUTTON_POLY, if mode == AT_MODE_POLY { 0x10ff10 } else { 0x014001 }));
        writes.push((MODE_BUTTON_CHANNEL, if mode == AT_MODE_CHANNEL { 0x10ff10 } else { 0x014001 }));
        if mode != AT_MODE_OFF {
            writes.push((21, 0x101010));
            writes.push((22, 0x101010));
            writes.push((23, 0x101010));
            writes.push((CURVE_START + if curve < 2 { curve } else { 2 }, 0x4000ff));
        } else {
            writes.push((21, 0));
            writes.push((22, 0));
            writes.push((23, 0));
        }
        assert(writes@ =~= aftertouch_frame(mode, curve));
        sys.led_sets(writes.as_slice());
    }

    /// Highlights the page tab, draws the title and the controls.
    pub fn on_enter(&self, sys: &mut Sys)
        requires
            old(sys).wf(),
        ensures
            final(sys).leds_now(old(sys), aftertouch_page_drawn(old(sys), self.text, old(sys).leds@, old(sys).driver.leds@)),
    {
        sys.led_set_raw(59, 0x150055);
        self.text.draw(sys);
        self.draw(sys);
    }

    /// Applies a mode or curve press and redraws the controls.
    /// A press on the aftertouch page, from `p0`/`s0` to `p1`/`s1`.
    pub open spec fn pressed(p0: AftertouchPage, s0: Sys, p1: AftertouchPage, s1: Sys, event: SurfaceEvent) -> bool {
        &&& p1 == p0
        &&& s1.wf()
        &&& s1.rotation == s0.rotation
        &&& s1.settings.palette == s0.settings.palette
        &&& s1.settings.custom_palette == s0.settings.custom_palette
        &&& s1.settings.velocity_enabled == s0.settings.velocity_enabled
        &&& s1.settings.velocity_curve == s0.settings.velocity_curve
        &&& s1.settings.brightness == s0.settings.brightness
        &&& match aftertouch_press(s0.settings.aftertouch_mode, s0.settings.aftertouch_curve, event) {
            Some((mode, curve)) => {
                let s = spec_sets(s0.leds@, s0.driver.leds@, writes_to_raw(s0.rotation, aftertouch_frame(mode, curve)));
                &&& s1.settings.aftertouch_mode == mode
                &&& s1.settings.aftertouch_curve == curve
                &&& s1.leds@ == s.0
                &&& s1.driver.leds@ == s.1
            },
            None => {
                &&& s1.settings == s0.settings
                &&& s1.leds@ == s0.leds@
                &&& s1.driver.leds@ == s0.driver.leds@
            },
        }
    }

    pub fn on_surface(&mut self, sys: &mut Sys, event: SurfaceEvent)
        requires
            old(sys).wf(),
        ensures
            final(sys).wf(),
            final(sys).rotation == old(sys).rotation,
            final(sys).settings.palette == old(sys).settings.palette,
            final(sys).settings.custom_palette == old(sys).settings.custom_palette,
            final(sys).settings.velocity_enabled == old(sys).settings.velocity_enabled,
            final(sys).settings.velocity_curve == old(sys).settings.velocity_curve,
            final(sys).settings.brightness == old(sys).settings.brightness,
            match aftertouch_press(old(sys).settings.aftertouch_mode, old(sys).settings.aftertouch_curve, event) {
                Some((mode, curve)) => {
                    let s = spec_sets(old(sys).leds@, old(sys).driver.leds@, writes_to_raw(old(sys).rotation, aftertouch_frame(mode, curve)));
                    &&& final(sys).settings.aftertouch_mode == mode
                    &&& final(sys).settings.aftertouch_curve == curve
                    &&& final(sys).leds@ == s.0
                    &&& final(sys).driver.leds@ == s.1
                },
                None => {
                    &&& final(sys).settings == old(sys).settings
                    &&& final(sys).leds@ == old(sys).leds@
                    &&& final(sys).driver.leds@ == old(sys).driver.leds@
                },
            },
            *final(self) == *old(self),
            Self::pressed(*old(self), *old(sys), *final(self), *final(sys), event),
    {
        if !event.pressed {
            return;
        }
        if event.index == MODE_BUTTON_OFF {
            sys.settings.aftertouch_mode = AT_MODE_OFF;
            self.draw(sys);
        } else if event.index == MODE_BUTTON_POLY {
            sys.settings.aftertouch_mode = AT_MODE_POLY;
            self.draw(sys);
        } else if event.index == MODE_BUTTON_CHANNEL {
            sys.settings.aftertouch_mode = AT_MODE_CHANNEL;
            self.draw(sys);
        } else if CURVE_START <= event.index && event.index <= CURVE_END {
            if sys.settings.aftertouch_mode == AT_MODE_OFF {
                return;
            }
            sys.settings.aftertouch_curve = event.index - CURVE_START;
            self.draw(sys);
        }
    }
}

} // verus!
