use vstd::prelude::*;
use crate::events::SurfaceEvent;
use crate::led::{spec_set, spec_sets, LedView};
use crate::driver::LedCommand;
use crate::system::{writes_to_raw, RotationKind, Sys};
use super::text::{text_writes, Text};

verus! {

pub const BRIGHTNESS_START: u8 = 31;
pub const BRIGHTNESS_END: u8 = 38;
pub const ROTATION_DEFAULT_BUTTON: u8 = 91;
pub const ROTATION_UPSIDE_DOWN: u8 = 92;
pub const ROTATION_LEFT_BUTTON: u8 = 93;
pub const ROTATION_RIGHT_BUTTON: u8 = 94;

/// The brightness selector: eight dim buttons, then the current level
/// (at most 7) bright.
pub open spec fn brightness_frame(brightness: u8) -> Seq<(u8, u32)> {
    Seq::new(8, |i: int| ((31 + i) as u8, 0x101010u32)).push(((31 + (if brightness < 7 { brightness } else { 7 })) as u8, 0xccccffu32))
}

/// The orientation selector, on raw indices: the current orientation's
/// button bright, the others dim.
pub open spec fn rotation_frame(kind: RotationKind) -> Seq<(u8, u32)> {
    seq![
        (ROTATION_DEFAULT_BUTTON, if kind == RotationKind::Default { 0xffffffu32 } else { 0x202020u32 }),
        (ROTATION_UPSIDE_DOWN, if kind == RotationKind::UpsideDown { 0xffffffu32 } else { 0x202020u32 }),
        (ROTATION_LEFT_BUTTON, if kind == RotationKind::Left { 0xffffffu32 } else { 0x202020u32 }),
        (ROTATION_RIGHT_BUTTON, if kind == RotationKind::Right { 0xffffffu32 } else { 0x202020u32 })
    ]
}

/// The 8x8 grid blanked, row by row, on raw indices.
pub open spec fn grid_blank_frame() -> Seq<(u8, u32)> {
    Seq::new(64, |i: int| (((i / 8 + 1) * 10 + (i % 8 + 1)) as u8, 0u32))
}

/// The page as drawn on entry from the given engine and output.
pub open spec fn leds_page_drawn(sys: &Sys, text: Text, v: LedView, out: Seq<LedCommand>) -> (LedView, Seq<LedCommand>) {
    let rot = sys.rotation;
    let s1 = spec_set(v, out, 79, 0x0a0a55);
    let s2 = spec_sets(s1.0, s1.1, writes_to_raw(rot, text_writes(text, 32)));
    let s3 = spec_sets(s2.0, s2.1, writes_to_raw(rot, brightness_frame(sys.driver.brightness)));
    spec_sets(s3.0, s3.1, rotation_frame(rot.kind))
}

/// LED settings: brightness and the surface's orientation.
pub struct LedsPage {
    pub text: Text,
}

impl LedsPage {
    pub fn new() -> (r: Self)
        ensures
            r.text.line_mask@ == seq![0b10111110u8, 0b10110101, 0b10100101, 0b11111110],
            r.text.color_mask == 0b11000111,
            r.text.primary_color == 0x2020ff,
            r.text.secondary_color == 0xddddff,
    {
        let r = LedsPage { text: Text::new([0b10111110, 0b10110101, 0b10100101, 0b11111110], 0b11000111, 0x2020ff, 0xddddff) };
        assert(r.text.line_mask@ =~= seq![0b10111110u8, 0b10110101, 0b10100101, 0b11111110]);
        r
    }

    fn draw_brightness_selector(&self, sys: &mut Sys)
        requires
            old(sys).wf(),
        ensures
            final(sys).leds_now(
                old(sys),
                spec_sets(old(sys).leds@, old(sys).driver.leds@, writes_to_raw(old(sys).rotation, brightness_frame(old(sys).driver.brightness))),
            ),
    {
        let b = sys.driver.brightness();
        let brightness: u8 = if b < 7 { b } else { 7 };
        let mut writes: Vec<(u8, u32)> = Vec::new();
        let mut level: u8 = 0;
        while level < 8
            invariant
                level <= 8,
                writes@ == Seq::new(level as nat, |i: int| ((31 + i) as u8, 0x101010u32)),
            decreases 8 - level,
        {
            writes.push((BRIGHTNESS_START + level, 0x101010));
            level = level + 1;
            assert(writes@ =~= Seq::new(level as nat, |i: int| ((31 + i) as u8, 0x101010u32)));
        }
        writes.push((BRIGHTNESS_START + brightness, 0xccccff));
        assert(writes@ =~= brightness_frame(b));
        sys.led_sets(writes.as_slice());
    }

    fn draw_rotation_selector(&self, sys: &mut Sys)
        requires
            old(sys).wf(),
        ensures
            final(sys).leds_now(old(sys), spec_sets(old(sys).leds@, old(sys).driver.leds@, rotation_frame(old(sys).rotation.kind))),
    {
        let kind = sys.rotation.get();
        sys.led_set_raw(ROTATION_DEFAULT_BUTTON, if kind == RotationKind::Default { 0xffffff } else { 0x202020 });
        sys.led_set_raw(ROTATION_UPSIDE_DOWN, if kind == RotationKind::UpsideDown { 0xffffff } else { 0x202020 });
        sys.led_set_raw(ROTATION_LEFT_BUTTON, if kind == RotationKind::Left { 0xffffff } else { 0x202020 });
        sys.led_set_raw(ROTATION_RIGHT_BUTTON, if kind == RotationKind::Right { 0xffffff } else { 0x202020 });
        proof {
            reveal_with_fuel(spec_sets, 5);
            let f = rotation_frame(kind);
            assert(f.drop_last().drop_last().drop_last().drop_last() =~= Seq::<(u8, u32)>::empty());
            assert(f.drop_last().drop_last().drop_last() =~= seq![f[0]]);
            assert(f.drop_last().drop_last() =~= seq![f[0], f[1]]);
            assert(f.drop_last() =~= seq![f[0], f[1], f[2]]);
        }
    }

    /// Highlights the page tab and draws the title and both selectors.
    pub fn on_enter(&self, sys: &mut Sys)
        requires
            old(sys).wf(),
        ensures
            final(sys).leds_now(old(sys), leds_page_drawn(old(sys), self.text, old(sys).leds@, old(sys).driver.leds@)),
    {
        sys.led_set_raw(79, 0x0a0a55);
        self.text.draw(sys);
        self.draw_brightness_selector(sys);
        self.draw_rotation_selector(sys);
    }

    /// A brightness button sets the driver's brightness and the stored
    /// setting, and redraws the selector.
    /// A press on the LED page, from `p0`/`s0` to `p1`/`s1`.
    pub open spec fn pressed(p0: LedsPage, s0: Sys, p1: LedsPage, s1: Sys, event: SurfaceEvent) -> bool {
        &&& p1 == p0
        &&& s1.wf()
        &&& s1.rotation == s0.rotation
        &&& event.pressed && BRIGHTNESS_START <= event.index <= BRIGHTNESS_END ==> {
            let b = (event.index - BRIGHTNESS_START) as u8;
            let s = spec_sets(s0.leds@, s0.driver.leds@, writes_to_raw(s0.rotation, brightness_frame(b)));
            &&& s1.driver.brightness == b
            &&& s1.settings.brightness == b
            &&& s1.settings.palette == s0.settings.palette
            &&& s1.settings.custom_palette == s0.settings.custom_palette
            &&& s1.leds@ == s.0
            &&& s1.driver.leds@ == s.1
        }
        &&& !(event.pressed && BRIGHTNESS_START <= event.index <= BRIGHTNESS_END) ==> {
            &&& s1.settings == s0.settings
            &&& s1.driver.brightness == s0.driver.brightness
            &&& s1.leds@ == s0.leds@
            &&& s1.driver.leds@ == s0.driver.leds@
        }
    }

    pub fn on_surface(&mut self, sys: &mut Sys, event: SurfaceEvent)
        requires
            old(sys).wf(),
        ensures
            final(sys).wf(),
            final(sys).rotation == old(sys).rotation,
            event.pressed && BRIGHTNESS_START <= event.index <= BRIGHTNESS_END ==> {
                let b = (event.index - BRIGHTNESS_START) as u8;
                let s = spec_sets(old(sys).leds@, old(sys).driver.leds@, writes_to_raw(old(sys).rotation, brightness_frame(b)));
                &&& final(sys).driver.brightness == b
                &&& final(sys).settings.brightness == b
                &&& final(sys).settings.palette == old(sys).settings.palette
                &&& final(sys).settings.custom_palette == old(sys).settings.custom_palette
                &&& final(sys).leds@ == s.0
                &&& final(sys).driver.leds@ == s.1
            },
            !(event.pressed && BRIGHTNESS_START <= event.index <= BRIGHTNESS_END) ==> {
                &&& final(sys).settings == old(sys).settings
                &&& final(sys).driver.brightness == old(sys).driver.brightness
                &&& final(sys).leds@ == old(sys).leds@
                &&& final(sys).driver.leds@ == old(sys).driver.leds@
            },
            *final(self) == *old(self),
            Self::pressed(*old(self), *old(sys), *final(self), *final(sys), event),
    {
        if !event.pressed || event.index < BRIGHTNESS_START || event.index > BRIGHTNESS_END {
            return;
        }
        let brightness = event.index - BRIGHTNESS_START;
        sys.driver.set_brightness(brightness);
        sys.settings.brightness = brightness;
        self.draw_brightness_selector(sys);
    }

    /// An orientation button (raw index) switches the orientation, blanks
    /// the grid and redraws the page.
    pub fn on_surface_raw(&mut self, sys: &mut Sys, event: SurfaceEvent)
        requires
            old(sys).wf(),
        ensures
            final(sys).wf(),
            final(sys).settings == old(sys).settings,
            final(sys).driver.brightness == old(sys).driver.brightness,
            match rotation_for_button(event) {
                Some(kind) => {
                    let s1 = spec_sets(old(sys).leds@, old(sys).driver.leds@, grid_blank_frame());
                    &&& final(sys).rotation.kind == kind
                    &&& final(sys).rotation.maps@ == old(sys).rotation.maps@
                    &&& (final(sys).leds@, final(sys).driver.leds@) == leds_page_drawn(final(sys), old(self).text, s1.0, s1.1)
                },
                None => final(sys).rotation == old(sys).rotation && final(sys).leds@ == old(sys).leds@
                    && final(sys).driver.leds@ == old(sys).driver.leds@,
            },
    {
        if !event.pressed {
            return;
        }
        let new_rotation = if event.index == ROTATION_DEFAULT_BUTTON {
            Some(RotationKind::Default)
        } else if event.index == ROTATION_UPSIDE_DOWN {
            Some(RotationKind::UpsideDown)
        } else if event.index == ROTATION_LEFT_BUTTON {
            Some(RotationKind::Left)
        } else if event.index == ROTATION_RIGHT_BUTTON {
            Some(RotationKind::Right)
        } else {
            None
        };
        if let Some(kind) = new_rotation {
            sys.rotation.set(kind);
            let mut writes: Vec<(u8, u32)> = Vec::new();
            let mut row: u8 = 1;
            while row <= 8
                invariant
                    1 <= row <= 9,
                    writes@ == grid_blank_frame().take((row - 1) * 8),
                decreases 9 - row,
            {
                let mut col: u8 = 1;
                while col <= 8
                    invariant
                        1 <= row <= 8,
                        1 <= col <= 9,
                        writes@ == grid_blank_frame().take((row - 1) * 8 + col - 1),
                    decreases 9 - col,
                {
                    writes.push((row * 10 + col, 0));
                    proof {
                        let k = (row - 1) * 8 + col - 1;
                        assert(k / 8 + 1 == row && k % 8 + 1 == col);
                        assert(writes@ =~= grid_blank_frame().take(k + 1));
                    }
                    col = col + 1;
                }
                row = row + 1;
            }
            assert(writes@ =~= grid_blank_frame());
            let mut k: usize = 0;
            let ghost before = *sys;
            while k < writes.len()
                invariant
                    k <= writes@.len(),
                    before.wf(),
                    sys.leds_now(&before, spec_sets(before.leds@, before.driver.leds@, writes@.take(k as int))),
                decreases writes@.len() - k,
            {
                let (index, color) = writes[k];
                sys.led_set_raw(index, color);
                proof {
                    assert(writes@.take(k + 1).drop_last() =~= writes@.take(k as int));
                }
                k = k + 1;
            }
            assert(writes@.take(writes@.len() as int) =~= writes@);
            self.on_enter(sys);
        }
    }
}

/// The orientation a raw press selects, if any.
pub open spec fn rotation_for_button(event: SurfaceEvent) -> Option<RotationKind> {
    if !event.pressed {
        None
    } else if event.index == ROTATION_DEFAULT_BUTTON {
        Some(RotationKind::Default)
    } else if event.index == ROTATION_UPSIDE_DOWN {
        Some(RotationKind::UpsideDown)
    } else if event.index == ROTATION_LEFT_BUTTON {
        Some(RotationKind::Left)
    } else if event.index == ROTATION_RIGHT_BUTTON {
        Some(RotationKind::Right)
    } else {
        None
    }
}

/// On the LED page each orientation button selects its own orientation
/// (91 normal, 92 upside down, 93 left, 94 right; a release selects
/// nothing), and the orientation a press selects is the one whose button
/// the page then shows lit, with every other orientation button dim.
pub proof fn lemma_orientation_buttons(event: SurfaceEvent)
    ensures
        event.pressed && event.index == 91 ==> rotation_for_button(event) == Some(RotationKind::Default),
        event.pressed && event.index == 92 ==> rotation_for_button(event) == Some(RotationKind::UpsideDown),
        event.pressed && event.index == 93 ==> rotation_for_button(event) == Some(RotationKind::Left),
        event.pressed && event.index == 94 ==> rotation_for_button(event) == Some(RotationKind::Right),
        !event.pressed || event.index < 91 || event.index > 94 ==> rotation_for_button(event) is None,
        rotation_for_button(event) matches Some(kind) ==> forall|k: int|
            0 <= k < 4 ==> (#[trigger] rotation_frame(kind)[k]).1 == (if rotation_frame(kind)[k].0 == event.index {
                0xffffffu32
            } else {
                0x202020u32
            }),
{
}

} // verus!
