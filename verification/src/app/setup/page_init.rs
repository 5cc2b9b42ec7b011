use vstd::prelude::*;
use crate::app::AppId;
use crate::events::SurfaceEvent;
use crate::led::{spec_set, spec_sets, LedView};
use crate::driver::LedCommand;
use crate::system::{writes_to_raw, Sys};
use crate::app::palette_editor::{ensure_custom_palette_has_template, slot_all, with_template};
use super::text::{text_writes, Text};

verus! {

pub const PERFORMANCE_BUTTON: u8 = 11;
pub const PROGRAMMER_BUTTON: u8 = 12;
pub const PALETTE_RAINBOW_BUTTON: u8 = 25;
pub const CUSTOM_PALETTE_START: u8 = 26;
pub const SYSTEM_PALETTE_START: u8 = 15;

/// A color wheel over 0..=255: red to green, green to blue, blue to red.
pub open spec fn spec_wheel(pos: u8) -> u32 {
    if pos < 85 {
        let g = pos * 3;
        ((255 - g) * 65536 + g * 256) as u32
    } else if pos < 170 {
        let b = (pos - 85) * 3;
        ((255 - b) * 256 + b) as u32
    } else {
        let r = (pos - 170) * 3;
        (r * 65536 + (255 - r)) as u32
    }
}

pub fn wheel(pos: u8) -> (r: u32)
    ensures
        r == spec_wheel(pos),
{
    if pos < 85 {
        let g = pos as u32 * 3;
        let inv: u32 = 255 - g;
        proof {
            crate::bits::lemma_pack_bytes(inv, g, 0);
        }
        return (inv << 16) | (g << 8);
    }
    if pos < 170 {
        let p = (pos - 85) as u32;
        let b = p * 3;
        let inv: u32 = 255 - b;
        proof {
            crate::bits::lemma_pack_bytes(inv, 0, b);
        }
        return (inv << 8) | b;
    }
    let p = (pos - 170) as u32;
    let r = p * 3;
    let inv: u32 = 255 - r;
    proof {
        crate::bits::lemma_pack_bytes(r, 0, inv);
    }
    (r << 16) | inv
}

/// The mode selector: the active mode's button bright.
pub open spec fn mode_frame(mode: AppId) -> Seq<(u8, u32)> {
    seq![
        (PERFORMANCE_BUTTON, if mode == AppId::Performance { 0x4000ffu32 } else { 0x100040u32 }),
        (PROGRAMMER_BUTTON, if mode == AppId::Programmer { 0xff4000u32 } else { 0x401000u32 })
    ]
}

/// The palette selector: the editor button (rainbow while a custom palette
/// is selected), the three custom slots, the four built-in palettes, and
/// the red/green palette's own button.
pub open spec fn palette_frame(palette: u8, hue: u8) -> Seq<(u8, u32)> {
    seq![(PALETTE_RAINBOW_BUTTON, if palette < 4 { 0u32 } else { spec_wheel(hue) })]
        + Seq::new(3, |i: int| ((26 + i) as u8, if palette == 4 + i { 0x70eeffu32 } else { 0x106080u32 }))
        + Seq::new(4, |i: int| ((15 + i) as u8, if palette == i { 0x6060ffu32 } else { 0x101090u32 }))
        + seq![(18u8, if palette == 3 { 0xffcc80u32 } else { 0x906010u32 })]
}

/// The page as drawn on entry from the given engine and output.
pub open spec fn init_page_drawn(sys: &Sys, page: InitPage, v: LedView, out: Seq<LedCommand>) -> (LedView, Seq<LedCommand>) {
    let rot = sys.rotation;
    let s1 = spec_set(v, out, 89, 0x550000);
    let s2 = spec_sets(s1.0, s1.1, writes_to_raw(rot, text_writes(page.text, 32)));
    let s3 = spec_set(s2.0, s2.1, rot.spec_to_raw(57), 0x100000);
    let s4 = spec_sets(s3.0, s3.1, writes_to_raw(rot, mode_frame(page.active_mode())));
    spec_sets(s4.0, s4.1, writes_to_raw(rot, palette_frame(sys.settings.palette, page.palette_rainbow_hue)))
}

/// The first setup page: the mode used after setup, and the palette.
pub struct InitPage {
    pub text: Text,
    pub current_mode: AppId,
    pub selected_mode: Option<AppId>,
    pub requested_app_switch: Option<AppId>,
    pub palette_rainbow_hue: u8,
    pub palette_rainbow_tick: u8,
}

impl InitPage {
    pub open spec fn active_mode(&self) -> AppId {
        match self.selected_mode {
            Some(m) => m,
            None => self.current_mode,
        }
    }

    pub fn new() -> (r: Self)
        ensures
            r.text.line_mask@ == seq![0b11111101u8, 0b10100101, 0b10110111, 0b11100101],
            r.text.color_mask == 0b11000111,
            r.text.primary_color == 0xff0000,
            r.text.secondary_color == 0xffcccc,
            r.current_mode == AppId::Performance,
            r.selected_mode is None,
            r.requested_app_switch is None,
            r.palette_rainbow_hue == 0,
            r.palette_rainbow_tick == 0,
    {
        let r = InitPage {
            text: Text::new([0b11111101, 0b10100101, 0b10110111, 0b11100101], 0b11000111, 0xff0000, 0xffcccc),
            current_mode: AppId::Performance,
            selected_mode: None,
            requested_app_switch: None,
            palette_rainbow_hue: 0,
            palette_rainbow_tick: 0,
        };
        assert(r.text.line_mask@ =~= seq![0b11111101u8, 0b10100101, 0b10110111, 0b11100101]);
        r
    }

    /// Remembers the mode setup was entered from (performance or
    /// programmer; others are ignored) and forgets any selection.
    pub fn set_current_mode(&mut self, app: AppId)
        ensures
            app == AppId::Performance || app == AppId::Programmer ==> final(self).current_mode == app
                && final(self).selected_mode is None,
            !(app == AppId::Performance || app == AppId::Programmer) ==> final(self).current_mode == old(self).current_mode
                && final(self).selected_mode == old(self).selected_mode,
            final(self).requested_app_switch == old(self).requested_app_switch,
            final(self).text == old(self).text,
            final(self).palette_rainbow_hue == old(self).palette_rainbow_hue,
            final(self).palette_rainbow_tick == old(self).palette_rainbow_tick,
            *final(self) == (if app == AppId::Performance || app == AppId::Programmer {
                InitPage { current_mode: app, selected_mode: None, ..*old(self) }
            } else {
                *old(self)
            }),
    {
        if app == AppId::Performance || app == AppId::Programmer {
            self.current_mode = app;
            self.selected_mode = None;
        }
    }

    pub fn take_selected_mode(&mut self) -> (r: Option<AppId>)
        ensures
            r == old(self).selected_mode,
            final(self).selected_mode is None,
            final(self).current_mode == old(self).current_mode,
            final(self).requested_app_switch == old(self).requested_app_switch,
            final(self).text == old(self).text,
            *final(self) == (InitPage { selected_mode: None, ..*old(self) }),
    {
        let r = self.selected_mode;
        self.selected_mode = None;
        r
    }

    pub fn take_requested_app_switch(&mut self) -> (r: Option<AppId>)
        ensures
            r == old(self).requested_app_switch,
            final(self).requested_app_switch is None,
            final(self).current_mode == old(self).current_mode,
            final(self).selected_mode == old(self).selected_mode,
            final(self).text == old(self).text,
            *final(self) == (InitPage { requested_app_switch: None, ..*old(self) }),
    {
        let r = self.requested_app_switch;
        self.requested_app_switch = None;
        r
    }

    fn draw_mode_selector(&self, sys: &mut Sys)
        requires
            old(sys).wf(),
        ensures
            final(sys).leds_now(
                old(sys),
                spec_sets(old(sys).leds@, old(sys).driver.leds@, writes_to_raw(old(sys).rotation, mode_frame(self.active_mode()))),
            ),
    {
        let mode = match self.selected_mode {
            Some(m) => m,
            None => self.current_mode,
        };
        let mut writes: Vec<(u8, u32)> = Vec::new();
        writes.push((PERFORMANCE_BUTTON, if mode == AppId::Performance { 0x4000ff } else { 0x100040 }));
        writes.push((PROGRAMMER_BUTTON, if mode == AppId::Programmer { 0xff4000 } else { 0x401000 }));
        assert(writes@ =~= mode_frame(mode));
        sys.led_sets(writes.as_slice());
    }

    fn draw_palette_selector(&self, sys: &mut Sys)
        requires
            old(sys).wf(),
        ensures
            final(sys).leds_now(
                old(sys),
                spec_sets(
                    old(sys).leds@,
                    old(sys).driver.leds@,
                    writes_to_raw(old(sys).rotation, palette_frame(old(sys).settings.palette, self.palette_rainbow_hue)),
                ),
            ),
    {
        let palette = sys.settings.palette;
        let mut writes: Vec<(u8, u32)> = Vec::new();
        writes.push((PALETTE_RAINBOW_BUTTON, if palette < 4 { 0 } else { wheel(self.palette_rainbow_hue) }));
        let mut slot: u8 = 0;
        while slot < 3
            invariant
                slot <= 3,
                writes@ == seq![(PALETTE_RAINBOW_BUTTON, if palette < 4 { 0u32 } else { spec_wheel(self.palette_rainbow_hue) })]
                    + Seq::new(slot as nat, |i: int| ((26 + i) as u8, if palette == 4 + i { 0x70eeffu32 } else { 0x106080u32 })),
            decreases 3 - slot,
        {
            writes.push((CUSTOM_PALETTE_START + slot, if palette == 4 + slot { 0x70eeff } else { 0x106080 }));
            slot = slot + 1;
            assert(writes@ =~= seq![(PALETTE_RAINBOW_BUTTON, if palette < 4 { 0u32 } else { spec_wheel(self.palette_rainbow_hue) })]
                + Seq::new(slot as nat, |i: int| ((26 + i) as u8, if palette == 4 + i { 0x70eeffu32 } else { 0x106080u32 })));
        }
        let ghost head = writes@;
        let mut sp: u8 = 0;
        while sp < 4
            invariant
                sp <= 4,
                writes@ == head + Seq::new(sp as nat, |i: int| ((15 + i) as u8, if palette == i { 0x6060ffu32 } else { 0x101090u32 })),
            decreases 4 - sp,
        {
            writes.push((SYSTEM_PALETTE_START + sp, if palette == sp { 0x6060ff } else { 0x101090 }));
            sp = sp + 1;
            assert(writes@ =~= head + Seq::new(sp as nat, |i: int| ((15 + i) as u8, if palette == i { 0x6060ffu32 } else { 0x101090u32 })));
        }
        writes.push((18, if palette == 3 { 0xffcc80 } else { 0x906010 }));
        assert(writes@ =~= palette_frame(palette, self.palette_rainbow_hue));
        sys.led_sets(writes.as_slice());
    }

    /// Highlights the page tab, draws the title, a marker, and both
    /// selectors.
    pub fn on_enter(&self, sys: &mut Sys)
        requires
            old(sys).wf(),
        ensures
            final(sys).leds_now(old(sys), init_page_drawn(old(sys), *self, old(sys).leds@, old(sys).driver.leds@)),
    {
        sys.led_set_raw(89, 0x550000);
        self.text.draw(sys);
        sys.led_set(57, 0x100000);
        self.draw_mode_selector(sys);
        self.draw_palette_selector(sys);
    }

    /// Selects a palette (a custom one gets a template first) and redraws
    /// the palette selector.
    fn set_palette(&mut self, sys: &mut Sys, palette: u8)
        requires
            old(sys).wf(),
        ensures
            final(sys).wf(),
            final(sys).settings.palette == palette,
            final(sys).rotation == old(sys).rotation,
            ({
                let slot = palette - 4;
                if 4 <= palette <= 6 && (slot_all(&old(sys).settings, slot, 0) || slot_all(&old(sys).settings, slot, 0xff)) {
                    final(sys).settings.custom_palette@ == with_template(old(sys).settings.custom_palette@, &old(sys).palettes, slot)
                } else {
                    final(sys).settings.custom_palette@ == old(sys).settings.custom_palette@
                }
            }),
            final(sys).settings.velocity_enabled == old(sys).settings.velocity_enabled,
            final(sys).settings.aftertouch_mode == old(sys).settings.aftertouch_mode,
            ({
                let s = spec_sets(old(sys).leds@, old(sys).driver.leds@, writes_to_raw(old(sys).rotation, palette_frame(palette, old(self).palette_rainbow_hue)));
                final(sys).leds@ == s.0 && final(sys).driver.leds@ == s.1
            }),
            *final(self) == *old(self),
    {
        ensure_custom_palette_has_template(&mut sys.settings, &sys.palettes, palette);
        sys.settings.palette = palette;
        self.draw_palette_selector(sys);
    }

    /// Mode buttons select the mode for after setup; palette buttons select
    /// a palette; the editor button, with a custom palette selected, asks
    /// for the palette editor.
    /// A press on the first page, from `p0`/`s0` to `p1`/`s1`.
    pub open spec fn pressed(p0: InitPage, s0: Sys, p1: InitPage, s1: Sys, event: SurfaceEvent) -> bool {
        &&& s1.wf()
        &&& p1.text == p0.text
        &&& p1.current_mode == p0.current_mode
        &&& s1.rotation == s0.rotation
        &&& event.pressed && event.index == PERFORMANCE_BUTTON ==> p1.selected_mode == Some(AppId::Performance)
            && s1.settings == s0.settings
        &&& event.pressed && event.index == PROGRAMMER_BUTTON ==> p1.selected_mode == Some(AppId::Programmer)
            && s1.settings == s0.settings
        &&& event.pressed && 15 <= event.index <= 18 ==> s1.settings.palette == event.index - 15
            && p1.selected_mode == p0.selected_mode
        &&& event.pressed && 26 <= event.index <= 28 ==> s1.settings.palette == event.index - 22
            && p1.selected_mode == p0.selected_mode
        &&& event.pressed && event.index == PALETTE_RAINBOW_BUTTON && s0.settings.palette >= 4 ==> p1.requested_app_switch
            == Some(AppId::PaletteEditor) && s1.settings == s0.settings
        &&& !(event.pressed && event.index == PALETTE_RAINBOW_BUTTON && s0.settings.palette >= 4) ==> p1.requested_app_switch
            == p0.requested_app_switch
        &&& event.pressed && (event.index == PERFORMANCE_BUTTON || event.index == PROGRAMMER_BUTTON) ==> {
            let mode = if event.index == PERFORMANCE_BUTTON { AppId::Performance } else { AppId::Programmer };
            &&& p1 == InitPage { selected_mode: Some(mode), ..p0 }
            &&& s1.leds_now(&s0, spec_sets(s0.leds@, s0.driver.leds@, writes_to_raw(s0.rotation, mode_frame(mode))))
        }
        &&& !event.pressed || !(event.index == PERFORMANCE_BUTTON || event.index == PROGRAMMER_BUTTON || 15 <= event.index <= 18
            || 26 <= event.index <= 28 || event.index == PALETTE_RAINBOW_BUTTON) ==> {
            &&& s1.settings == s0.settings
            &&& s1.leds@ == s0.leds@
            &&& s1.driver.leds@ == s0.driver.leds@
            &&& p1.selected_mode == p0.selected_mode
        }
    }

    pub fn on_surface(&mut self, sys: &mut Sys, event: SurfaceEvent)
        requires
            old(sys).wf(),
        ensures
            final(sys).wf(),
            final(self).text == old(self).text,
            final(self).current_mode == old(self).current_mode,
            final(sys).rotation == old(sys).rotation,
            event.pressed && event.index == PERFORMANCE_BUTTON ==> final(self).selected_mode == Some(AppId::Performance)
                && final(sys).settings == old(sys).settings,
            event.pressed && event.index == PROGRAMMER_BUTTON ==> final(self).selected_mode == Some(AppId::Programmer)
                && final(sys).settings == old(sys).settings,
            event.pressed && 15 <= event.index <= 18 ==> final(sys).settings.palette == event.index - 15
                && final(self).selected_mode == old(self).selected_mode,
            event.pressed && 26 <= event.index <= 28 ==> final(sys).settings.palette == event.index - 22
                && final(self).selected_mode == old(self).selected_mode,
            event.pressed && event.index == PALETTE_RAINBOW_BUTTON && old(sys).settings.palette >= 4 ==> final(self).requested_app_switch
                == Some(AppId::PaletteEditor) && final(sys).settings == old(sys).settings,
            !(event.pressed && event.index == PALETTE_RAINBOW_BUTTON && old(sys).settings.palette >= 4) ==> final(self).requested_app_switch
                == old(self).requested_app_switch,
            !event.pressed || !(event.index == PERFORMANCE_BUTTON || event.index == PROGRAMMER_BUTTON || 15 <= event.index <= 18
                || 26 <= event.index <= 28 || event.index == PALETTE_RAINBOW_BUTTON) ==> {
                &&& final(sys).settings == old(sys).settings
                &&& final(sys).leds@ == old(sys).leds@
                &&& final(sys).driver.leds@ == old(sys).driver.leds@
                &&& final(self).selected_mode == old(self).selected_mode
            },
            Self::pressed(*old(self), *old(sys), *final(self), *final(sys), event),
    {
        if !event.pressed {
            return;
        }
        let index = event.index;
        if index == PERFORMANCE_BUTTON {
            self.selected_mode = Some(AppId::Performance);
            self.draw_mode_selector(sys);
        } else if index == PROGRAMMER_BUTTON {
            self.selected_mode = Some(AppId::Programmer);
            self.draw_mode_selector(sys);
        } else if 15 <= index && index <= 18 {
            self.set_palette(sys, index - SYSTEM_PALETTE_START);
        } else if 26 <= index && index <= 28 {
            self.set_palette(sys, index - CUSTOM_PALETTE_START + 4);
        } else if index == PALETTE_RAINBOW_BUTTON && sys.settings.palette >= 4 {
            self.requested_app_switch = Some(AppId::PaletteEditor);
        }
    }

    /// With a custom palette selected, every sixth tick moves the editor
    /// button's rainbow one step.
    pub open spec fn ticked(p0: InitPage, s0: Sys, p1: InitPage, s1: Sys) -> bool {
        &&& s1.wf()
        &&& s0.settings.palette < 4 ==> p1 == p0 && s1.leds_now(&s0, (s0.leds@, s0.driver.leds@))
        &&& s0.settings.palette >= 4 ==> {
            let t: u8 = if p0.palette_rainbow_tick == 255 { 255 } else { (p0.palette_rainbow_tick + 1) as u8 };
            &&& t < 6 ==> p1 == InitPage { palette_rainbow_tick: t, ..p0 } && s1.leds_now(&s0, (s0.leds@, s0.driver.leds@))
            &&& t >= 6 ==> {
                let hue = p0.palette_rainbow_hue.wrapping_add(1);
                &&& p1 == InitPage { palette_rainbow_tick: 0, palette_rainbow_hue: hue, ..p0 }
                &&& s1.leds_now(&s0, spec_set(s0.leds@, s0.driver.leds@, s0.rotation.spec_to_raw(PALETTE_RAINBOW_BUTTON), spec_wheel(hue)))
            }
        }
    }

    pub fn on_tick(&mut self, sys: &mut Sys)
        requires
            old(sys).wf(),
        ensures
            final(sys).wf(),
            final(sys).settings == old(sys).settings,
            final(self).text == old(self).text,
            final(self).current_mode == old(self).current_mode,
            final(self).selected_mode == old(self).selected_mode,
            final(self).requested_app_switch == old(self).requested_app_switch,
            old(sys).settings.palette < 4 ==> *final(self) == *old(self) && final(sys).leds@ == old(sys).leds@,
            old(sys).settings.palette >= 4 ==> {
                let t: u8 = if old(self).palette_rainbow_tick == 255 { 255 } else { (old(self).palette_rainbow_tick + 1) as u8 };
                &&& t < 6 ==> final(self).palette_rainbow_tick == t && final(self).palette_rainbow_hue == old(self).palette_rainbow_hue
                    && final(sys).leds@ == old(sys).leds@ && final(sys).driver.leds@ == old(sys).driver.leds@
                &&& t >= 6 ==> {
                    let hue = old(self).palette_rainbow_hue.wrapping_add(1);
                    &&& final(self).palette_rainbow_tick == 0
                    &&& final(self).palette_rainbow_hue == hue
                    &&& final(sys).leds_now(
                        old(sys),
                        spec_set(old(sys).leds@, old(sys).driver.leds@, old(sys).rotation.spec_to_raw(PALETTE_RAINBOW_BUTTON), spec_wheel(hue)),
                    )
                }
            },
            Self::ticked(*old(self), *old(sys), *final(self), *final(sys)),
    {
        if sys.settings.palette < 4 {
            return;
        }
        self.palette_rainbow_tick = self.palette_rainbow_tick.saturating_add(1);
        if self.palette_rainbow_tick < 6 {
            return;
        }
        self.palette_rainbow_tick = 0;
        self.palette_rainbow_hue = self.palette_rainbow_hue.wrapping_add(1);
        sys.led_set(PALETTE_RAINBOW_BUTTON, wheel(self.palette_rainbow_hue));
    }
}

} // verus!
