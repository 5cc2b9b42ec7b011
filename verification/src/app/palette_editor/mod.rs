pub mod color;
pub mod hue_picker;
pub mod sl_picker;
pub mod overview;
use vstd::prelude::*;
use crate::app::AppId;
use crate::events::SurfaceEvent;
use crate::palette::Palettes;
use crate::settings::{custom_offset, Settings, CUSTOM_PALETTE_BYTES};
use crate::system::{writes_to_raw, Sys};
use crate::led::{spec_sets, LedView};
use crate::driver::LedCommand;

verus! {

pub const BACK_BUTTON: u8 = 93;
pub const NEXT_BUTTON: u8 = 94;
pub const FADE_MAX: u8 = 64;
pub const FADE_STEP: u8 = 4;
pub const FADE_TICKS: u8 = 10;

/// The screen the palette editor shows.
#[derive(Copy, Clone, PartialEq, Eq, Structural, Debug)]
pub enum Screen {
    Overview,
    HuePicker,
    SlPicker,
}

/// The editor restarted: the overview's first half page, fully faded
/// out, with no switch asked for.
pub open spec fn editor_restarted(e: PaletteEditorApp) -> PaletteEditorApp {
    PaletteEditorApp {
        screen: Screen::Overview,
        half_page: 0,
        anim_progress: 0,
        anim_tick: 0,
        anim_fading_out: false,
        anim_next_screen: Screen::Overview,
        requested_app_switch: None,
        ..e
    }
}

/// Entering the editor, from `s0` to `s1`: an all-zero or all-erased custom
/// palette in use is first filled from the Novation palette; nothing else
/// changes.
pub open spec fn editor_entered(s0: Sys, s1: Sys) -> bool {
    let slot = s0.settings.palette - 4;
    &&& s1.wf()
    &&& s1.same_outside_settings(&s0)
    &&& s1.settings.custom_palette@ == (if 4 <= s0.settings.palette <= 6 && (slot_all(&s0.settings, slot, 0) || slot_all(&s0.settings, slot, 0xff)) {
        with_template(s0.settings.custom_palette@, &s0.palettes, slot)
    } else {
        s0.settings.custom_palette@
    })
    &&& s1.settings.palette == s0.settings.palette
    &&& s1.settings.velocity_enabled == s0.settings.velocity_enabled
    &&& s1.settings.velocity_curve == s0.settings.velocity_curve
    &&& s1.settings.aftertouch_mode == s0.settings.aftertouch_mode
    &&& s1.settings.aftertouch_curve == s0.settings.aftertouch_curve
    &&& s1.settings.brightness == s0.settings.brightness
}

/// A press in the editor, from `e0`/`s0` to `e1`/`s1`.
/// The editor starting to fade out toward `next`.
pub open spec fn fading_to(e: PaletteEditorApp, next: Screen) -> PaletteEditorApp {
    PaletteEditorApp { anim_next_screen: next, anim_fading_out: true, anim_tick: 0, ..e }
}

pub open spec fn editor_pressed(e0: PaletteEditorApp, s0: Sys, e1: PaletteEditorApp, s1: Sys, event: SurfaceEvent) -> bool {
    &&& s1.same_outside_settings(&s0)
    &&& e0.screen != Screen::SlPicker ==> s1.settings == s0.settings
    &&& s1.wf()
    &&& e1.wf()
    &&& s1.leds@ == s0.leds@
    &&& s1.driver.leds@ == s0.driver.leds@
    &&& e1.screen == e0.screen
    &&& !event.pressed || e0.anim_fading_out || e0.anim_progress < FADE_MAX ==> {
            &&& e1 == e0
            &&& s1.settings == s0.settings
        }
    &&& event.pressed && !e0.anim_fading_out && e0.anim_progress >= FADE_MAX ==> match e0.screen {
            Screen::Overview => match overview::spec_handle_press(event.index, e0.half_page) {
                overview::Action::NoAction => e1 == e0,
                overview::Action::PreviousPage => e1 == (PaletteEditorApp {
                    half_page: (e0.half_page - 1) as u8,
                    ..fading_to(e0, Screen::Overview)
                }),
                overview::Action::NextPage => e1 == (PaletteEditorApp {
                    half_page: (e0.half_page + 1) as u8,
                    ..fading_to(e0, Screen::Overview)
                }),
                overview::Action::Select(i) => e1 == (PaletteEditorApp { selected_index: i, ..fading_to(e0, Screen::HuePicker) }),
            },
            Screen::HuePicker => match hue_picker::spec_handle_press(event.index) {
                hue_picker::Action::NoAction => e1 == e0,
                hue_picker::Action::Back => e1 == fading_to(e0, Screen::Overview),
                hue_picker::Action::Select(h) => e1 == (PaletteEditorApp { hue: h, ..fading_to(e0, Screen::SlPicker) }),
            },
            Screen::SlPicker => match sl_picker::spec_handle_press(event.index) {
                sl_picker::Action::NoAction => e1 == e0 && s1.settings == s0.settings,
                sl_picker::Action::Back => e1 == fading_to(e0, Screen::HuePicker) && s1.settings == s0.settings,
                sl_picker::Action::Select { saturation, lightness } => {
                    let color = color::spec_hsv_to_rgb(e0.hue, saturation, lightness);
                    let slot = sl_picker::edited_slot(s0.settings.palette);
                    let index = e0.selected_index as int;
                    &&& s1.settings.custom_palette@ == s0.settings.custom_palette@.update(
                        custom_offset(slot, 0, index),
                        (((color >> 16u32) & 0xff) as u8) / 4,
                    ).update(custom_offset(slot, 1, index), (((color >> 8u32) & 0xff) as u8) / 4).update(
                        custom_offset(slot, 2, index),
                        ((color & 0xff) as u8) / 4,
                    )
                    &&& e1 == fading_to(e0, Screen::Overview)
                },
            },
        }
}

/// One millisecond of the editor's fades, from `e0`/`s0` to `e1`/`s1`.
pub open spec fn editor_ticked(e0: PaletteEditorApp, s0: Sys, e1: PaletteEditorApp, s1: Sys) -> bool {
    &&& s1.same_but_leds(&s0)
    &&& s1.wf()
    &&& e1.wf()
    &&& s1.settings == s0.settings
    &&& s1.driver.sent_messages() == s0.driver.sent_messages()
    &&& ({
            let t: u8 = if e0.anim_tick == 255 { 255 } else { (e0.anim_tick + 1) as u8 };
            if t < FADE_TICKS {
                &&& e1.anim_tick == t
                &&& e1.anim_progress == e0.anim_progress
                &&& e1.screen == e0.screen
                &&& s1.leds@ == s0.leds@
                &&& s1.driver.leds@ == s0.driver.leds@
            } else {
                &&& e1.anim_tick == 0
                &&& e0.anim_fading_out && e0.anim_progress > FADE_STEP ==> {
                    &&& e1.anim_progress == e0.anim_progress - FADE_STEP
                    &&& e1.anim_fading_out
                    &&& e1.screen == e0.screen
                    &&& (s1.leds@, s1.driver.leds@) == screen_drawn(
                            &s0,
                        s0.leds@,
                        s0.driver.leds@,
                        e0.screen,
                        e0.half_page,
                        e0.hue,
                        e1.anim_progress,
                    )
                }
                &&& e0.anim_fading_out && e0.anim_progress <= FADE_STEP ==> {
                    &&& e1.anim_progress == 0
                    &&& !e1.anim_fading_out
                    &&& e1.screen == e0.anim_next_screen
                    &&& (s1.leds@, s1.driver.leds@) == screen_drawn(
                            &s0,
                        LedView {
                            base: crate::led::uniform(crate::led::no_color()),
                            flash: crate::led::uniform(crate::led::no_color()),
                            pulse: crate::led::uniform(crate::led::no_color()),
                            ..s0.leds@
                        },
                        Seq::new(crate::driver::LED_ADDRESS_COUNT as nat, |i: int| LedCommand::Color(0)),
                        e0.anim_next_screen,
                        e0.half_page,
                        e0.hue,
                        0,
                    )
                }
                &&& !e0.anim_fading_out && e0.anim_progress < FADE_MAX ==> {
                    let p = e0.anim_progress + FADE_STEP;
                    &&& e1.anim_progress == (if p < FADE_MAX { p } else { FADE_MAX as int })
                    &&& e1.screen == e0.screen
                    &&& (s1.leds@, s1.driver.leds@) == screen_drawn(
                            &s0,
                        s0.leds@,
                        s0.driver.leds@,
                        e0.screen,
                        e0.half_page,
                        e0.hue,
                        e1.anim_progress,
                    )
                }
                &&& !e0.anim_fading_out && e0.anim_progress >= FADE_MAX ==> {
                    &&& e1.anim_progress == e0.anim_progress
                    &&& e1.screen == e0.screen
                    &&& s1.leds@ == s0.leds@
                    &&& s1.driver.leds@ == s0.driver.leds@
                }
            }
        })
}

/// One channel of a Novation palette entry.
pub open spec fn novation_channel(palettes: &Palettes, index: int, channel: int) -> u8 {
    let c = palettes.novation@[index];
    if channel == 0 { c.0 } else if channel == 1 { c.1 } else { c.2 }
}

/// Every value of a custom palette slot equals `v`.
pub open spec fn slot_all(settings: &Settings, slot: int, v: u8) -> bool {
    forall|k: int| 0 <= k < 384 ==> #[trigger] settings.custom_palette@[slot * 384 + k] == v
}

/// The custom palette store with one slot filled from the Novation palette.
pub open spec fn with_template(custom: Seq<u8>, palettes: &Palettes, slot: int) -> Seq<u8> {
    Seq::new(
        custom.len(),
        |i: int|
            if slot * 384 <= i < slot * 384 + 384 {
                novation_channel(palettes, (i - slot * 384) % 128, (i - slot * 384) / 128)
            } else {
                custom[i]
            },
    )
}

fn slot_is_uniform(settings: &Settings, slot: usize, v: u8) -> (r: bool)
    requires
        settings.wf(),
        slot < 3,
    ensures
        r == slot_all(settings, slot as int, v),
{
    let mut k: usize = 0;
    while k < 384
        invariant
            settings.wf(),
            slot < 3,
            k <= 384,
            forall|j: int| 0 <= j < k ==> #[trigger] settings.custom_palette@[slot * 384 + j] == v,
        decreases 384 - k,
    {
        if settings.custom_palette[slot * 384 + k] != v {
            return false;
        }
        k = k + 1;
    }
    true
}

/// A custom palette (4..=6) that is all zero or all erased is first filled
/// with the Novation palette, so that editing starts from it.
pub fn ensure_custom_palette_has_template(settings: &mut Settings, palettes: &Palettes, palette: u8)
    requires
        old(settings).wf(),
        palettes.wf(),
    ensures
        final(settings).wf(),
        ({
            let slot = palette - 4;
            if 4 <= palette <= 6 && (slot_all(old(settings), slot, 0) || slot_all(old(settings), slot, 0xff)) {
                final(settings).custom_palette@ == with_template(old(settings).custom_palette@, palettes, slot)
            } else {
                final(settings).custom_palette@ == old(settings).custom_palette@
            }
        }),
        final(settings).palette == old(settings).palette,
        final(settings).velocity_enabled == old(settings).velocity_enabled,
        final(settings).velocity_curve == old(settings).velocity_curve,
        final(settings).aftertouch_mode == old(settings).aftertouch_mode,
        final(settings).aftertouch_curve == old(settings).aftertouch_curve,
        final(settings).brightness == old(settings).brightness,
{
    if !(4 <= palette && palette <= 6) {
        return;
    }
    let slot = (palette - 4) as usize;
    let is_zeroed = slot_is_uniform(settings, slot, 0);
    let is_erased = slot_is_uniform(settings, slot, 0xff);
    if !is_zeroed && !is_erased {
        return;
    }
    let ghost target = with_template(old(settings).custom_palette@, palettes, slot as int);
    let mut index: usize = 0;
    while index < 128
        invariant
            settings.wf(),
            palettes.wf(),
            slot < 3,
            index <= 128,
            target == with_template(old(settings).custom_palette@, palettes, slot as int),
            old(settings).custom_palette@.len() == CUSTOM_PALETTE_BYTES,
            settings.palette == old(settings).palette,
            settings.velocity_enabled == old(settings).velocity_enabled,
            settings.velocity_curve == old(settings).velocity_curve,
            settings.aftertouch_mode == old(settings).aftertouch_mode,
            settings.aftertouch_curve == old(settings).aftertouch_curve,
            settings.brightness == old(settings).brightness,
            forall|i: int| 0 <= i < CUSTOM_PALETTE_BYTES ==> #[trigger] settings.custom_palette@[i] == (if slot * 384 <= i < slot * 384 + 384 && (i - slot * 384) % 128 < index {
                target[i]
            } else {
                old(settings).custom_palette@[i]
            }),
        decreases 128 - index,
    {
        let (r, g, b) = palettes.novation.rgb(index as u8);
        assert(palettes.novation.spec_rgb(index as u8) == palettes.novation@[index as int]);
        settings.set_custom_value(slot, 0, index, r);
        settings.set_custom_value(slot, 1, index, g);
        settings.set_custom_value(slot, 2, index, b);
        proof {
            let base = slot * 384;
            assert forall|i: int| 0 <= i < CUSTOM_PALETTE_BYTES implies #[trigger] settings.custom_palette@[i] == (if base <= i < base + 384 && (i - base) % 128 < index + 1 {
                target[i]
            } else {
                old(settings).custom_palette@[i]
            }) by {
                if base <= i < base + 384 {
                    let k = i - base;
                    let ch = k / 128;
                    assert(i == custom_offset(slot as int, ch, k % 128));
                    if k % 128 == index {
                        assert(target[i] == novation_channel(palettes, index as int, ch));
                    }
                }
            }
        }
        index = index + 1;
    }
    assert(settings.custom_palette@ =~= target);
}

/// The LED writes that draw a screen at a fade factor.
pub open spec fn screen_frame(settings: &Settings, screen: Screen, half_page: u8, hue: u8, factor: u8) -> Seq<(u8, u32)> {
    match screen {
        Screen::Overview => overview::overview_frame(settings, half_page, factor),
        Screen::HuePicker => hue_picker::hue_picker_frame(factor),
        Screen::SlPicker => sl_picker::sl_picker_frame(hue, factor),
    }
}

/// The engine and output after a screen is drawn.
pub open spec fn screen_drawn(sys: &Sys, v: LedView, out: Seq<LedCommand>, screen: Screen, half_page: u8, hue: u8, factor: u8) -> (LedView, Seq<LedCommand>) {
    spec_sets(v, out, writes_to_raw(sys.rotation, screen_frame(&sys.settings, screen, half_page, hue, factor)))
}

/// The palette editor: an overview of the custom palette in two half
/// pages, then a hue picker and a saturation/lightness picker for the
/// selected entry, with a fade between screens.
pub struct PaletteEditorApp {
    pub screen: Screen,
    pub half_page: u8,
    pub selected_index: u8,
    pub hue: u8,
    pub anim_progress: u8,
    pub anim_tick: u8,
    pub anim_fading_out: bool,
    pub anim_next_screen: Screen,
    pub requested_app_switch: Option<AppId>,
}

impl PaletteEditorApp {
    pub open spec fn wf(&self) -> bool {
        &&& self.half_page <= 1
        &&& self.selected_index < 128
    }

    pub fn new() -> (r: Self)
        ensures
            r.wf(),
            r.screen == Screen::Overview,
            r.half_page == 0,
            r.anim_progress == 0,
            !r.anim_fading_out,
            r.requested_app_switch is None,
    {
        PaletteEditorApp {
            screen: Screen::Overview,
            half_page: 0,
            selected_index: 0,
            hue: 0,
            anim_progress: 0,
            anim_tick: 0,
            anim_fading_out: false,
            anim_next_screen: Screen::Overview,
            requested_app_switch: None,
        }
    }

    /// Draws the current screen at the current fade.
    fn dispatch_render(&self, sys: &mut Sys)
        requires
            self.wf(),
            old(sys).wf(),
        ensures
            final(sys).leds_now(
                old(sys),
                screen_drawn(old(sys), old(sys).leds@, old(sys).driver.leds@, self.screen, self.half_page, self.hue, self.anim_progress),
            ),
    {
        match self.screen {
            Screen::Overview => overview::render(sys, self.half_page, self.anim_progress),
            Screen::HuePicker => hue_picker::render(sys, self.anim_progress),
            Screen::SlPicker => sl_picker::render(sys, self.hue, self.anim_progress),
        }
    }

    fn start_transition(&mut self, new_screen: Screen)
        ensures
            final(self).anim_next_screen == new_screen,
            final(self).anim_fading_out,
            final(self).anim_tick == 0,
            final(self).screen == old(self).screen,
            final(self).half_page == old(self).half_page,
            final(self).selected_index == old(self).selected_index,
            final(self).hue == old(self).hue,
            final(self).anim_progress == old(self).anim_progress,
            final(self).requested_app_switch == old(self).requested_app_switch,
    {
        self.anim_next_screen = new_screen;
        self.anim_fading_out = true;
        self.anim_tick = 0;
    }

    /// Starts editing: fills an empty custom palette from the Novation one
    /// and shows the first half page of the overview.
    pub fn on_enter(&mut self, sys: &mut Sys)
        requires
            old(sys).wf(),
            old(self).wf(),
        ensures
            final(sys).wf(),
            final(self).wf(),
            final(self).screen == Screen::Overview,
            final(self).half_page == 0,
            final(self).anim_progress == 0,
            final(self).anim_tick == 0,
            !final(self).anim_fading_out,
            final(self).anim_next_screen == Screen::Overview,
            final(self).requested_app_switch is None,
            final(self).selected_index == old(self).selected_index,
            final(self).hue == old(self).hue,
            final(sys).leds@ == old(sys).leds@,
            final(sys).driver.leds@ == old(sys).driver.leds@,
            final(sys).driver.sent_messages() == old(sys).driver.sent_messages(),
            final(sys).save_requested == old(sys).save_requested,
            *final(self) == editor_restarted(*old(self)),
            editor_entered(*old(sys), *final(sys)),
    {
        let palette = sys.settings.palette;
        ensure_custom_palette_has_template(&mut sys.settings, &sys.palettes, palette);
        self.screen = Screen::Overview;
        self.half_page = 0;
        self.anim_progress = 0;
        self.anim_tick = 0;
        self.anim_fading_out = false;
        self.anim_next_screen = Screen::Overview;
        self.requested_app_switch = None;
    }

    /// A press counts only on a fully shown screen: the overview turns pages
    /// or selects an entry, the hue picker picks a hue or goes back, the
    /// saturation/lightness picker stores the color or goes back.
    pub fn on_surface(&mut self, sys: &mut Sys, event: SurfaceEvent)
        requires
            old(sys).wf(),
            old(self).wf(),
        ensures
            final(sys).wf(),
            final(self).wf(),
            final(sys).leds@ == old(sys).leds@,
            final(sys).driver.leds@ == old(sys).driver.leds@,
            final(self).screen == old(self).screen,
            !event.pressed || old(self).anim_fading_out || old(self).anim_progress < FADE_MAX ==> {
                &&& *final(self) == *old(self)
                &&& final(sys).settings == old(sys).settings
            },
            event.pressed && !old(self).anim_fading_out && old(self).anim_progress >= FADE_MAX ==> match old(self).screen {
                Screen::Overview => match overview::spec_handle_press(event.index, old(self).half_page) {
                    overview::Action::NoAction => *final(self) == *old(self),
                    overview::Action::PreviousPage => final(self).half_page == old(self).half_page - 1
                        && final(self).anim_fading_out && final(self).anim_next_screen == Screen::Overview,
                    overview::Action::NextPage => final(self).half_page == old(self).half_page + 1
                        && final(self).anim_fading_out && final(self).anim_next_screen == Screen::Overview,
                    overview::Action::Select(i) => final(self).selected_index == i && final(self).anim_fading_out
                        && final(self).anim_next_screen == Screen::HuePicker,
                },
                Screen::HuePicker => match hue_picker::spec_handle_press(event.index) {
                    hue_picker::Action::NoAction => *final(self) == *old(self),
                    hue_picker::Action::Back => final(self).anim_fading_out && final(self).anim_next_screen == Screen::Overview,
                    hue_picker::Action::Select(h) => final(self).hue == h && final(self).anim_fading_out
                        && final(self).anim_next_screen == Screen::SlPicker,
                },
                Screen::SlPicker => match sl_picker::spec_handle_press(event.index) {
                    sl_picker::Action::NoAction => *final(self) == *old(self) && final(sys).settings == old(sys).settings,
                    sl_picker::Action::Back => final(self).anim_fading_out && final(self).anim_next_screen == Screen::HuePicker
                        && final(sys).settings == old(sys).settings,
                    sl_picker::Action::Select { saturation, lightness } => {
                        let color = color::spec_hsv_to_rgb(old(self).hue, saturation, lightness);
                        let slot = sl_picker::edited_slot(old(sys).settings.palette);
                        let index = old(self).selected_index as int;
                        &&& final(sys).settings.custom_palette@ == old(sys).settings.custom_palette@.update(
                            custom_offset(slot, 0, index),
                            (((color >> 16u32) & 0xff) as u8) / 4,
                        ).update(custom_offset(slot, 1, index), (((color >> 8u32) & 0xff) as u8) / 4).update(
                            custom_offset(slot, 2, index),
                            ((color & 0xff) as u8) / 4,
                        )
                        &&& final(self).anim_fading_out
                        &&& final(self).anim_next_screen == Screen::Overview
                    },
                },
            },
            final(sys).same_outside_settings(old(sys)),
            old(self).screen != Screen::SlPicker ==> final(sys).settings == old(sys).settings,
            editor_pressed(*old(self), *old(sys), *final(self), *final(sys), event),
    {
        if !event.pressed || self.anim_fading_out || self.anim_progress < FADE_MAX {
            return;
        }
        match self.screen {
            Screen::Overview => match overview::handle_press(event.index, self.half_page) {
                overview::Action::NoAction => {},
                overview::Action::PreviousPage => {
                    self.half_page = self.half_page - 1;
                    self.start_transition(Screen::Overview);
                },
                overview::Action::NextPage => {
                    self.half_page = self.half_page + 1;
                    self.start_transition(Screen::Overview);
                },
                overview::Action::Select(index) => {
                    self.selected_index = index;
                    self.start_transition(Screen::HuePicker);
                },
            },
            Screen::HuePicker => match hue_picker::handle_press(event.index) {
                hue_picker::Action::NoAction => {},
                hue_picker::Action::Back => self.start_transition(Screen::Overview),
                hue_picker::Action::Select(hue) => {
                    self.hue = hue;
                    self.start_transition(Screen::SlPicker);
                },
            },
            Screen::SlPicker => match sl_picker::handle_press(event.index) {
                sl_picker::Action::NoAction => {},
                sl_picker::Action::Back => self.start_transition(Screen::HuePicker),
                sl_picker::Action::Select { saturation, lightness } => {
                    sl_picker::store(&mut sys.settings, self.selected_index, self.hue, saturation, lightness);
                    self.start_transition(Screen::Overview);
                },
            },
        }
    }

    /// Every tenth tick steps the fade: out by 4 until the screen changes
    /// (on a blank surface), then in by 4 up to full; each step redraws.
    pub fn on_tick(&mut self, sys: &mut Sys)
        requires
            old(sys).wf(),
            old(self).wf(),
        ensures
            final(sys).wf(),
            final(self).wf(),
            final(sys).settings == old(sys).settings,
            final(sys).driver.sent_messages() == old(sys).driver.sent_messages(),
            ({
                let t: u8 = if old(self).anim_tick == 255 { 255 } else { (old(self).anim_tick + 1) as u8 };
                if t < FADE_TICKS {
                    &&& final(self).anim_tick == t
                    &&& final(self).anim_progress == old(self).anim_progress
                    &&& final(self).screen == old(self).screen
                    &&& final(sys).leds@ == old(sys).leds@
                    &&& final(sys).driver.leds@ == old(sys).driver.leds@
                } else {
                    &&& final(self).anim_tick == 0
                    &&& old(self).anim_fading_out && old(self).anim_progress > FADE_STEP ==> {
                        &&& final(self).anim_progress == old(self).anim_progress - FADE_STEP
                        &&& final(self).anim_fading_out
                        &&& final(self).screen == old(self).screen
                        &&& (final(sys).leds@, final(sys).driver.leds@) == screen_drawn(
                            old(sys),
                            old(sys).leds@,
                            old(sys).driver.leds@,
                            old(self).screen,
                            old(self).half_page,
                            old(self).hue,
                            final(self).anim_progress,
                        )
                    }
                    &&& old(self).anim_fading_out && old(self).anim_progress <= FADE_STEP ==> {
                        &&& final(self).anim_progress == 0
                        &&& !final(self).anim_fading_out
                        &&& final(self).screen == old(self).anim_next_screen
                        &&& (final(sys).leds@, final(sys).driver.leds@) == screen_drawn(
                            old(sys),
                            LedView {
                                base: crate::led::uniform(crate::led::no_color()),
                                flash: crate::led::uniform(crate::led::no_color()),
                                pulse: crate::led::uniform(crate::led::no_color()),
                                ..old(sys).leds@
                            },
                            Seq::new(crate::driver::LED_ADDRESS_COUNT as nat, |i: int| LedCommand::Color(0)),
                            old(self).anim_next_screen,
                            old(self).half_page,
                            old(self).hue,
                            0,
                        )
                    }
                    &&& !old(self).anim_fading_out && old(self).anim_progress < FADE_MAX ==> {
                        let p = old(self).anim_progress + FADE_STEP;
                        &&& final(self).anim_progress == (if p < FADE_MAX { p } else { FADE_MAX as int })
                        &&& final(self).screen == old(self).screen
                        &&& (final(sys).leds@, final(sys).driver.leds@) == screen_drawn(
                            old(sys),
                            old(sys).leds@,
                            old(sys).driver.leds@,
                            old(self).screen,
                            old(self).half_page,
                            old(self).hue,
                            final(self).anim_progress,
                        )
                    }
                    &&& !old(self).anim_fading_out && old(self).anim_progress >= FADE_MAX ==> {
                        &&& final(self).anim_progress == old(self).anim_progress
                        &&& final(self).screen == old(self).screen
                        &&& final(sys).leds@ == old(sys).leds@
                        &&& final(sys).driver.leds@ == old(sys).driver.leds@
                    }
                }
            }),
            final(sys).same_but_leds(old(sys)),
            editor_ticked(*old(self), *old(sys), *final(self), *final(sys)),
    {
        self.anim_tick = self.anim_tick.saturating_add(1);
        if self.anim_tick < FADE_TICKS {
            return;
        }
        self.anim_tick = 0;
        if self.anim_fading_out {
            if self.anim_progress > FADE_STEP {
                self.anim_progress = self.anim_progress - FADE_STEP;
            } else {
                self.anim_progress = 0;
                self.anim_fading_out = false;
                self.screen = self.anim_next_screen;
                sys.led_clear();
            }
            self.dispatch_render(sys);
        } else if self.anim_progress < FADE_MAX {
            let p = self.anim_progress.saturating_add(FADE_STEP);
            self.anim_progress = if p < FADE_MAX { p } else { FADE_MAX };
            self.dispatch_render(sys);
        }
    }

    pub fn take_requested_app_switch(&mut self) -> (r: Option<AppId>)
        ensures
            r == old(self).requested_app_switch,
            final(self).requested_app_switch is None,
            final(self).wf() == old(self).wf(),
            *final(self) == (PaletteEditorApp { requested_app_switch: None, ..*old(self) }),
    {
        let r = self.requested_app_switch;
        self.requested_app_switch = None;
        r
    }
}

} // verus!
