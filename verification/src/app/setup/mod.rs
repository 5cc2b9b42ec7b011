pub mod text;
pub mod page_velocity;
pub mod page_aftertouch;
pub mod page_leds;
pub mod page_init;
use vstd::prelude::*;
use crate::app::AppId;
use crate::events::SurfaceEvent;
use crate::led::{spec_sets, LedView};
use crate::driver::LedCommand;
use crate::system::Sys;
use page_init::InitPage;
use page_leds::LedsPage;
use page_velocity::VelocityPage;
use page_aftertouch::AftertouchPage;

verus! {

/// The pages of the setup menu.
#[derive(Copy, Clone, PartialEq, Eq, Structural, Debug)]
pub enum PageId {
    Init,
    Leds,
    Velocity,
    Aftertouch,
}

/// The page a tab button (raw index) opens.
pub open spec fn spec_page_for_button(index: u8) -> Option<PageId> {
    if index == 89 {
        Some(PageId::Init)
    } else if index == 79 {
        Some(PageId::Leds)
    } else if index == 69 {
        Some(PageId::Velocity)
    } else if index == 59 {
        Some(PageId::Aftertouch)
    } else {
        None
    }
}

pub fn page_for_button(index: u8) -> (r: Option<PageId>)
    ensures
        r == spec_page_for_button(index),
{
    if index == 89 {
        Some(PageId::Init)
    } else if index == 79 {
        Some(PageId::Leds)
    } else if index == 69 {
        Some(PageId::Velocity)
    } else if index == 59 {
        Some(PageId::Aftertouch)
    } else {
        None
    }
}

/// The page tabs, on raw indices: four dim tabs and, between them, a red
/// marker while the LEDs run without the fast protocol.
pub open spec fn tabs_frame(highspeed: bool) -> Seq<(u8, u32)> {
    seq![(89u8, 0x101014u32), (90u8, if highspeed { 0u32 } else { 0xff0000u32 }), (79u8, 0x101014u32), (69u8, 0x101014u32), (59u8, 0x101014u32)]
}

/// The engine and output after the current page is drawn on entry.
pub open spec fn page_drawn(sys: &Sys, app: SetupApp, v: LedView, out: Seq<LedCommand>) -> (LedView, Seq<LedCommand>) {
    match app.page {
        PageId::Init => page_init::init_page_drawn(sys, app.init_page, v, out),
        PageId::Leds => page_leds::leds_page_drawn(sys, app.leds_page.text, v, out),
        PageId::Velocity => page_velocity::velocity_page_drawn(sys, app.velocity_page.text, v, out),
        PageId::Aftertouch => page_aftertouch::aftertouch_page_drawn(sys, app.aftertouch_page.text, v, out),
    }
}

/// The surface once setup is entered: the tabs, then the current page.
pub open spec fn setup_drawn(s0: Sys, app: SetupApp) -> (LedView, Seq<LedCommand>) {
    let t = spec_sets(s0.leds@, s0.driver.leds@, tabs_frame(s0.driver.highspeed_leds));
    page_drawn(&s0, app, t.0, t.1)
}

/// Setup told the mode it was entered from: performance and programmer are
/// remembered (dropping a selection), other apps change nothing.
pub open spec fn with_current_mode(a: SetupApp, app: AppId) -> SetupApp {
    if app == AppId::Performance || app == AppId::Programmer {
        SetupApp { init_page: InitPage { current_mode: app, selected_mode: None, ..a.init_page }, ..a }
    } else {
        a
    }
}

/// A (rotated) surface press on the current page, from `a0`/`s0` to
/// `a1`/`s1`.
pub open spec fn setup_pressed(a0: SetupApp, s0: Sys, a1: SetupApp, s1: Sys, event: SurfaceEvent) -> bool {
    &&& s1.wf()
    &&& a1.page == a0.page
    &&& s1.rotation == s0.rotation
    &&& a0.page == PageId::Velocity ==> match page_velocity::velocity_press(s0.settings.velocity_enabled, s0.settings.velocity_curve, event) {
        Some((enabled, curve)) => s1.settings.velocity_enabled == enabled && s1.settings.velocity_curve == curve,
        None => s1.settings == s0.settings,
    }
    &&& a0.page == PageId::Aftertouch ==> match page_aftertouch::aftertouch_press(s0.settings.aftertouch_mode, s0.settings.aftertouch_curve, event) {
        Some((mode, curve)) => s1.settings.aftertouch_mode == mode && s1.settings.aftertouch_curve == curve,
        None => s1.settings == s0.settings,
    }
    &&& a0.page == PageId::Leds && event.pressed && page_leds::BRIGHTNESS_START <= event.index <= page_leds::BRIGHTNESS_END ==> {
        s1.settings.brightness == event.index - page_leds::BRIGHTNESS_START
            && s1.driver.brightness == event.index - page_leds::BRIGHTNESS_START
    }
    &&& a0.page == PageId::Init && event.pressed && 15 <= event.index <= 18 ==> s1.settings.palette == event.index - 15
    &&& a0.page == PageId::Init && event.pressed && 26 <= event.index <= 28 ==> s1.settings.palette == event.index - 22
    &&& a0.page == PageId::Init && event.pressed && event.index == page_init::PERFORMANCE_BUTTON ==> a1.init_page.selected_mode == Some(AppId::Performance)
    &&& a0.page == PageId::Init && event.pressed && event.index == page_init::PROGRAMMER_BUTTON ==> a1.init_page.selected_mode == Some(AppId::Programmer)
    &&& a0.page == PageId::Init && event.pressed && event.index == page_init::PALETTE_RAINBOW_BUTTON && s0.settings.palette >= 4
        ==> a1.init_page.requested_app_switch == Some(AppId::PaletteEditor)
    &&& match a0.page {
        PageId::Init => a1 == SetupApp { init_page: a1.init_page, ..a0 } && InitPage::pressed(a0.init_page, s0, a1.init_page, s1, event),
        PageId::Leds => a1 == a0 && LedsPage::pressed(a0.leds_page, s0, a1.leds_page, s1, event),
        PageId::Velocity => a1 == a0 && VelocityPage::pressed(a0.velocity_page, s0, a1.velocity_page, s1, event),
        PageId::Aftertouch => a1 == a0 && AftertouchPage::pressed(a0.aftertouch_page, s0, a1.aftertouch_page, s1, event),
    }
}

/// A raw surface press, from `a0`/`s0` to `a1`/`s1`: a tab opens its page
/// on a redrawn surface, anything else goes to the LED page if shown.
pub open spec fn setup_raw_pressed(a0: SetupApp, s0: Sys, a1: SetupApp, s1: Sys, event: SurfaceEvent) -> bool {
    &&& s1.wf()
    &&& s1.settings == s0.settings
    &&& event.index % 10 == 9 && event.pressed ==> match spec_page_for_button(event.index) {
        Some(page) => a1.page == page,
        None => a1.page == a0.page && s1.leds@ == s0.leds@,
    }
    &&& !(event.index % 10 == 9 && event.pressed) ==> a1.page == a0.page
    &&& !(event.index % 10 == 9 && event.pressed) && a0.page != PageId::Leds ==> s1.leds@ == s0.leds@ && s1.rotation == s0.rotation
}

/// One millisecond in setup, from `a0`/`s0` to `a1`/`s1`: only the first
/// page animates.
pub open spec fn setup_ticked(a0: SetupApp, s0: Sys, a1: SetupApp, s1: Sys) -> bool {
    if a0.page == PageId::Init {
        a1 == SetupApp { init_page: a1.init_page, ..a0 } && InitPage::ticked(a0.init_page, s0, a1.init_page, s1)
    } else {
        a1 == a0 && s1 == s0
    }
}

/// The setup menu: a page per group of settings, chosen by the tabs on the
/// right edge.
pub struct SetupApp {
    pub page: PageId,
    pub init_page: InitPage,
    pub leds_page: LedsPage,
    pub velocity_page: VelocityPage,
    pub aftertouch_page: AftertouchPage,
}

impl SetupApp {
    pub fn new() -> (r: Self)
        ensures
            r.page == PageId::Init,
            r.init_page.current_mode == AppId::Performance,
            r.init_page.selected_mode is None,
            r.init_page.requested_app_switch is None,
    {
        SetupApp {
            page: PageId::Init,
            init_page: InitPage::new(),
            leds_page: LedsPage::new(),
            velocity_page: VelocityPage::new(),
            aftertouch_page: AftertouchPage::new(),
        }
    }

    fn render_page_tabs(sys: &mut Sys)
        requires
            old(sys).wf(),
        ensures
            final(sys).leds_now(old(sys), spec_sets(old(sys).leds@, old(sys).driver.leds@, tabs_frame(old(sys).driver.highspeed_leds))),
    {
        let highspeed = sys.driver.highspeed_leds_enabled();
        sys.led_set_raw(89, 0x101014);
        sys.led_set_raw(90, if highspeed { 0x000000 } else { 0xff0000 });
        sys.led_set_raw(79, 0x101014);
        sys.led_set_raw(69, 0x101014);
        sys.led_set_raw(59, 0x101014);
        proof {
            reveal_with_fuel(spec_sets, 6);
            let f = tabs_frame(highspeed);
            assert(f.drop_last().drop_last().drop_last().drop_last().drop_last() =~= Seq::<(u8, u32)>::empty());
            assert(f.drop_last().drop_last().drop_last().drop_last() =~= seq![f[0]]);
            assert(f.drop_last().drop_last().drop_last() =~= seq![f[0], f[1]]);
            assert(f.drop_last().drop_last() =~= seq![f[0], f[1], f[2]]);
            assert(f.drop_last() =~= seq![f[0], f[1], f[2], f[3]]);
        }
    }

    fn page_on_enter(&self, sys: &mut Sys)
        requires
            old(sys).wf(),
        ensures
            final(sys).leds_now(old(sys), page_drawn(old(sys), *self, old(sys).leds@, old(sys).driver.leds@)),
    {
        match self.page {
            PageId::Init => self.init_page.on_enter(sys),
            PageId::Leds => self.leds_page.on_enter(sys),
            PageId::Velocity => self.velocity_page.on_enter(sys),
            PageId::Aftertouch => self.aftertouch_page.on_enter(sys),
        }
    }

    fn redraw_current_page(&self, sys: &mut Sys)
        requires
            old(sys).wf(),
        ensures
            final(sys).wf(),
            final(sys).same_but_leds(old(sys)),
    {
        sys.led_clear();
        Self::render_page_tabs(sys);
        self.page_on_enter(sys);
    }

    /// Tells the first page which mode setup was entered from.
    pub fn set_current_mode(&mut self, app: AppId)
        ensures
            app == AppId::Performance || app == AppId::Programmer ==> final(self).init_page.current_mode == app
                && final(self).init_page.selected_mode is None,
            !(app == AppId::Performance || app == AppId::Programmer) ==> final(self).init_page.current_mode
                == old(self).init_page.current_mode && final(self).init_page.selected_mode == old(self).init_page.selected_mode,
            final(self).page == old(self).page,
            final(self).init_page.requested_app_switch == old(self).init_page.requested_app_switch,
            *final(self) == with_current_mode(*old(self), app),
    {
        self.init_page.set_current_mode(app);
    }

    /// Leaving setup: blanks the surface, asks for the settings to be
    /// saved, and returns the mode selected on the first page, if any.
    pub fn finish_setup(&mut self, sys: &mut Sys) -> (r: Option<AppId>)
        requires
            old(sys).wf(),
        ensures
            r == old(self).init_page.selected_mode,
            final(self).init_page.selected_mode is None,
            final(self).init_page.current_mode == old(self).init_page.current_mode,
            final(self).page == old(self).page,
            final(sys).wf(),
            final(sys).save_requested,
            final(sys).settings == old(sys).settings,
            final(sys).driver.sent_messages() == old(sys).driver.sent_messages(),
            final(sys).cleared_for_saving(old(sys)),
            *final(self) == (SetupApp { init_page: InitPage { selected_mode: None, ..old(self).init_page }, ..*old(self) }),
    {
        sys.led_clear();
        sys.save_requested = true;
        self.init_page.take_selected_mode()
    }

    /// Draws the tabs and the current page.
    pub fn on_enter(&mut self, sys: &mut Sys)
        requires
            old(sys).wf(),
        ensures
            final(sys).leds_now(old(sys), setup_drawn(*old(sys), *old(self))),
            *final(self) == *old(self),
    {
        Self::render_page_tabs(sys);
        self.page_on_enter(sys);
    }

    /// A (rotated) surface press goes to the current page.
    pub fn on_surface(&mut self, sys: &mut Sys, event: SurfaceEvent)
        requires
            old(sys).wf(),
        ensures
            final(sys).wf(),
            final(self).page == old(self).page,
            final(sys).rotation == old(sys).rotation,
            old(self).page == PageId::Velocity ==> match page_velocity::velocity_press(old(sys).settings.velocity_enabled, old(sys).settings.velocity_curve, event) {
                Some((enabled, curve)) => final(sys).settings.velocity_enabled == enabled && final(sys).settings.velocity_curve == curve,
                None => final(sys).settings == old(sys).settings,
            },
            old(self).page == PageId::Aftertouch ==> match page_aftertouch::aftertouch_press(old(sys).settings.aftertouch_mode, old(sys).settings.aftertouch_curve, event) {
                Some((mode, curve)) => final(sys).settings.aftertouch_mode == mode && final(sys).settings.aftertouch_curve == curve,
                None => final(sys).settings == old(sys).settings,
            },
            old(self).page == PageId::Leds && event.pressed && page_leds::BRIGHTNESS_START <= event.index <= page_leds::BRIGHTNESS_END ==> {
                final(sys).settings.brightness == event.index - page_leds::BRIGHTNESS_START
                    && final(sys).driver.brightness == event.index - page_leds::BRIGHTNESS_START
            },
            old(self).page == PageId::Init && event.pressed && 15 <= event.index <= 18 ==> final(sys).settings.palette == event.index - 15,
            old(self).page == PageId::Init && event.pressed && 26 <= event.index <= 28 ==> final(sys).settings.palette == event.index - 22,
            old(self).page == PageId::Init && event.pressed && event.index == page_init::PERFORMANCE_BUTTON ==> final(self).init_page.selected_mode == Some(AppId::Performance),
            old(self).page == PageId::Init && event.pressed && event.index == page_init::PROGRAMMER_BUTTON ==> final(self).init_page.selected_mode == Some(AppId::Programmer),
            old(self).page == PageId::Init && event.pressed && event.index == page_init::PALETTE_RAINBOW_BUTTON && old(sys).settings.palette >= 4 ==> final(self).init_page.requested_app_switch == Some(AppId::PaletteEditor),
            setup_pressed(*old(self), *old(sys), *final(self), *final(sys), event),
    {
        match self.page {
            PageId::Init => self.init_page.on_surface(sys, event),
            PageId::Leds => self.leds_page.on_surface(sys, event),
            PageId::Velocity => self.velocity_page.on_surface(sys, event),
            PageId::Aftertouch => self.aftertouch_page.on_surface(sys, event),
        }
    }

    /// A raw press: a tab (right column) opens its page on a redrawn
    /// surface; anything else goes to the current page.
    pub fn on_surface_raw(&mut self, sys: &mut Sys, event: SurfaceEvent)
        requires
            old(sys).wf(),
        ensures
            final(sys).wf(),
            final(sys).settings == old(sys).settings,
            event.index % 10 == 9 && event.pressed ==> match spec_page_for_button(event.index) {
                Some(page) => final(self).page == page,
                None => final(self).page == old(self).page && final(sys).leds@ == old(sys).leds@,
            },
            !(event.index % 10 == 9 && event.pressed) ==> final(self).page == old(self).page,
            !(event.index % 10 == 9 && event.pressed) && old(self).page != PageId::Leds ==> final(sys).leds@ == old(sys).leds@
                && final(sys).rotation == old(sys).rotation,
            setup_raw_pressed(*old(self), *old(sys), *final(self), *final(sys), event),
    {
        if event.index % 10 == 9 && event.pressed {
            match page_for_button(event.index) {
                Some(page) => {
                    self.page = page;
                    self.redraw_current_page(sys);
                },
                None => {},
            }
            return;
        }
        if self.page == PageId::Leds {
            self.leds_page.on_surface_raw(sys, event);
        }
    }

    /// Ticks the current page (only the first page animates).
    pub fn on_tick(&mut self, sys: &mut Sys)
        requires
            old(sys).wf(),
        ensures
            final(sys).wf(),
            final(sys).settings == old(sys).settings,
            final(self).page == old(self).page,
            old(self).page != PageId::Init ==> final(sys).leds@ == old(sys).leds@,
            setup_ticked(*old(self), *old(sys), *final(self), *final(sys)),
    {
        if self.page == PageId::Init {
            self.init_page.on_tick(sys);
        }
    }

    pub fn take_requested_app_switch(&mut self) -> (r: Option<AppId>)
        ensures
            r == old(self).init_page.requested_app_switch,
            final(self).init_page.requested_app_switch is None,
            final(self).page == old(self).page,
            final(self).init_page.selected_mode == old(self).init_page.selected_mode,
            final(self).init_page.current_mode == old(self).init_page.current_mode,
            *final(self) == (SetupApp { init_page: InitPage { requested_app_switch: None, ..old(self).init_page }, ..*old(self) }),
    {
        self.init_page.take_requested_app_switch()
    }
}

} // verus!
