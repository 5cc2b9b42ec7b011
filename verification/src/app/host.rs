use vstd::prelude::*;
use crate::app::AppId;
use crate::app::boot::BootApp;
use crate::app::palette_editor::PaletteEditorApp;
use crate::app::performance::PerformanceApp;
use crate::app::programmer::ProgrammerApp;
use crate::app::setup::SetupApp;
use crate::events::{AftertouchEvent, MidiEvent, MidiPort, SurfaceEvent};
use crate::system::Sys;
use crate::app::programmer::{aftertouch_message, programmer_led_update, programmer_velocity};
use crate::app::performance::performance_led_update;
use crate::led::{spec_palette_rgb, spec_set_raw6, spec_tick, spec_tempo_start, spec_tempo_midi_clock, spec_tempo_stop};
use crate::system::cleared;
use crate::app::boot::{boot_restarted, boot_ticked};
use crate::app::setup::{setup_drawn, setup_pressed, setup_raw_pressed, setup_ticked, with_current_mode};
use crate::app::setup::page_init::InitPage;
use crate::app::palette_editor::{editor_entered, editor_pressed, editor_restarted, editor_ticked};
use crate::app::performance::{performance_lit, performance_played, performance_pressure};
use crate::app::programmer::{aftertouch_sent, programmer_lit, programmer_played};

verus! {

/// Ticks the setup button must be held for setup to close on release.
pub const SETUP_HOLD_TICKS: u16 = 500;
/// Surface index of the setup button.
pub const SETUP_BUTTON_INDEX: u8 = 0;

/// What became of a system exclusive message.
#[derive(Copy, Clone, PartialEq, Eq, Structural, Debug)]
pub enum SysexAction {
    /// Messages from the DAW port are not handled.
    Ignored,
    /// The message selected an app, which is now running.
    Switched(AppId),
    /// The message is for the running app's command set.
    Execute(AppId),
}

/// Runs one app at a time and routes surface, MIDI, aftertouch and tick
/// events to it; the setup button opens and closes the setup menu.
pub struct AppHost {
    pub current: AppId,
    pub previous_app: AppId,
    pub boot: BootApp,
    pub setup: SetupApp,
    pub performance: PerformanceApp,
    pub programmer: ProgrammerApp,
    pub palette_editor: PaletteEditorApp,
    pub setup_button_ticks: u16,
    pub setup_button_active: bool,
}

/// The app a switch request leads to from `current`, or `None` when it
/// changes nothing.
pub open spec fn previous_after_switch(current: AppId, previous: AppId, app: AppId) -> AppId {
    if app != current && app == AppId::Setup && current != AppId::PaletteEditor { current } else { previous }
}

/// The switch the running app asks for, if any.
pub open spec fn request_of(h: AppHost) -> Option<AppId> {
    match h.current {
        AppId::Boot => h.boot.requested_switch,
        AppId::Setup => h.setup.init_page.requested_app_switch,
        AppId::PaletteEditor => h.palette_editor.requested_app_switch,
        _ => None,
    }
}

/// The host once the running app's request has been taken.
pub open spec fn without_request(h: AppHost) -> AppHost {
    match h.current {
        AppId::Boot => AppHost { boot: BootApp { requested_switch: None, ..h.boot }, ..h },
        AppId::Setup => AppHost {
            setup: SetupApp { init_page: InitPage { requested_app_switch: None, ..h.setup.init_page }, ..h.setup },
            ..h
        },
        AppId::PaletteEditor => AppHost { palette_editor: PaletteEditorApp { requested_app_switch: None, ..h.palette_editor }, ..h },
        _ => h,
    }
}

/// Starting the current app of `h0`, from `h0`/`s0` to `h1`/`s1`: the
/// animation restarts on a blank surface; setup draws its tabs and page;
/// performance mode changes nothing; programmer mode blanks the surface;
/// the palette editor restarts, filling an empty custom palette first.
pub open spec fn entered(h0: AppHost, s0: Sys, h1: AppHost, s1: Sys) -> bool {
    match h0.current {
        AppId::Boot => h1 == AppHost { boot: boot_restarted(h0.boot), ..h0 } && s1.leds_now(&s0, cleared(s0)),
        AppId::Setup => h1 == h0 && s1.leds_now(&s0, setup_drawn(s0, h0.setup)),
        AppId::Performance => h1 == h0 && s1 == s0,
        AppId::Programmer => h1 == h0 && s1.leds_now(&s0, cleared(s0)),
        AppId::PaletteEditor => h1 == AppHost { palette_editor: editor_restarted(h0.palette_editor), ..h0 } && editor_entered(s0, s1),
    }
}

/// The host as the new app starts: `app` is current, the app setup was
/// opened from is remembered, and setup is told about it.
pub open spec fn switching_to(h0: AppHost, app: AppId) -> AppHost {
    let p = previous_after_switch(h0.current, h0.previous_app, app);
    AppHost {
        current: app,
        previous_app: p,
        setup: if app == AppId::Setup { with_current_mode(h0.setup, p) } else { h0.setup },
        ..h0
    }
}

/// A switch to `app`, from `h0`/`s0` to `h1`/`s1`: nothing when `app` is
/// already running; else (the old app has nothing to do on leaving) the
/// surface is blanked and the new app starts on it.
pub open spec fn switched(h0: AppHost, s0: Sys, app: AppId, h1: AppHost, s1: Sys) -> bool {
    if app == h0.current {
        h1 == h0 && s1 == s0
    } else {
        exists|sm: Sys| #[trigger] sm.leds_now(&s0, cleared(s0)) && entered(switching_to(h0, app), sm, h1, s1)
    }
}

/// The running app's request taken up, from `h0`/`s0` to `h1`/`s1`: the
/// switch it asks for is made, else nothing changes.
pub open spec fn request_taken_up(h0: AppHost, s0: Sys, h1: AppHost, s1: Sys) -> bool {
    match request_of(h0) {
        Some(app) => switched(without_request(h0), s0, app, h1, s1),
        None => h1 == h0 && s1 == s0,
    }
}

/// A surface event other than the setup button handed to the running app,
/// from `h0`/`s0` to `hm`/`sm`: by its canonical index, and setup also gets
/// the raw event afterwards.
pub open spec fn surface_delivered(h0: AppHost, s0: Sys, event: SurfaceEvent, hm: AppHost, sm: Sys) -> bool {
    let canonical = SurfaceEvent { index: h0.spec_to_canonical_index(&s0, event.index), ..event };
    match h0.current {
        AppId::Boot => hm == h0 && sm == s0,
        AppId::Setup => hm == AppHost { setup: hm.setup, ..h0 } && exists|a: SetupApp, s: Sys|
            #[trigger] setup_pressed(h0.setup, s0, a, s, canonical) && setup_raw_pressed(a, s, hm.setup, sm, event),
        AppId::Performance => hm == h0 && performance_played(s0, sm, canonical),
        AppId::Programmer => hm == h0 && programmer_played(s0, sm, canonical),
        AppId::PaletteEditor => hm == AppHost { palette_editor: hm.palette_editor, ..h0 }
            && editor_pressed(h0.palette_editor, s0, hm.palette_editor, sm, canonical),
    }
}

/// A MIDI event that is no clock message, handed to the running app.
pub open spec fn midi_delivered(h0: AppHost, s0: Sys, event: MidiEvent, hm: AppHost, sm: Sys) -> bool {
    &&& hm == h0
    &&& match h0.current {
        AppId::Performance => performance_lit(s0, sm, event),
        AppId::Programmer => programmer_lit(s0, sm, event),
        _ => sm == s0,
    }
}

/// An aftertouch event handed to the running app by canonical index.
pub open spec fn aftertouch_delivered(h0: AppHost, s0: Sys, event: AftertouchEvent, hm: AppHost, sm: Sys) -> bool {
    let canonical = AftertouchEvent { index: h0.spec_to_canonical_index(&s0, event.index), ..event };
    &&& hm == h0
    &&& match h0.current {
        AppId::Performance => performance_pressure(s0, sm, canonical),
        AppId::Programmer => aftertouch_sent(s0, sm, canonical.index, canonical.value),
        _ => sm == s0,
    }
}

/// The setup button's hold time after a tick.
pub open spec fn hold_ticked(h: AppHost) -> u16 {
    if h.setup_button_active {
        if h.setup_button_ticks == u16::MAX { u16::MAX } else { (h.setup_button_ticks + 1) as u16 }
    } else {
        h.setup_button_ticks
    }
}

/// A millisecond tick up to the running app's request, from `h0`/`s0`
/// through `st` (the LED engine ticked) to `hm`/`sm`: the hold time counts,
/// the LEDs tick, then the animation, setup or the editor ticks.
pub open spec fn tick_delivered(h0: AppHost, s0: Sys, st: Sys, hm: AppHost, sm: Sys) -> bool {
    let h = AppHost { setup_button_ticks: hold_ticked(h0), ..h0 };
    &&& st.leds_now(&s0, spec_tick(s0.leds@, s0.driver.leds@))
    &&& match h0.current {
        AppId::Boot => hm == AppHost { boot: hm.boot, ..h } && boot_ticked(h0.boot, st, hm.boot, sm),
        AppId::Setup => hm == AppHost { setup: hm.setup, ..h } && setup_ticked(h0.setup, st, hm.setup, sm),
        AppId::PaletteEditor => hm == AppHost { palette_editor: hm.palette_editor, ..h }
            && editor_ticked(h0.palette_editor, st, hm.palette_editor, sm),
        _ => hm == h && sm == st,
    }
}

/// Closing setup, from `h0`/`s0` to `h1`/`s1`: the surface is blanked, the
/// settings are to be saved, and the host switches to the mode selected on
/// the first page (which is forgotten), else back to where setup was
/// opened from.
pub open spec fn setup_closed(h0: AppHost, s0: Sys, h1: AppHost, s1: Sys) -> bool {
    let target = match h0.setup.init_page.selected_mode {
        Some(m) => m,
        None => h0.previous_app,
    };
    let h = AppHost {
        setup: SetupApp { init_page: InitPage { selected_mode: None, ..h0.setup.init_page }, ..h0.setup },
        ..h0
    };
    exists|sx: Sys| #[trigger] sx.cleared_for_saving(&s0) && switched(h, sx, target, h1, s1)
}

/// The setup button, from `h0`/`s0` to `h1`/`s1`: ignored during the
/// animation; a press closes setup, leaves the palette editor for setup
/// (blanking and saving first), or else opens setup and starts timing the
/// hold; a release after a hold of `SETUP_HOLD_TICKS` closes setup.
pub open spec fn setup_button_handled(h0: AppHost, s0: Sys, event: SurfaceEvent, h1: AppHost, s1: Sys) -> bool {
    if h0.current == AppId::Boot {
        h1 == h0 && s1 == s0
    } else if event.pressed {
        let idle = AppHost { setup_button_active: false, setup_button_ticks: 0, ..h0 };
        if h0.current == AppId::Setup {
            setup_closed(idle, s0, h1, s1)
        } else if h0.current == AppId::PaletteEditor {
            exists|sx: Sys| #[trigger] sx.cleared_for_saving(&s0) && switched(idle, sx, AppId::Setup, h1, s1)
        } else {
            switched(AppHost { setup_button_active: true, setup_button_ticks: 0, ..h0 }, s0, AppId::Setup, h1, s1)
        }
    } else if h0.setup_button_active && h0.setup_button_ticks >= SETUP_HOLD_TICKS {
        &&& h1.setup_button_ticks == 0
        &&& setup_closed(
            AppHost { setup_button_active: false, ..h0 },
            s0,
            AppHost { setup_button_ticks: h0.setup_button_ticks, ..h1 },
            s1,
        )
    } else {
        h1 == AppHost { setup_button_active: false, setup_button_ticks: 0, ..h0 } && s1 == s0
    }
}

/// Opening setup with the setup button from performance or programmer mode
/// and pressing the button again, with no mode selected in between, returns
/// to the mode setup was opened from.
pub proof fn lemma_setup_button_round_trip(
    h0: AppHost,
    s0: Sys,
    press: SurfaceEvent,
    h1: AppHost,
    s1: Sys,
    h2: AppHost,
    s2: Sys,
)
    requires
        h0.current == AppId::Performance || h0.current == AppId::Programmer,
        press.index == SETUP_BUTTON_INDEX,
        press.pressed,
        setup_button_handled(h0, s0, press, h1, s1),
        setup_button_handled(h1, s1, press, h2, s2),
    ensures
        h1.current == AppId::Setup,
        h2.current == h0.current,
{
}

impl AppHost {
    pub open spec fn wf(&self) -> bool {
        &&& self.boot.wf()
        &&& self.palette_editor.wf()
    }

    /// A host running `current`, with the power-up animation's bytes.
    pub fn new(current: AppId, boot_data: Vec<u8>) -> (r: Self)
        requires
            boot_data@.len() <= crate::app::boot::BOOT_DATA_MAX,
        ensures
            r.wf(),
            r.current == current,
            r.previous_app == current,
            r.setup_button_ticks == 0,
            !r.setup_button_active,
            r.boot.animation() == boot_data@,
    {
        AppHost {
            current,
            previous_app: current,
            boot: BootApp::new(boot_data),
            setup: SetupApp::new(),
            performance: PerformanceApp::new(),
            programmer: ProgrammerApp::new(),
            palette_editor: PaletteEditorApp::new(),
            setup_button_ticks: 0,
            setup_button_active: false,
        }
    }

    fn enter_current(&mut self, sys: &mut Sys)
        requires
            old(self).wf(),
            old(sys).wf(),
        ensures
            final(self).wf(),
            final(sys).wf(),
            final(self).current == old(self).current,
            final(self).previous_app == old(self).previous_app,
            final(self).setup_button_ticks == old(self).setup_button_ticks,
            final(self).setup_button_active == old(self).setup_button_active,
            final(sys).save_requested == old(sys).save_requested,
            entered(*old(self), *old(sys), *final(self), *final(sys)),
    {
        match self.current {
            AppId::Boot => self.boot.on_enter(sys),
            AppId::Setup => self.setup.on_enter(sys),
            AppId::Performance => {},
            AppId::Programmer => self.programmer.on_enter(sys),
            AppId::PaletteEditor => self.palette_editor.on_enter(sys),
        }
    }

    /// Starts the current app and carries out a switch it asks for at once.
    pub fn init(&mut self, sys: &mut Sys)
        requires
            old(self).wf(),
            old(sys).wf(),
        ensures
            final(self).wf(),
            final(sys).wf(),
            exists|hm: AppHost, sm: Sys|
                #[trigger] entered(*old(self), *old(sys), hm, sm) && request_taken_up(hm, sm, *final(self), *final(sys)),
    {
        self.enter_current(sys);
        let ghost hm = *self;
        let ghost sm = *sys;
        self.apply_requested_app_switch(sys);
        assert(entered(*old(self), *old(sys), hm, sm));
    }

    /// Switches to another app: remembers the app setup was opened from
    /// (not the palette editor, which returns to setup), blanks the
    /// surface, tells setup where it came from, and starts the new app.
    pub fn switch(&mut self, sys: &mut Sys, app: AppId)
        requires
            old(self).wf(),
            old(sys).wf(),
        ensures
            final(self).wf(),
            final(sys).wf(),
            final(self).current == app,
            final(self).previous_app == previous_after_switch(old(self).current, old(self).previous_app, app),
            final(self).setup_button_ticks == old(self).setup_button_ticks,
            final(self).setup_button_active == old(self).setup_button_active,
            app == old(self).current ==> final(sys).leds@ == old(sys).leds@ && final(sys).settings == old(sys).settings,
            final(sys).save_requested == old(sys).save_requested,
            switched(*old(self), *old(sys), app, *final(self), *final(sys)),
    {
        if app == self.current {
            return;
        }
        if app == AppId::Setup && self.current != AppId::PaletteEditor {
            self.previous_app = self.current;
        }
        self.current = app;
        sys.led_clear();
        let ghost sm = *sys;
        if app == AppId::Setup {
            self.setup.set_current_mode(self.previous_app);
        }
        assert(*self == switching_to(*old(self), app));
        self.enter_current(sys);
        assert(sm.leds_now(old(sys), cleared(*old(sys))));
    }

    /// The index apps see for a raw surface index: setup rotates only the
    /// main grid, the other apps the whole surface.
    pub open spec fn spec_to_canonical_index(&self, sys: &Sys, raw_index: u8) -> u8 {
        if self.current == AppId::Setup {
            sys.rotation.spec_to_canonical_grid_only(raw_index)
        } else {
            sys.rotation.spec_to_canonical(raw_index)
        }
    }

    fn to_canonical_index(&self, sys: &Sys, raw_index: u8) -> (r: u8)
        requires
            sys.wf(),
        ensures
            r == self.spec_to_canonical_index(sys, raw_index),
    {
        if self.current == AppId::Setup {
            sys.rotation.to_canonical_grid_only(raw_index)
        } else {
            sys.rotation.to_canonical(raw_index)
        }
    }

    /// A surface event: the app gets it (by canonical index, and setup
    /// also by raw index) unless it is the setup button; then the setup
    /// button logic runs, or else a switch the app asked for.
    pub fn route_surface_event(&mut self, sys: &mut Sys, event: SurfaceEvent)
        requires
            old(self).wf(),
            old(sys).wf(),
        ensures
            final(self).wf(),
            final(sys).wf(),
            event.index == SETUP_BUTTON_INDEX && old(self).current == AppId::Boot ==> *final(self) == *old(self)
                && final(sys).leds@ == old(sys).leds@,
            event.index == SETUP_BUTTON_INDEX && event.pressed && (old(self).current == AppId::Performance || old(self).current == AppId::Programmer) ==> {
                &&& final(self).current == AppId::Setup
                &&& final(self).previous_app == old(self).current
                &&& final(self).setup_button_active
                &&& final(self).setup_button_ticks == 0
            },
            event.index == SETUP_BUTTON_INDEX && event.pressed && old(self).current == AppId::PaletteEditor ==> {
                &&& final(self).current == AppId::Setup
                &&& final(self).previous_app == old(self).previous_app
                &&& !final(self).setup_button_active
                &&& final(sys).save_requested
            },
            event.index == SETUP_BUTTON_INDEX && event.pressed && old(self).current == AppId::Setup ==> {
                &&& final(self).current == (match old(self).setup.init_page.selected_mode {
                    Some(m) => m,
                    None => old(self).previous_app,
                })
                &&& !final(self).setup_button_active
                &&& final(sys).save_requested
            },
            event.index == SETUP_BUTTON_INDEX && !event.pressed && old(self).current != AppId::Boot ==> {
                &&& !final(self).setup_button_active
                &&& final(self).setup_button_ticks == 0
                &&& old(self).setup_button_active && old(self).setup_button_ticks >= SETUP_HOLD_TICKS
                    && old(self).current == AppId::Setup ==> final(self).current == (match old(self).setup.init_page.selected_mode {
                    Some(m) => m,
                    None => old(self).previous_app,
                })
                &&& !(old(self).setup_button_active && old(self).setup_button_ticks >= SETUP_HOLD_TICKS) ==> final(self).current == old(self).current
            },
            event.index != SETUP_BUTTON_INDEX && old(self).current == AppId::Programmer ==> {
                let index = old(self).spec_to_canonical_index(old(sys), event.index);
                &&& final(self).current == AppId::Programmer
                &&& final(sys).driver.sent_messages() == old(sys).driver.sent_messages().push(
                    (MidiPort::Midi, seq![0x90u8, index, programmer_velocity(old(sys).settings.velocity_enabled, SurfaceEvent { index, ..event })]),
                )
                &&& final(sys).leds@ == old(sys).leds@
            },
            event.index != SETUP_BUTTON_INDEX && old(self).current == AppId::Performance ==> final(self).current == AppId::Performance
                && final(sys).leds@ == old(sys).leds@ && final(sys).settings == old(sys).settings,
            event.index == SETUP_BUTTON_INDEX ==> setup_button_handled(*old(self), *old(sys), event, *final(self), *final(sys)),
            event.index != SETUP_BUTTON_INDEX ==> exists|hm: AppHost, sm: Sys|
                #[trigger] surface_delivered(*old(self), *old(sys), event, hm, sm) && request_taken_up(hm, sm, *final(self), *final(sys)),
    {
        let ghost h0 = *self;
        let ghost s0 = *sys;
        if event.index != 0 {
            let canonical = SurfaceEvent { index: self.to_canonical_index(sys, event.index), ..event };
            match self.current {
                AppId::Boot => {},
                AppId::Setup => {
                    self.setup.on_surface(sys, canonical);
                    let ghost a = self.setup;
                    let ghost s = *sys;
                    self.setup.on_surface_raw(sys, event);
                    assert(setup_pressed(h0.setup, s0, a, s, canonical));
                },
                AppId::Performance => self.performance.on_surface(sys, canonical),
                AppId::Programmer => self.programmer.on_surface(sys, canonical),
                AppId::PaletteEditor => self.palette_editor.on_surface(sys, canonical),
            }
        }
        let ghost hm = *self;
        let ghost sm = *sys;
        if self.handle_setup_button(sys, event) {
            return;
        }
        self.apply_requested_app_switch(sys);
        assert(surface_delivered(h0, s0, event, hm, sm));
    }

    /// A MIDI event: messages from the DAW port are dropped, clock
    /// messages drive the LED tempo, the rest go to the app.
    pub fn route_midi_event(&mut self, sys: &mut Sys, event: MidiEvent)
        requires
            old(self).wf(),
            old(sys).wf(),
        ensures
            final(self).wf(),
            final(sys).wf(),
            event.port == MidiPort::Daw ==> *final(self) == *old(self) && final(sys).leds@ == old(sys).leds@
                && final(sys).driver.leds@ == old(sys).driver.leds@,
            event.port != MidiPort::Daw && event.status == 0xfa ==> final(sys).leds.tempo_listen && final(sys).leds.tempo_counter == 0
                && *final(self) == *old(self),
            event.port != MidiPort::Daw && event.status == 0xfc ==> !final(sys).leds.tempo_listen && *final(self) == *old(self),
            event.port != MidiPort::Daw && event.status == 0xf8 ==> final(sys).leds.tempo_listen == old(sys).leds.tempo_listen
                && *final(self) == *old(self),
            event.port != MidiPort::Daw && event.status == 0xfa ==> final(sys).leds_now(old(sys), (spec_tempo_start(old(sys).leds@), old(sys).driver.leds@)),
            event.port != MidiPort::Daw && event.status == 0xf8 ==> final(sys).leds_now(old(sys), (spec_tempo_midi_clock(old(sys).leds@), old(sys).driver.leds@)),
            event.port != MidiPort::Daw && event.status == 0xfc ==> final(sys).leds_now(old(sys), (spec_tempo_stop(old(sys).leds@), old(sys).driver.leds@)),
            event.port == MidiPort::Daw ==> *final(sys) == *old(sys),
            event.port != MidiPort::Daw && event.status != 0xfa && event.status != 0xf8 && event.status != 0xfc ==> exists|hm: AppHost, sm: Sys|
                #[trigger] midi_delivered(*old(self), *old(sys), event, hm, sm) && request_taken_up(hm, sm, *final(self), *final(sys)),
            event.status != 0xfa && event.status != 0xf8 && event.status != 0xfc && old(self).current == AppId::Programmer ==> {
                &&& final(self).current == AppId::Programmer
                &&& match programmer_led_update(event) {
                    Some((index, velocity)) => final(sys).leds_now(
                        old(sys),
                        spec_set_raw6(
                            old(sys).leds@,
                            old(sys).driver.leds@,
                            old(sys).rotation.spec_to_raw(index),
                            spec_palette_rgb(&old(sys).settings, &old(sys).palettes, velocity),
                        ),
                    ),
                    None => final(sys).leds_now(old(sys), (old(sys).leds@, old(sys).driver.leds@)),
                }
            },
            event.status != 0xfa && event.status != 0xf8 && event.status != 0xfc && old(self).current == AppId::Performance ==> {
                &&& final(self).current == AppId::Performance
                &&& match performance_led_update(old(sys).layout.index_of(event.data1), event) {
                    Some((index, velocity)) => final(sys).leds_now(
                        old(sys),
                        spec_set_raw6(
                            old(sys).leds@,
                            old(sys).driver.leds@,
                            old(sys).rotation.spec_to_raw(index),
                            spec_palette_rgb(&old(sys).settings, &old(sys).palettes, velocity),
                        ),
                    ),
                    None => final(sys).leds_now(old(sys), (old(sys).leds@, old(sys).driver.leds@)),
                }
            },
    {
        if event.port == MidiPort::Daw {
            return;
        }
        if Self::handle_led_tempo_event(sys, &event) {
            return;
        }
        let ghost h0 = *self;
        let ghost s0 = *sys;
        match self.current {
            AppId::Performance => self.performance.on_midi(sys, event),
            AppId::Programmer => self.programmer.on_midi(sys, event),
            _ => {},
        }
        let ghost hm = *self;
        let ghost sm = *sys;
        self.apply_requested_app_switch(sys);
        assert(midi_delivered(h0, s0, event, hm, sm));
    }

    /// An aftertouch event goes to the app by canonical index.
    pub fn route_aftertouch_event(&mut self, sys: &mut Sys, event: AftertouchEvent)
        requires
            old(self).wf(),
            old(sys).wf(),
        ensures
            final(self).wf(),
            final(sys).wf(),
            old(self).current == AppId::Performance || old(self).current == AppId::Programmer ==> final(self).current == old(self).current
                && final(sys).leds@ == old(sys).leds@ && final(sys).settings == old(sys).settings,
            ({
                let index = old(self).spec_to_canonical_index(old(sys), event.index);
                let sent = old(sys).driver.sent_messages();
                let note = if old(self).current == AppId::Performance { old(sys).layout.note_of(index) } else { index };
                (old(self).current == AppId::Programmer || (old(self).current == AppId::Performance && note != 0))
                    ==> final(sys).driver.sent_messages() == match aftertouch_message(old(sys).settings.aftertouch_mode, note, event.value) {
                    Some(m) => sent.push((MidiPort::Midi, m)),
                    None => sent,
                }
            }),
            old(self).current == AppId::Performance && old(sys).layout.note_of(old(self).spec_to_canonical_index(old(sys), event.index)) == 0
                ==> final(sys).driver.sent_messages() == old(sys).driver.sent_messages(),
            exists|hm: AppHost, sm: Sys|
                #[trigger] aftertouch_delivered(*old(self), *old(sys), event, hm, sm) && request_taken_up(hm, sm, *final(self), *final(sys)),
    {
        let ghost h0 = *self;
        let ghost s0 = *sys;
        let canonical = AftertouchEvent { index: self.to_canonical_index(sys, event.index), ..event };
        match self.current {
            AppId::Performance => self.performance.on_aftertouch(sys, canonical),
            AppId::Programmer => self.programmer.on_aftertouch(sys, canonical),
            _ => {},
        }
        let ghost hm = *self;
        let ghost sm = *sys;
        self.apply_requested_app_switch(sys);
        assert(aftertouch_delivered(h0, s0, event, hm, sm));
    }

    /// A system exclusive message: dropped from the DAW port; one that
    /// selects an app (`switch_target`) switches to it, except during the
    /// power-up animation; anything else is for the running app's command
    /// set.
    pub fn receive_sysex(&mut self, sys: &mut Sys, port: MidiPort, switch_target: Option<AppId>) -> (r: SysexAction)
        requires
            old(self).wf(),
            old(sys).wf(),
        ensures
            final(self).wf(),
            final(sys).wf(),
            port == MidiPort::Daw ==> r == SysexAction::Ignored && *final(self) == *old(self) && *final(sys) == *old(sys),
            port != MidiPort::Daw && old(self).current != AppId::Boot && switch_target is Some ==> {
                &&& r == SysexAction::Switched(switch_target->Some_0)
                &&& final(self).current == switch_target->Some_0
                &&& switched(*old(self), *old(sys), switch_target->Some_0, *final(self), *final(sys))
            },
            port != MidiPort::Daw && (old(self).current == AppId::Boot || switch_target is None) ==> {
                &&& r == SysexAction::Execute(old(self).current)
                &&& *final(self) == *old(self)
                &&& *final(sys) == *old(sys)
            },
    {
        if port == MidiPort::Daw {
            return SysexAction::Ignored;
        }
        if self.current != AppId::Boot {
            if let Some(app) = switch_target {
                self.switch(sys, app);
                return SysexAction::Switched(app);
            }
        }
        SysexAction::Execute(self.current)
    }

    /// A millisecond tick: times the setup button hold, steps the LED
    /// tempo, ticks the app and carries out a switch it asks for.
    pub fn route_tick_event(&mut self, sys: &mut Sys)
        requires
            old(self).wf(),
            old(sys).wf(),
        ensures
            final(self).wf(),
            final(sys).wf(),
            old(self).setup_button_active && (old(self).current == AppId::Performance || old(self).current == AppId::Programmer) ==> final(self).setup_button_ticks == (if old(self).setup_button_ticks == u16::MAX {
                u16::MAX
            } else {
                (old(self).setup_button_ticks + 1) as u16
            }),
            old(self).current == AppId::Performance || old(self).current == AppId::Programmer ==> {
                &&& final(self).current == old(self).current
                &&& final(sys).leds.same_layers(&old(sys).leds)
                &&& final(sys).same_but_leds(old(sys))
            },
            exists|st: Sys, hm: AppHost, sm: Sys|
                #[trigger] tick_delivered(*old(self), *old(sys), st, hm, sm) && request_taken_up(hm, sm, *final(self), *final(sys)),
    {
        let ghost h0 = *self;
        let ghost s0 = *sys;
        self.tick_setup_button();
        sys.led_tick();
        let ghost st = *sys;
        match self.current {
            AppId::Boot => self.boot.on_tick(sys),
            AppId::Setup => self.setup.on_tick(sys),
            AppId::PaletteEditor => self.palette_editor.on_tick(sys),
            _ => {},
        }
        let ghost hm = *self;
        let ghost sm = *sys;
        self.apply_requested_app_switch(sys);
        assert(tick_delivered(h0, s0, st, hm, sm));
    }

    fn apply_requested_app_switch(&mut self, sys: &mut Sys)
        requires
            old(self).wf(),
            old(sys).wf(),
        ensures
            final(self).wf(),
            final(sys).wf(),
            final(self).setup_button_ticks == old(self).setup_button_ticks,
            final(self).setup_button_active == old(self).setup_button_active,
            old(self).current == AppId::Performance || old(self).current == AppId::Programmer ==> *final(self) == *old(self)
                && *final(sys) == *old(sys),
            request_taken_up(*old(self), *old(sys), *final(self), *final(sys)),
    {
        let request = match self.current {
            AppId::Boot => self.boot.take_requested_app_switch(),
            AppId::Setup => self.setup.take_requested_app_switch(),
            AppId::PaletteEditor => self.palette_editor.take_requested_app_switch(),
            _ => None,
        };
        if let Some(app) = request {
            self.switch(sys, app);
        }
    }

    /// Start, clock and stop messages drive the LED tempo; returns whether
    /// the message was one of them.
    fn handle_led_tempo_event(sys: &mut Sys, event: &MidiEvent) -> (r: bool)
        requires
            old(sys).wf(),
        ensures
            final(sys).wf(),
            r == (event.status == 0xfa || event.status == 0xf8 || event.status == 0xfc),
            !r ==> *final(sys) == *old(sys),
            event.status == 0xfa ==> final(sys).leds.tempo_listen && final(sys).leds.tempo_counter == 0,
            event.status == 0xfc ==> !final(sys).leds.tempo_listen,
            event.status == 0xf8 ==> final(sys).leds.tempo_listen == old(sys).leds.tempo_listen,
            event.status == 0xfa ==> final(sys).leds_now(old(sys), (spec_tempo_start(old(sys).leds@), old(sys).driver.leds@)),
            event.status == 0xf8 ==> final(sys).leds_now(old(sys), (spec_tempo_midi_clock(old(sys).leds@), old(sys).driver.leds@)),
            event.status == 0xfc ==> final(sys).leds_now(old(sys), (spec_tempo_stop(old(sys).leds@), old(sys).driver.leds@)),
    {
        if event.status == 0xfa {
            sys.led_tempo_start();
            true
        } else if event.status == 0xf8 {
            sys.led_tempo_midi_clock();
            true
        } else if event.status == 0xfc {
            sys.led_tempo_stop();
            true
        } else {
            false
        }
    }

    /// Closes setup: to the mode selected there, else back to where setup
    /// was opened from.
    fn exit_setup(&mut self, sys: &mut Sys)
        requires
            old(self).wf(),
            old(sys).wf(),
        ensures
            final(self).wf(),
            final(sys).wf(),
            final(sys).save_requested,
            final(self).current == (match old(self).setup.init_page.selected_mode {
                Some(m) => m,
                None => old(self).previous_app,
            }),
            final(self).setup_button_ticks == old(self).setup_button_ticks,
            final(self).setup_button_active == old(self).setup_button_active,
            setup_closed(*old(self), *old(sys), *final(self), *final(sys)),
    {
        let selected = self.setup.finish_setup(sys);
        let ghost sx = *sys;
        let app = match selected {
            Some(m) => m,
            None => self.previous_app,
        };
        self.switch(sys, app);
        assert(sx.cleared_for_saving(old(sys)));
    }

    /// The setup button: ignored during the animation; pressed, it closes
    /// setup, leaves the palette editor for setup (saving), or opens setup
    /// and starts timing the hold; released after a long hold, it closes
    /// setup again. Returns whether the event was the setup button.
    fn handle_setup_button(&mut self, sys: &mut Sys, event: SurfaceEvent) -> (r: bool)
        requires
            old(self).wf(),
            old(sys).wf(),
        ensures
            final(self).wf(),
            final(sys).wf(),
            r == (event.index == SETUP_BUTTON_INDEX),
            !r ==> *final(self) == *old(self) && *final(sys) == *old(sys),
            r ==> setup_button_handled(*old(self), *old(sys), event, *final(self), *final(sys)),
            r && old(self).current == AppId::Boot ==> *final(self) == *old(self) && final(sys).leds@ == old(sys).leds@,
            r && event.pressed && (old(self).current == AppId::Performance || old(self).current == AppId::Programmer) ==> {
                &&& final(self).current == AppId::Setup
                &&& final(self).previous_app == old(self).current
                &&& final(self).setup_button_active
                &&& final(self).setup_button_ticks == 0
            },
            r && event.pressed && old(self).current == AppId::PaletteEditor ==> {
                &&& final(self).current == AppId::Setup
                &&& final(self).previous_app == old(self).previous_app
                &&& !final(self).setup_button_active
                &&& final(sys).save_requested
            },
            r && event.pressed && old(self).current == AppId::Setup ==> {
                &&& final(self).current == (match old(self).setup.init_page.selected_mode {
                    Some(m) => m,
                    None => old(self).previous_app,
                })
                &&& !final(self).setup_button_active
                &&& final(sys).save_requested
            },
            r && !event.pressed && old(self).current != AppId::Boot ==> {
                &&& !final(self).setup_button_active
                &&& final(self).setup_button_ticks == 0
                &&& old(self).setup_button_active && old(self).setup_button_ticks >= SETUP_HOLD_TICKS
                    && old(self).current == AppId::Setup ==> final(self).current == (match old(self).setup.init_page.selected_mode {
                    Some(m) => m,
                    None => old(self).previous_app,
                })
                &&& !(old(self).setup_button_active && old(self).setup_button_ticks >= SETUP_HOLD_TICKS) ==> final(self).current == old(self).current
            },
    {
        if event.index != SETUP_BUTTON_INDEX {
            return false;
        }
        if self.current == AppId::Boot {
            return true;
        }
        if event.pressed {
            if self.current == AppId::Setup {
                self.setup_button_active = false;
                self.setup_button_ticks = 0;
                self.exit_setup(sys);
            } else if self.current == AppId::PaletteEditor {
                self.setup_button_active = false;
                self.setup_button_ticks = 0;
                sys.led_clear();
                sys.save_requested = true;
                let ghost sx = *sys;
                self.switch(sys, AppId::Setup);
                assert(sx.cleared_for_saving(old(sys)));
            } else {
                self.setup_button_ticks = 0;
                self.setup_button_active = true;
                self.switch(sys, AppId::Setup);
            }
        } else {
            let was_active = self.setup_button_active;
            self.setup_button_active = false;
            if was_active && self.setup_button_ticks >= SETUP_HOLD_TICKS {
                self.exit_setup(sys);
            }
            self.setup_button_ticks = 0;
        }
        true
    }

    fn tick_setup_button(&mut self)
        ensures
            final(self).setup_button_ticks == (if old(self).setup_button_active {
                if old(self).setup_button_ticks == u16::MAX { u16::MAX } else { (old(self).setup_button_ticks + 1) as u16 }
            } else {
                old(self).setup_button_ticks
            }),
            final(self).setup_button_active == old(self).setup_button_active,
            final(self).current == old(self).current,
            final(self).previous_app == old(self).previous_app,
            final(self).boot == old(self).boot,
            final(self).palette_editor == old(self).palette_editor,
            final(self).setup == old(self).setup,
            *final(self) == (AppHost { setup_button_ticks: hold_ticked(*old(self)), ..*old(self) }),
    {
        if self.setup_button_active {
            self.setup_button_ticks = self.setup_button_ticks.saturating_add(1);
        }
    }
}

} // verus!
