use vstd::prelude::*;
use crate::driver::{Driver, LedCommand};
use crate::events::MidiPort;
use crate::led::{
    clear, novation, set_palette, spec_palette_rgb, spec_set, spec_set_raw6, spec_sets,
    spec_tick, spec_tempo_start, spec_tempo_midi_clock, spec_tempo_stop,
    uniform, no_color, LedState, LedView,
};
use crate::palette::Palettes;
use crate::settings::Settings;

verus! {

pub const INDEX_TABLE_SIZE: usize = 256;

/// The note layout of the surface: surface index to note and back; 0 where
/// there is none.
pub struct Layout {
    xy_to_dr: Vec<u8>,
    dr_to_xy: Vec<u8>,
}

impl Layout {
    pub closed spec fn wf(&self) -> bool {
        self.xy_to_dr@.len() == INDEX_TABLE_SIZE && self.dr_to_xy@.len() == INDEX_TABLE_SIZE
    }

    pub closed spec fn note_of(&self, index: u8) -> u8 {
        self.xy_to_dr@[index as int]
    }

    pub closed spec fn index_of(&self, note: u8) -> u8 {
        self.dr_to_xy@[note as int]
    }

    /// A layout from its two 256-entry tables; `None` for other lengths.
    pub fn from_tables(xy_to_dr: Vec<u8>, dr_to_xy: Vec<u8>) -> (r: Option<Self>)
        ensures
            (r is Some) == (xy_to_dr@.len() == INDEX_TABLE_SIZE && dr_to_xy@.len() == INDEX_TABLE_SIZE),
            r matches Some(l) ==> l.wf() && (forall|i: u8| #[trigger] l.note_of(i) == xy_to_dr@[i as int])
                && (forall|n: u8| #[trigger] l.index_of(n) == dr_to_xy@[n as int]),
    {
        if xy_to_dr.len() == INDEX_TABLE_SIZE && dr_to_xy.len() == INDEX_TABLE_SIZE {
            Some(Layout { xy_to_dr, dr_to_xy })
        } else {
            None
        }
    }

    /// Note played by a surface index (0: none).
    pub fn xy_to_dr(&self, index: u8) -> (r: u8)
        requires
            self.wf(),
        ensures
            r == self.note_of(index),
    {
        self.xy_to_dr[index as usize]
    }

    /// Surface index showing a note (0: none).
    pub fn dr_to_xy(&self, note: u8) -> (r: u8)
        requires
            self.wf(),
        ensures
            r == self.index_of(note),
    {
        self.dr_to_xy[note as usize]
    }
}

/// Orientation of the surface.
#[derive(Copy, Clone, PartialEq, Eq, Structural, Debug)]
pub enum RotationKind {
    Default,
    UpsideDown,
    Left,
    Right,
}

pub open spec fn rotation_slot(kind: RotationKind) -> int {
    match kind {
        RotationKind::Default => 0,
        RotationKind::UpsideDown => 1,
        RotationKind::Left => 2,
        RotationKind::Right => 3,
    }
}

fn rotation_slot_exec(kind: RotationKind) -> (r: usize)
    ensures
        r == rotation_slot(kind),
{
    match kind {
        RotationKind::Default => 0,
        RotationKind::UpsideDown => 1,
        RotationKind::Left => 2,
        RotationKind::Right => 3,
    }
}

/// How surface indices map for one orientation: canonical to raw,
/// raw to canonical, and raw to canonical for the main grid only.
pub struct RotationMap {
    pub to_raw: Vec<u8>,
    pub to_canonical: Vec<u8>,
    pub to_canonical_grid_only: Vec<u8>,
}

impl RotationMap {
    pub open spec fn wf(&self) -> bool {
        &&& self.to_raw@.len() == INDEX_TABLE_SIZE
        &&& self.to_canonical@.len() == INDEX_TABLE_SIZE
        &&& self.to_canonical_grid_only@.len() == INDEX_TABLE_SIZE
    }
}

/// The current orientation and the index mapping of each orientation.
pub struct Rotation {
    pub kind: RotationKind,
    pub maps: Vec<RotationMap>,
}

impl Rotation {
    pub open spec fn wf(&self) -> bool {
        &&& self.maps@.len() == 4
        &&& forall|k: int| 0 <= k < 4 ==> (#[trigger] self.maps@[k]).wf()
    }

    pub open spec fn current(&self) -> RotationMap {
        self.maps@[rotation_slot(self.kind)]
    }

    pub open spec fn spec_to_raw(&self, index: u8) -> u8 {
        self.current().to_raw@[index as int]
    }

    pub open spec fn spec_to_canonical(&self, index: u8) -> u8 {
        self.current().to_canonical@[index as int]
    }

    pub open spec fn spec_to_canonical_grid_only(&self, index: u8) -> u8 {
        self.current().to_canonical_grid_only@[index as int]
    }

    pub fn to_raw(&self, index: u8) -> (r: u8)
        requires
            self.wf(),
        ensures
            r == self.spec_to_raw(index),
    {
        self.maps[rotation_slot_exec(self.kind)].to_raw[index as usize]
    }

    pub fn to_canonical(&self, index: u8) -> (r: u8)
        requires
            self.wf(),
        ensures
            r == self.spec_to_canonical(index),
    {
        self.maps[rotation_slot_exec(self.kind)].to_canonical[index as usize]
    }

    pub fn to_canonical_grid_only(&self, index: u8) -> (r: u8)
        requires
            self.wf(),
        ensures
            r == self.spec_to_canonical_grid_only(index),
    {
        self.maps[rotation_slot_exec(self.kind)].to_canonical_grid_only[index as usize]
    }

    pub fn get(&self) -> (r: RotationKind)
        ensures
            r == self.kind,
    {
        self.kind
    }

    pub fn set(&mut self, kind: RotationKind)
        ensures
            final(self).kind == kind,
            final(self).maps@ == old(self).maps@,
    {
        self.kind = kind;
    }
}

/// Everything the apps act on: the LED engine, the driver, the settings,
/// the palettes and the surface's layout and orientation.
pub struct Sys {
    pub leds: LedState,
    pub driver: Driver,
    pub settings: Settings,
    pub palettes: Palettes,
    pub layout: Layout,
    pub rotation: Rotation,
    /// The settings changed in a way that must be written to flash.
    pub save_requested: bool,
}

/// The LED writes of a run of `set` calls on canonical indices, taken to raw
/// indices.
pub open spec fn writes_to_raw(rotation: Rotation, writes: Seq<(u8, u32)>) -> Seq<(u8, u32)> {
    writes.map_values(|w: (u8, u32)| (rotation.spec_to_raw(w.0), w.1))
}

/// The LED engine with every color forgotten (tempo kept) and every LED
/// address dark.
pub open spec fn cleared(s: Sys) -> (LedView, Seq<LedCommand>) {
    (
        LedView { base: uniform(no_color()), flash: uniform(no_color()), pulse: uniform(no_color()), ..s.leds@ },
        Seq::new(crate::driver::LED_ADDRESS_COUNT as nat, |i: int| LedCommand::Color(0)),
    )
}

impl Sys {
    pub open spec fn wf(&self) -> bool {
        &&& self.leds.wf()
        &&& self.driver.wf()
        &&& self.settings.wf()
        &&& self.palettes.wf()
        &&& self.layout.wf()
        &&& self.rotation.wf()
    }

    /// Settings, palettes, layout, orientation, save request and the
    /// driver's brightness and sent messages agree.
    pub open spec fn same_but_leds(&self, other: &Sys) -> bool {
        &&& self.settings == other.settings
        &&& self.palettes == other.palettes
        &&& self.layout == other.layout
        &&& self.rotation == other.rotation
        &&& self.save_requested == other.save_requested
        &&& self.driver.brightness == other.driver.brightness
        &&& self.driver.highspeed_leds == other.driver.highspeed_leds
        &&& self.driver.sent_messages() == other.driver.sent_messages()
    }

    /// The LEDs and everything but the settings agree.
    pub open spec fn same_outside_settings(&self, other: &Sys) -> bool {
        &&& self.leds@ == other.leds@
        &&& self.driver.leds@ == other.driver.leds@
        &&& self.palettes == other.palettes
        &&& self.layout == other.layout
        &&& self.rotation == other.rotation
        &&& self.save_requested == other.save_requested
        &&& self.driver.brightness == other.driver.brightness
        &&& self.driver.highspeed_leds == other.driver.highspeed_leds
        &&& self.driver.sent_messages() == other.driver.sent_messages()
    }

    /// The surface was blanked (see `cleared`) and the settings are to be
    /// saved; nothing else changed.
    pub open spec fn cleared_for_saving(&self, old: &Sys) -> bool {
        &&& self.wf()
        &&& (self.leds@, self.driver.leds@) == cleared(*old)
        &&& self.save_requested
        &&& self.settings == old.settings
        &&& self.palettes == old.palettes
        &&& self.layout == old.layout
        &&& self.rotation == old.rotation
        &&& self.driver.brightness == old.driver.brightness
        &&& self.driver.highspeed_leds == old.driver.highspeed_leds
        &&& self.driver.sent_messages() == old.driver.sent_messages()
    }

    /// Only the list of sent messages changed; it is now `sent`.
    pub open spec fn sent_now(&self, old: &Sys, sent: Seq<(MidiPort, Seq<u8>)>) -> bool {
        &&& self.wf()
        &&& self.leds@ == old.leds@
        &&& self.driver.leds@ == old.driver.leds@
        &&& self.settings == old.settings
        &&& self.palettes == old.palettes
        &&& self.layout == old.layout
        &&& self.rotation == old.rotation
        &&& self.save_requested == old.save_requested
        &&& self.driver.brightness == old.driver.brightness
        &&& self.driver.highspeed_leds == old.driver.highspeed_leds
        &&& self.driver.sent_messages() == sent
    }

    /// The LED engine and output are as given, the rest unchanged.
    pub open spec fn leds_now(&self, old: &Sys, leds: (LedView, Seq<LedCommand>)) -> bool {
        &&& self.wf()
        &&& self.same_but_leds(old)
        &&& self.leds@ == leds.0
        &&& self.driver.leds@ == leds.1
    }

    /// `set` on a canonical index: the LED at its raw index.
    pub fn led_set(&mut self, index: u8, color: u32)
        requires
            old(self).wf(),
        ensures
            final(self).leds_now(old(self), spec_set(old(self).leds@, old(self).driver.leds@, old(self).rotation.spec_to_raw(index), color)),
    {
        let raw = self.rotation.to_raw(index);
        crate::led::set(&mut self.leds, &mut self.driver.leds, raw, color);
    }

    /// `set` on a raw index, whatever the orientation.
    pub fn led_set_raw(&mut self, index: u8, color: u32)
        requires
            old(self).wf(),
        ensures
            final(self).leds_now(old(self), spec_set(old(self).leds@, old(self).driver.leds@, index, color)),
    {
        crate::led::set(&mut self.leds, &mut self.driver.leds, index, color);
    }

    /// A run of `set` calls on canonical indices, in order.
    pub fn led_sets(&mut self, writes: &[(u8, u32)])
        requires
            old(self).wf(),
        ensures
            final(self).leds_now(old(self), spec_sets(old(self).leds@, old(self).driver.leds@, writes_to_raw(old(self).rotation, writes@))),
    {
        let mut k: usize = 0;
        while k < writes.len()
            invariant
                k <= writes@.len(),
                self.leds_now(old(self), spec_sets(old(self).leds@, old(self).driver.leds@, writes_to_raw(old(self).rotation, writes@.take(k as int)))),
            decreases writes@.len() - k,
        {
            let (index, color) = writes[k];
            self.led_set(index, color);
            proof {
                let rot = old(self).rotation;
                assert(writes_to_raw(rot, writes@.take(k + 1)).drop_last() =~= writes_to_raw(rot, writes@.take(k as int)));
            }
            k = k + 1;
        }
        assert(writes@.take(writes@.len() as int) =~= writes@);
    }

    /// The selected palette's color for a velocity on a canonical index.
    pub fn led_set_palette(&mut self, index: u8, velocity: u8)
        requires
            old(self).wf(),
        ensures
            final(self).leds_now(
                old(self),
                spec_set_raw6(
                    old(self).leds@,
                    old(self).driver.leds@,
                    old(self).rotation.spec_to_raw(index),
                    spec_palette_rgb(&old(self).settings, &old(self).palettes, velocity),
                ),
            ),
    {
        let raw = self.rotation.to_raw(index);
        set_palette(&mut self.leds, &mut self.driver.leds, &self.settings, &self.palettes, raw, velocity);
    }

    /// The Novation palette's color for a velocity on a canonical index.
    pub fn led_novation(&mut self, index: u8, velocity: u8)
        requires
            old(self).wf(),
        ensures
            final(self).leds_now(
                old(self),
                spec_set_raw6(
                    old(self).leds@,
                    old(self).driver.leds@,
                    old(self).rotation.spec_to_raw(index),
                    old(self).palettes.novation.spec_rgb(velocity),
                ),
            ),
    {
        let raw = self.rotation.to_raw(index);
        novation(&mut self.leds, &mut self.driver.leds, &self.palettes, raw, velocity);
    }

    /// Forgets every color and blanks the surface.
    pub fn led_clear(&mut self)
        requires
            old(self).wf(),
        ensures
            final(self).leds_now(
                old(self),
                (
                    LedView {
                        base: uniform(no_color()),
                        flash: uniform(no_color()),
                        pulse: uniform(no_color()),
                        ..old(self).leds@
                    },
                    Seq::new(crate::driver::LED_ADDRESS_COUNT as nat, |i: int| LedCommand::Color(0)),
                ),
            ),
    {
        clear(&mut self.leds, &mut self.driver.leds);
    }

    /// Advances the LED tempo by one tick and redraws flashing and pulsing
    /// LEDs.
    pub fn led_tick(&mut self)
        requires
            old(self).wf(),
        ensures
            final(self).wf(),
            final(self).same_but_leds(old(self)),
            final(self).leds.same_layers(&old(self).leds),
            final(self).leds_now(old(self), spec_tick(old(self).leds@, old(self).driver.leds@)),
    {
        crate::led::tick(&mut self.leds, &mut self.driver.leds);
    }

    /// A MIDI start message: the LED tempo follows the clock from now.
    pub fn led_tempo_start(&mut self)
        requires
            old(self).wf(),
        ensures
            final(self).wf(),
            final(self).same_but_leds(old(self)),
            final(self).driver.leds@ == old(self).driver.leds@,
            final(self).leds.same_layers(&old(self).leds),
            final(self).leds.tempo_listen,
            final(self).leds.tempo_counter == 0,
            final(self).leds.tempo_message_counter == 0,
            final(self).leds_now(old(self), (spec_tempo_start(old(self).leds@), old(self).driver.leds@)),
    {
        crate::led::tempo_start(&mut self.leds);
    }

    /// A MIDI clock message for the LED tempo.
    pub fn led_tempo_midi_clock(&mut self)
        requires
            old(self).wf(),
        ensures
            final(self).wf(),
            final(self).same_but_leds(old(self)),
            final(self).driver.leds@ == old(self).driver.leds@,
            final(self).leds.same_layers(&old(self).leds),
            final(self).leds.tempo_listen == old(self).leds.tempo_listen,
            final(self).leds_now(old(self), (spec_tempo_midi_clock(old(self).leds@), old(self).driver.leds@)),
    {
        crate::led::tempo_midi_clock(&mut self.leds);
    }

    /// A MIDI stop message: the LED tempo no longer follows the clock.
    pub fn led_tempo_stop(&mut self)
        requires
            old(self).wf(),
        ensures
            final(self).wf(),
            final(self).same_but_leds(old(self)),
            final(self).driver.leds@ == old(self).driver.leds@,
            final(self).leds.same_layers(&old(self).leds),
            !final(self).leds.tempo_listen,
            final(self).leds_now(old(self), (spec_tempo_stop(old(self).leds@), old(self).driver.leds@)),
    {
        crate::led::tempo_stop(&mut self.leds);
    }

    /// Sends a MIDI message through the driver.
    pub fn send_midi(&mut self, port: MidiPort, data: &[u8])
        requires
            old(self).wf(),
        ensures
            final(self).wf(),
            final(self).driver.sent_messages() == old(self).driver.sent_messages().push((port, data@)),
            final(self).leds@ == old(self).leds@,
            final(self).driver.leds@ == old(self).driver.leds@,
            final(self).driver.brightness == old(self).driver.brightness,
            final(self).driver.highspeed_leds == old(self).driver.highspeed_leds,
            final(self).settings == old(self).settings,
            final(self).palettes == old(self).palettes,
            final(self).layout == old(self).layout,
            final(self).rotation == old(self).rotation,
            final(self).save_requested == old(self).save_requested,
            final(self).sent_now(old(self), old(self).driver.sent_messages().push((port, data@))),
    {
        self.driver.send_midi(port, data);
    }
}

} // verus!
