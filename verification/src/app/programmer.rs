use vstd::prelude::*;
use crate::events::{AftertouchEvent, MidiEvent, MidiPort, SurfaceEvent};
use crate::led::{spec_set_raw6, spec_palette_rgb};
use crate::system::{cleared, Sys};

verus! {

/// Velocity reported for a surface event: full velocity when velocity
/// sensitivity is off, the pad's value (at most 127) when on, 0 on release.
pub open spec fn programmer_velocity(velocity_enabled: u8, event: SurfaceEvent) -> u8 {
    if !event.pressed {
        0
    } else if velocity_enabled != 0 {
        if event.value < 127 { event.value } else { 127 }
    } else {
        127
    }
}

/// Which LED a MIDI message in programmer mode lights, and with which
/// palette velocity: note on and off on any non-zero index, control change
/// on the top row (90..=99).
pub open spec fn programmer_led_update(event: MidiEvent) -> Option<(u8, u8)> {
    if event.port != MidiPort::Midi {
        None
    } else if event.status == 0x90 && event.data1 != 0 {
        Some((event.data1, event.data2))
    } else if event.status == 0x80 && event.data1 != 0 {
        Some((event.data1, 0u8))
    } else if event.status == 0xb0 && 90 <= event.data1 <= 99 {
        Some((event.data1, event.data2))
    } else {
        None
    }
}

/// The MIDI message an aftertouch event sends for an aftertouch mode:
/// polyphonic (1) or channel (2) pressure; none otherwise.
pub open spec fn aftertouch_message(mode: u8, note: u8, value: u8) -> Option<Seq<u8>> {
    if mode == 1 {
        Some(seq![0xa0u8, note, value])
    } else if mode == 2 {
        Some(seq![0xd0u8, value])
    } else {
        None
    }
}

/// Programmer mode's answer to a surface event: a note on for the index
/// (velocity 0 for a release), nothing else changed.
pub open spec fn programmer_played(s0: Sys, s1: Sys, event: SurfaceEvent) -> bool {
    s1.sent_now(
        &s0,
        s0.driver.sent_messages().push((MidiPort::Midi, seq![0x90u8, event.index, programmer_velocity(s0.settings.velocity_enabled, event)])),
    )
}

/// Programmer mode's answer to a MIDI event: at most one LED lit from the
/// selected palette.
pub open spec fn programmer_lit(s0: Sys, s1: Sys, event: MidiEvent) -> bool {
    match programmer_led_update(event) {
        Some((index, velocity)) => s1.leds_now(
            &s0,
            spec_set_raw6(s0.leds@, s0.driver.leds@, s0.rotation.spec_to_raw(index), spec_palette_rgb(&s0.settings, &s0.palettes, velocity)),
        ),
        None => s1.leds_now(&s0, (s0.leds@, s0.driver.leds@)),
    }
}

/// The aftertouch message of the current mode for a note was sent (none in
/// mode 0), nothing else changed.
pub open spec fn aftertouch_sent(s0: Sys, s1: Sys, note: u8, value: u8) -> bool {
    s1.sent_now(
        &s0,
        match aftertouch_message(s0.settings.aftertouch_mode, note, value) {
            Some(m) => s0.driver.sent_messages().push((MidiPort::Midi, m)),
            None => s0.driver.sent_messages(),
        },
    )
}

/// Programmer mode: the surface and its LEDs are driven directly by MIDI.
pub struct ProgrammerApp {}

impl ProgrammerApp {
    pub fn new() -> (r: Self) {
        ProgrammerApp {}
    }

    pub fn on_enter(&mut self, sys: &mut Sys)
        requires
            old(sys).wf(),
        ensures
            final(sys).leds_now(old(sys), cleared(*old(sys))),
    {
        sys.led_clear();
    }

    /// Sends a note on (velocity 0 for a release) for the pressed index.
    pub fn on_surface(&mut self, sys: &mut Sys, event: SurfaceEvent)
        requires
            old(sys).wf(),
        ensures
            final(sys).wf(),
            final(sys).driver.sent_messages() == old(sys).driver.sent_messages().push(
                (MidiPort::Midi, seq![0x90u8, event.index, programmer_velocity(old(sys).settings.velocity_enabled, event)]),
            ),
            final(sys).leds@ == old(sys).leds@,
            final(sys).driver.leds@ == old(sys).driver.leds@,
            final(sys).settings == old(sys).settings,
            programmer_played(*old(sys), *final(sys), event),
    {
        let velocity: u8 = if event.pressed {
            if sys.settings.velocity_enabled != 0 {
                if event.value < 127 { event.value } else { 127 }
            } else {
                127
            }
        } else {
            0
        };
        let msg: [u8; 3] = [0x90, event.index, velocity];
        sys.send_midi(MidiPort::Midi, msg.as_slice());
        assert(msg@ =~= seq![0x90u8, event.index, velocity]);
    }

    /// Lights LEDs from the selected palette as MIDI asks.
    pub fn on_midi(&mut self, sys: &mut Sys, event: MidiEvent)
        requires
            old(sys).wf(),
        ensures
            match programmer_led_update(event) {
                Some((index, velocity)) => final(sys).leds_now(
                    old(sys),
                    spec_set_raw6(
                        old(sys).leds@,
                        old(sys).driver.leds@,
                        old(sys).rotation.spec_to_raw(index),
                        spec_palette_rgb(&old(sys).settings, &old(sys).palettes, velocity),
                    ),
                ),
                None => final(sys).leds_now(old(sys), (old(sys).leds@, old(sys).driver.leds@)),
            },
            programmer_lit(*old(sys), *final(sys), event),
    {
        if event.port != MidiPort::Midi {
            return;
        }
        let idx = event.data1;
        if event.status == 0x90 {
            if idx != 0 {
                sys.led_set_palette(idx, event.data2);
            }
        } else if event.status == 0x80 {
            if idx != 0 {
                sys.led_set_palette(idx, 0);
            }
        } else if event.status == 0xb0 {
            if 90 <= event.data1 && event.data1 <= 99 {
                sys.led_set_palette(event.data1, event.data2);
            }
        }
    }

    /// Sends polyphonic or channel pressure, as the aftertouch mode says.
    pub fn on_aftertouch(&mut self, sys: &mut Sys, event: AftertouchEvent)
        requires
            old(sys).wf(),
        ensures
            final(sys).wf(),
            final(sys).driver.sent_messages() == match aftertouch_message(old(sys).settings.aftertouch_mode, event.index, event.value) {
                Some(m) => old(sys).driver.sent_messages().push((MidiPort::Midi, m)),
                None => old(sys).driver.sent_messages(),
            },
            final(sys).leds@ == old(sys).leds@,
            final(sys).driver.leds@ == old(sys).driver.leds@,
            final(sys).settings == old(sys).settings,
            aftertouch_sent(*old(sys), *final(sys), event.index, event.value),
    {
        send_aftertouch(sys, event.index, event.value);
    }
}

/// Sends the aftertouch message of the current mode for a note.
pub fn send_aftertouch(sys: &mut Sys, note: u8, value: u8)
    requires
        old(sys).wf(),
    ensures
        final(sys).wf(),
        final(sys).driver.sent_messages() == match aftertouch_message(old(sys).settings.aftertouch_mode, note, value) {
            Some(m) => old(sys).driver.sent_messages().push((MidiPort::Midi, m)),
            None => old(sys).driver.sent_messages(),
        },
        final(sys).leds@ == old(sys).leds@,
        final(sys).driver.leds@ == old(sys).driver.leds@,
        final(sys).settings == old(sys).settings,
        final(sys).palettes == old(sys).palettes,
        final(sys).layout == old(sys).layout,
        final(sys).rotation == old(sys).rotation,
        final(sys).save_requested == old(sys).save_requested,
        final(sys).driver.brightness == old(sys).driver.brightness,
        final(sys).driver.highspeed_leds == old(sys).driver.highspeed_leds,
        aftertouch_sent(*old(sys), *final(sys), note, value),
{
    let mode = sys.settings.aftertouch_mode;
    if mode == 1 {
        let msg: [u8; 3] = [0xa0, note, value];
        sys.send_midi(MidiPort::Midi, msg.as_slice());
        assert(msg@ =~= seq![0xa0u8, note, value]);
    } else if mode == 2 {
        let msg: [u8; 2] = [0xd0, value];
        sys.send_midi(MidiPort::Midi, msg.as_slice());
        assert(msg@ =~= seq![0xd0u8, value]);
    }
}

} // verus!
