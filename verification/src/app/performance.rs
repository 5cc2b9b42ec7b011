use vstd::prelude::*;
use crate::events::{AftertouchEvent, MidiEvent, MidiPort, SurfaceEvent};
use crate::led::{spec_set_raw6, spec_palette_rgb};
use crate::system::Sys;
use super::programmer::{aftertouch_message, aftertouch_sent, send_aftertouch};

verus! {

pub open spec fn min127(v: u8) -> u8 {
    if v < 127 { v } else { 127 }
}

/// Soft curve: the square of the value over 127, rounded.
pub open spec fn spec_velocity_curve_low(value: u8) -> u8 {
    if value == 0 {
        0
    } else {
        let x = min127(value) as int;
        let y = (x * x + 63) / 127;
        (if y < 127 { y } else { 127 }) as u8
    }
}

/// `r` is the integer square root of `n`.
pub open spec fn is_isqrt(r: int, n: int) -> bool {
    0 <= r && r * r <= n < (r + 1) * (r + 1)
}

pub fn velocity_curve_low(value: u8) -> (r: u8)
    ensures
        r == spec_velocity_curve_low(value),
{
    if value == 0 {
        return 0;
    }
    let x: u16 = if value < 127 { value as u16 } else { 127 };
    assert(x * x <= 16129) by (nonlinear_arith)
        requires
            x <= 127,
    ;
    let y: u16 = (x * x + 63) / 127;
    if y < 127 {
        y as u8
    } else {
        127
    }
}

/// Hard curve: the integer square root of the value times 127, so that
/// light touches already give high velocities.
pub fn velocity_curve_high(value: u8) -> (r: u8)
    ensures
        value == 0 ==> r == 0,
        value != 0 ==> is_isqrt(r as int, min127(value) * 127),
        r <= 127,
{
    if value == 0 {
        return 0;
    }
    let x: u16 = if value < 127 { value as u16 } else { 127 };
    assert(x * 127 <= 16129) by (nonlinear_arith)
        requires
            x <= 127,
    ;
    let mut n: u16 = x * 127;
    let ghost n0: int = n as int;
    let mut res: u16 = 0;
    let mut bit: u16 = 1u16 << 14u16;
    assert(bit == 16384) by (bit_vector)
        requires
            bit == 1u16 << 14u16,
    ;
    while bit > n
        invariant
            n == n0,
            127 <= n0 <= 16129,
            bit == 16384 || bit == 4096 || bit == 1024 || bit == 256 || bit == 64 || bit == 16 || bit == 4 || bit == 1,
            n0 < 4 * bit,
        decreases bit,
    {
        proof {
            crate::bits::lemma_u16_shifts(bit);
        }
        bit = bit >> 2;
    }
    let ghost mut y: int = 0;
    let ghost mut p: int = 4 * bit;
    assert((y + 1) * (y + 1) * p == p) by (nonlinear_arith)
        requires
            y == 0,
    ;
    while bit != 0
        invariant
            127 <= n0 <= 16129,
            bit == 16384 || bit == 4096 || bit == 1024 || bit == 256 || bit == 64 || bit == 16 || bit == 4 || bit == 1 || bit == 0,
            p == 4 * bit || (bit == 0 && p == 1),
            bit == 0 ==> p == 1,
            y >= 0,
            res == y * p,
            n0 == n + y * y * p,
            n0 < (y + 1) * (y + 1) * p,
            res <= 32512,
        decreases bit,
    {
        assert(res + bit <= 48896);
        if n >= res + bit {
            proof {
                assert(n0 == (n - res - bit) + (2 * y + 1) * (2 * y + 1) * bit) by (nonlinear_arith)
                    requires
                        n0 == n + y * y * p,
                        p == 4 * bit,
                        res == y * p,
                ;
                assert(n0 < (2 * y + 2) * (2 * y + 2) * bit) by (nonlinear_arith)
                    requires
                        n0 < (y + 1) * (y + 1) * p,
                        p == 4 * bit,
                ;
            }
            n = n - (res + bit);
            proof {
                crate::bits::lemma_u16_shifts(res);
            }
            proof {
                assert(res / 2 == 2 * y * bit) by (nonlinear_arith)
                    requires
                        res == y * p,
                        p == 4 * bit,
                ;
            }
            res = (res >> 1) + bit;
            proof {
                y = 2 * y + 1;
            }
        } else {
            proof {
                assert(n0 < (2 * y + 1) * (2 * y + 1) * bit) by (nonlinear_arith)
                    requires
                        n < res + bit,
                        n0 == n + y * y * p,
                        p == 4 * bit,
                        res == y * p,
                ;
                assert(n0 == n + (2 * y) * (2 * y) * bit) by (nonlinear_arith)
                    requires
                        n0 == n + y * y * p,
                        p == 4 * bit,
                ;
            }
            proof {
                crate::bits::lemma_u16_shifts(res);
            }
            proof {
                assert(res / 2 == 2 * y * bit) by (nonlinear_arith)
                    requires
                        res == y * p,
                        p == 4 * bit,
                ;
            }
            res = res >> 1;
            proof {
                y = 2 * y;
            }
        }
        proof {
            p = bit as int;
        }
        proof {
            crate::bits::lemma_u16_shifts(bit);
        }
        bit = bit >> 2;
        proof {
            if bit != 0 {
                assert(p == 4 * bit);
            }
            assert(y * y * p <= 16129);
            assert(res * res <= 16129 * p) by (nonlinear_arith)
                requires
                    res == y * p,
                    y * y * p <= 16129,
                    p >= 1,
            ;
            assert(p <= 16384);
            assert(res * res <= 16129 * 16384) by (nonlinear_arith)
                requires
                    res * res <= 16129 * p,
                    p <= 16384,
            ;
            if res > 32512 {
                assert(res * res > 32512 * 32512) by (nonlinear_arith)
                    requires
                        res > 32512,
                ;
            }
        }
    }
    assert(res <= 127) by (nonlinear_arith)
        requires
            res * res <= 16129,
            res >= 0,
    ;
    res as u8
}

/// The velocity curve selected in the settings: 0 soft, 2 hard, anything
/// else linear.
pub open spec fn velocity_curve_result(curve: u8, value: u8, r: u8) -> bool {
    if curve == 0 {
        r == spec_velocity_curve_low(value)
    } else if curve == 2 {
        (value == 0 ==> r == 0) && (value != 0 ==> is_isqrt(r as int, min127(value) * 127))
    } else {
        r == min127(value)
    }
}

/// An integer square root is unique.
pub proof fn lemma_isqrt_unique(r1: int, r2: int, n: int)
    requires
        is_isqrt(r1, n),
        is_isqrt(r2, n),
    ensures
        r1 == r2,
{
    if r1 < r2 {
        assert((r1 + 1) * (r1 + 1) <= r2 * r2) by (nonlinear_arith)
            requires
                0 <= r1,
                r1 + 1 <= r2,
        ;
    } else if r2 < r1 {
        assert((r2 + 1) * (r2 + 1) <= r1 * r1) by (nonlinear_arith)
            requires
                0 <= r2,
                r2 + 1 <= r1,
        ;
    }
}

/// Each curve gives one velocity for a value.
pub proof fn lemma_velocity_curve_unique(curve: u8, value: u8, r1: u8, r2: u8)
    requires
        velocity_curve_result(curve, value, r1),
        velocity_curve_result(curve, value, r2),
    ensures
        r1 == r2,
{
    if curve == 2 && value != 0 {
        lemma_isqrt_unique(r1 as int, r2 as int, min127(value) * 127);
    }
}

/// Performance mode's answer to a surface event: the note under the pad
/// with the curved velocity (127 without sensitivity, 0 on release);
/// nothing for a pad without a note; nothing else changed.
pub open spec fn performance_played(s0: Sys, s1: Sys, event: SurfaceEvent) -> bool {
    let note = s0.layout.note_of(event.index);
    let sent = s0.driver.sent_messages();
    if note == 0 {
        s1.sent_now(&s0, sent)
    } else {
        let v = s1.driver.sent_messages().last().1[2];
        &&& s1.sent_now(&s0, sent.push((MidiPort::Midi, seq![0x90u8, note, v])))
        &&& !event.pressed ==> v == 0
        &&& event.pressed && s0.settings.velocity_enabled == 0 ==> v == 127
        &&& event.pressed && s0.settings.velocity_enabled != 0 ==> velocity_curve_result(s0.settings.velocity_curve, event.value, v)
    }
}

/// Performance mode's answer to a MIDI event: at most one LED lit from the
/// selected palette, found through the layout.
pub open spec fn performance_lit(s0: Sys, s1: Sys, event: MidiEvent) -> bool {
    match performance_led_update(s0.layout.index_of(event.data1), event) {
        Some((index, velocity)) => s1.leds_now(
            &s0,
            spec_set_raw6(s0.leds@, s0.driver.leds@, s0.rotation.spec_to_raw(index), spec_palette_rgb(&s0.settings, &s0.palettes, velocity)),
        ),
        None => s1.leds_now(&s0, (s0.leds@, s0.driver.leds@)),
    }
}

/// Performance mode's answer to pressure on a pad: the aftertouch message
/// for the pad's note, nothing for a pad without a note.
pub open spec fn performance_pressure(s0: Sys, s1: Sys, event: AftertouchEvent) -> bool {
    let note = s0.layout.note_of(event.index);
    if note == 0 {
        s1.sent_now(&s0, s0.driver.sent_messages())
    } else {
        aftertouch_sent(s0, s1, note, event.value)
    }
}

pub fn apply_velocity_curve(curve: u8, value: u8) -> (r: u8)
    ensures
        velocity_curve_result(curve, value, r),
        r <= 127,
{
    if curve == 0 {
        velocity_curve_low(value)
    } else if curve == 2 {
        velocity_curve_high(value)
    } else if value < 127 {
        value
    } else {
        127
    }
}

/// Performance mode: pads play notes of the layout and light from MIDI.
pub struct PerformanceApp {}

impl PerformanceApp {
    pub fn new() -> (r: Self) {
        PerformanceApp {}
    }

    /// Plays the note under the pad: a note on with the curved velocity
    /// (full velocity when sensitivity is off), velocity 0 on release;
    /// nothing for a pad without a note.
    pub fn on_surface(&mut self, sys: &mut Sys, event: SurfaceEvent)
        requires
            old(sys).wf(),
        ensures
            final(sys).wf(),
            final(sys).leds@ == old(sys).leds@,
            final(sys).driver.leds@ == old(sys).driver.leds@,
            final(sys).settings == old(sys).settings,
            ({
                let note = old(sys).layout.note_of(event.index);
                let sent = old(sys).driver.sent_messages();
                &&& note == 0 ==> final(sys).driver.sent_messages() == sent
                &&& note != 0 ==> {
                    let v = final(sys).driver.sent_messages().last().1[2];
                    &&& final(sys).driver.sent_messages() == sent.push((MidiPort::Midi, seq![0x90u8, note, v]))
                    &&& !event.pressed ==> v == 0
                    &&& event.pressed && old(sys).settings.velocity_enabled == 0 ==> v == 127
                    &&& event.pressed && old(sys).settings.velocity_enabled != 0 ==> velocity_curve_result(
                        old(sys).settings.velocity_curve,
                        event.value,
                        v,
                    )
                }
            }),
            performance_played(*old(sys), *final(sys), event),
    {
        let note = sys.layout.xy_to_dr(event.index);
        if note == 0 {
            return;
        }
        let velocity: u8 = if event.pressed {
            if sys.settings.velocity_enabled != 0 {
                apply_velocity_curve(sys.settings.velocity_curve, event.value)
            } else {
                127
            }
        } else {
            0
        };
        let msg: [u8; 3] = [0x90, note, velocity];
        sys.send_midi(MidiPort::Midi, msg.as_slice());
        assert(msg@ =~= seq![0x90u8, note, velocity]);
    }

    /// Lights the pad of a note from the selected palette: note on and off
    /// by the layout, control change by index.
    pub fn on_midi(&mut self, sys: &mut Sys, event: MidiEvent)
        requires
            old(sys).wf(),
        ensures
            match performance_led_update(old(sys).layout.index_of(event.data1), event) {
                Some((index, velocity)) => final(sys).leds_now(
                    old(sys),
                    spec_set_raw6(
                        old(sys).leds@,
                        old(sys).driver.leds@,
                        old(sys).rotation.spec_to_raw(index),
                        spec_palette_rgb(&old(sys).settings, &old(sys).palettes, velocity),
                    ),
                ),
                None => final(sys).leds_now(old(sys), (old(sys).leds@, old(sys).driver.leds@)),
            },
            performance_lit(*old(sys), *final(sys), event),
    {
        if event.port != MidiPort::Midi {
            return;
        }
        let led_index = sys.layout.dr_to_xy(event.data1);
        let status_type = event.status & 0xf0;
        if status_type == 0x90 {
            if led_index != 0 {
                sys.led_set_palette(led_index, event.data2);
            }
        } else if status_type == 0x80 {
            if led_index != 0 {
                sys.led_set_palette(led_index, 0);
            }
        } else if event.status == 0xb0 {
            sys.led_set_palette(event.data1, event.data2);
        }
    }

    /// Sends the pad's pressure for its note, as the aftertouch mode says.
    pub fn on_aftertouch(&mut self, sys: &mut Sys, event: AftertouchEvent)
        requires
            old(sys).wf(),
        ensures
            final(sys).wf(),
            final(sys).leds@ == old(sys).leds@,
            final(sys).driver.leds@ == old(sys).driver.leds@,
            final(sys).settings == old(sys).settings,
            ({
                let note = old(sys).layout.note_of(event.index);
                final(sys).driver.sent_messages() == if note == 0 {
                    old(sys).driver.sent_messages()
                } else {
                    match aftertouch_message(old(sys).settings.aftertouch_mode, note, event.value) {
                        Some(m) => old(sys).driver.sent_messages().push((MidiPort::Midi, m)),
                        None => old(sys).driver.sent_messages(),
                    }
                }
            }),
            performance_pressure(*old(sys), *final(sys), event),
    {
        let note = sys.layout.xy_to_dr(event.index);
        if note == 0 {
            return;
        }
        send_aftertouch(sys, note, event.value);
    }
}

/// Which LED a MIDI message in performance mode lights (by the layout's
/// index of the note, `led_index`), and with which palette velocity.
pub open spec fn performance_led_update(led_index: u8, event: MidiEvent) -> Option<(u8, u8)> {
    if event.port != MidiPort::Midi {
        None
    } else if event.status & 0xf0 == 0x90 {
        if led_index != 0 { Some((led_index, event.data2)) } else { None }
    } else if event.status & 0xf0 == 0x80 {
        if led_index != 0 { Some((led_index, 0u8)) } else { None }
    } else if event.status == 0xb0 {
        Some((event.data1, event.data2))
    } else {
        None
    }
}

} // verus!
