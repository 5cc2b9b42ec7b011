use vstd::prelude::*;
use crate::events::{AftertouchEvent, SurfaceEvent};
use crate::launchpad_mk2::leds::{min_u8, rgb_to_6bit};
use super::inputs::{pads_from, switch_step, velocity_report, GridEvent, Inputs, PAD_COUNT, PAD_SENSOR_TO_INDEX, push_all_bounded};
use super::leds::{led_written, leds_upto, payload_index, raw_with_led, Leds};

verus! {

pub const GROUP_COUNT: usize = 4;
pub const SHIFT_BYTES_PER_SCAN: usize = 10;

/// Brightness bit shown in each of the six brightness steps.
pub const BRIGHT_BIT_ORDER: [usize; 6] = [0, 5, 1, 4, 2, 3];

/// First switch entry of each group.
pub const RAW_INDICES: [usize; 4] = [0, 9, 17, 25];

/// Order in which the ADC converts the 16 channels of a bank.
pub const ADC_SEQUENCE: [u8; 16] = [11, 10, 13, 12, 1, 0, 3, 2, 5, 4, 7, 6, 15, 14, 8, 9];

/// Agreeing VBUS samples needed before the power mode changes.
pub const VBUS_CONFIRM_SAMPLES: u8 = 3;

/// Largest reading of the 12-bit ADC.
pub const ADC_MAX_READING: u16 = 0xfff;

/// An input event as the apps receive it.
#[derive(Copy, Clone, PartialEq, Eq, Structural, Debug)]
pub enum AppInput {
    Surface(SurfaceEvent),
    Aftertouch(AftertouchEvent),
}

/// The app-level form of a pad or button event.
pub open spec fn spec_app_input(event: GridEvent) -> AppInput {
    match event {
        GridEvent::Press { index, value } => AppInput::Surface(SurfaceEvent { pressed: true, index, value }),
        GridEvent::Release { index } => AppInput::Surface(SurfaceEvent { pressed: false, index, value: 0 }),
        GridEvent::Aftertouch { index, value } => AppInput::Aftertouch(AftertouchEvent { index, value }),
    }
}

pub fn app_input(event: GridEvent) -> (r: AppInput)
    ensures
        r == spec_app_input(event),
{
    match event {
        GridEvent::Press { index, value } => AppInput::Surface(SurfaceEvent { pressed: true, index, value }),
        GridEvent::Release { index } => AppInput::Surface(SurfaceEvent { pressed: false, index, value: 0 }),
        GridEvent::Aftertouch { index, value } => AppInput::Aftertouch(AftertouchEvent { index, value }),
    }
}

/// Power mode for a VBUS level: 2 self-powered, 1 bus-powered.
pub fn power_mode_for(vbus_high: bool) -> (r: u8)
    ensures
        r == (if vbus_high { 2u8 } else { 1u8 }),
{
    if vbus_high {
        2
    } else {
        1
    }
}

/// ADC channels `0..n` packed 5 bits each, first channel lowest.
pub open spec fn spec_pack_sequence(channels: Seq<u8>, n: int) -> u32
    decreases n,
{
    if n <= 0 {
        0
    } else {
        spec_pack_sequence(channels, n - 1) | ((channels[n - 1] as u32) << ((5 * (n - 1)) as u32))
    }
}

/// Packs an ADC regular sequence, 5 bits per channel (so at most 7
/// channels fit the shift range).
pub fn pack_sequence(channels: &[u8]) -> (r: u32)
    requires
        channels@.len() <= 7,
    ensures
        r == spec_pack_sequence(channels@, channels@.len() as int),
{
    let mut value: u32 = 0;
    let mut index: usize = 0;
    while index < channels.len()
        invariant
            index <= channels@.len(),
            channels@.len() <= 7,
            value == spec_pack_sequence(channels@, index as int),
        decreases channels@.len() - index,
    {
        value = value | ((channels[index] as u32) << ((index * 5) as u32));
        index = index + 1;
    }
    value
}

/// A GPIO configuration register with the 4-bit mode of one pin (taken
/// modulo 8) replaced.
pub fn set_pin_mode(register: u32, pin: u8, mode: u32) -> (r: u32)
    ensures
        r == crate::launchpad_mk2::grid::spec_set_pin_mode(register, pin, mode),
{
    let shift = ((pin % 8) as u32) * 4;
    (register & !(0xf << shift)) | (mode << shift)
}

/// Surface scanning of the Launchpad Pro: pads and buttons, LEDs, and the
/// state of the scan, the ADC bank rotation and the VBUS filter.
pub struct Grid {
    pub inputs: Inputs,
    pub leds: Leds,
    pub selected_group: u8,
    pub selected_bit: u8,
    pub shift_tx: [u8; 10],
    pub shift_rx: [u8; 10],
    pub adc_bank: u8,
    pub adc_buffer: [u16; 16],
    pub setup_accum: bool,
    pub vbus_last_raw: bool,
    pub vbus_stable_count: u8,
    pub vbus_confirmed_high: bool,
}

/// Raw switch readings after one group's two shift-in bytes are decoded:
/// four entries from the top nibble of each byte (for group 0 the second
/// run skips the setup entry, 4), the setup button accumulated over the
/// groups and stored at group 3.
pub open spec fn switch_group_readings(readings: Seq<u8>, group: int, first: u8, second: u8, accum: bool) -> Seq<u8> {
    let base = RAW_INDICES[group] as int;
    let second_base = if group == 0 { base + 5 } else { base + 4 };
    let bit = |b: u8, k: int| if (b >> ((7 - k) as u8)) & 1 != 0 { 1u8 } else { 0u8 };
    let r1 = readings.update(base, bit(first, 0)).update(base + 1, bit(first, 1)).update(base + 2, bit(first, 2)).update(
        base + 3,
        bit(first, 3),
    );
    let r2 = if group == 3 { r1.update(4, if accum { 1u8 } else { 0u8 }) } else { r1 };
    r2.update(second_base, bit(second, 0)).update(second_base + 1, bit(second, 1)).update(
        second_base + 2,
        bit(second, 2),
    ).update(second_base + 3, bit(second, 3))
}

impl Grid {
    pub open spec fn wf(&self) -> bool {
        &&& self.inputs.wf()
        &&& self.selected_group < 4
        &&& self.selected_bit < 6
        &&& self.adc_bank < 4
        &&& self.vbus_stable_count <= VBUS_CONFIRM_SAMPLES
        &&& forall|i: int| 0 <= i < 64 ==> #[trigger] self.inputs.adc()[i] <= ADC_MAX_READING
        &&& forall|i: int| 0 <= i < 16 ==> #[trigger] self.adc_buffer@[i] <= ADC_MAX_READING
    }

    /// A grid in its power-up state, given the VBUS level read at start.
    pub fn new(initial_vbus_high: bool) -> (r: Self)
        ensures
            r.wf(),
            r.selected_group == 0,
            r.selected_bit == 0,
            r.adc_bank == 0,
            !r.setup_accum,
            r.vbus_last_raw == initial_vbus_high,
            r.vbus_stable_count == VBUS_CONFIRM_SAMPLES,
            r.vbus_confirmed_high == initial_vbus_high,
            r.inputs.events().len() == 0,
            r.shift_tx@ == Seq::new(10, |i: int| 0xffu8),
            r.shift_rx@ == Seq::new(10, |i: int| 0xffu8),
    {
        let r = Grid {
            inputs: Inputs::new(),
            leds: Leds::new(),
            selected_group: 0,
            selected_bit: 0,
            shift_tx: [0xff; 10],
            shift_rx: [0xff; 10],
            adc_bank: 0,
            adc_buffer: [0; 16],
            setup_accum: false,
            vbus_last_raw: initial_vbus_high,
            vbus_stable_count: VBUS_CONFIRM_SAMPLES,
            vbus_confirmed_high: initial_vbus_high,
        };
        assert(r.shift_tx@ =~= Seq::new(10, |i: int| 0xffu8));
        assert(r.shift_rx@ =~= Seq::new(10, |i: int| 0xffu8));
        r
    }

    pub fn poll_event(&mut self) -> (r: Option<GridEvent>)
        requires
            old(self).wf(),
        ensures
            final(self).wf(),
            final(self).inputs.same_but_events(&old(self).inputs),
            old(self).inputs.events().len() == 0 ==> r is None && final(self).inputs.events() == old(self).inputs.events(),
            old(self).inputs.events().len() > 0 ==> r == Some(old(self).inputs.events()[0])
                && final(self).inputs.events() == old(self).inputs.events().drop_first(),
    {
        self.inputs.poll_event()
    }

    pub fn set_led(&mut self, index: u8, color: u32)
        ensures
            ({
                let (r, g, b) = rgb_to_6bit(color);
                &&& (index as int) >= 100 ==> final(self).leds.payload() == old(self).leds.payload() && final(self).leds.raw() == old(self).leds.raw()
                &&& (index as int) < 100 ==> {
                    let raw = raw_with_led(old(self).leds.raw(), index as int, r, g, b);
                    &&& final(self).leds.raw() == raw
                    &&& final(self).leds.payload() == led_written(old(self).leds.payload(), raw, old(self).leds.level(), index as int)
                }
            }),
            final(self).leds.level() == old(self).leds.level(),
    {
        self.leds.set_led(index, color);
    }

    pub fn set_led_rgb(&mut self, index: u8, r: u8, g: u8, b: u8)
        ensures
            (index as int) >= 100 ==> final(self).leds.payload() == old(self).leds.payload() && final(self).leds.raw() == old(self).leds.raw(),
            (index as int) < 100 ==> {
                let raw = raw_with_led(old(self).leds.raw(), index as int, r, g, b);
                &&& final(self).leds.raw() == raw
                &&& final(self).leds.payload() == led_written(old(self).leds.payload(), raw, old(self).leds.level(), index as int)
            },
            final(self).leds.level() == old(self).leds.level(),
    {
        self.leds.set_led_rgb(index, r, g, b);
    }

    pub fn fill(&mut self, color: u32)
        ensures
            ({
                let (r, g, b) = rgb_to_6bit(color);
                let raw = Seq::new(
                    300,
                    |i: int| if i < 100 { min_u8(r, 0x3f) } else if i < 200 { min_u8(g, 0x3f) } else { min_u8(b, 0x3f) },
                );
                &&& final(self).leds.raw() == raw
                &&& final(self).leds.payload() == leds_upto(old(self).leds.payload(), raw, old(self).leds.level(), 100)
            }),
            final(self).leds.level() == old(self).leds.level(),
    {
        self.leds.fill(color);
    }

    pub fn brightness(&self) -> (r: u8)
        ensures
            r == self.leds.level(),
    {
        self.leds.brightness()
    }

    pub fn set_brightness(&mut self, brightness: u8)
        ensures
            final(self).leds.level() == min_u8(brightness, 7),
            final(self).leds.raw() == old(self).leds.raw(),
            final(self).leds.payload() == leds_upto(Seq::new(240, |i: int| 0xffu8), old(self).leds.raw(), min_u8(brightness, 7), 100),
    {
        self.leds.set_brightness(brightness);
    }

    /// Reports a pad's velocity (see `Inputs::capture_pad_velocity`).
    pub fn capture_pad_velocity(&mut self, sensor: usize, value: u8)
        requires
            old(self).wf(),
        ensures
            final(self).wf(),
            sensor >= PAD_COUNT ==> final(self).inputs.pads() == old(self).inputs.pads()
                && final(self).inputs.events() == old(self).inputs.events(),
            sensor < PAD_COUNT ==> {
                let (q, ev) = velocity_report(old(self).inputs.pads()[sensor as int], PAD_SENSOR_TO_INDEX[sensor as int], value);
                &&& final(self).inputs.pads() == old(self).inputs.pads().update(sensor as int, q)
                &&& final(self).inputs.events() == push_all_bounded(old(self).inputs.events(), ev)
            },
    {
        self.inputs.capture_pad_velocity(sensor, value);
    }

    /// Reports a pad's aftertouch (see `Inputs::capture_pad_aftertouch`).
    pub fn capture_pad_aftertouch(&mut self, sensor: usize, value: u8)
        requires
            old(self).wf(),
        ensures
            final(self).wf(),
            final(self).inputs.same_but_events(&old(self).inputs),
            sensor >= PAD_COUNT ==> final(self).inputs.events() == old(self).inputs.events(),
            sensor < PAD_COUNT ==> final(self).inputs.events() == push_all_bounded(
                old(self).inputs.events(),
                seq![GridEvent::Aftertouch { index: PAD_SENSOR_TO_INDEX[sensor as int], value }],
            ),
    {
        self.inputs.capture_pad_aftertouch(sensor, value);
    }

    /// Debounces one side-button reading (see `Inputs::capture_switch_entry`).
    pub fn capture_switch_entry(&mut self, entry: usize, pressed: bool)
        requires
            old(self).wf(),
        ensures
            final(self).wf(),
            (final(self).inputs.switch_states(), final(self).inputs.events()) == switch_step(
                old(self).inputs.switch_states(),
                old(self).inputs.events(),
                entry as int,
                pressed,
            ),
    {
        self.inputs.capture_switch_entry(entry, pressed);
    }

    /// Blank phase: prepares the payload of the group and brightness bit
    /// about to be lit.
    pub fn blank_phase(&mut self)
        requires
            old(self).wf(),
        ensures
            final(self).wf(),
            ({
                let bit = BRIGHT_BIT_ORDER[old(self).selected_bit as int] as int;
                let g = old(self).selected_group as int;
                final(self).shift_tx@ == old(self).leds.payload().subrange(payload_index(g, bit, 0), payload_index(g, bit, 10))
            }),
            final(self).selected_group == old(self).selected_group,
            final(self).selected_bit == old(self).selected_bit,
            final(self).shift_rx@ == old(self).shift_rx@,
            final(self).inputs.unchanged_from(&old(self).inputs),
    {
        let mut payload = self.shift_tx;
        self.leds.build_group_payload(
            self.selected_group as usize,
            BRIGHT_BIT_ORDER[self.selected_bit as usize],
            &mut payload,
        );
        self.shift_tx = payload;
    }

    /// Records the bytes the shift transfer read back.
    pub fn set_shift_rx(&mut self, rx: [u8; 10])
        requires
            old(self).wf(),
        ensures
            final(self).wf(),
            final(self).shift_rx@ == rx@,
            final(self).selected_group == old(self).selected_group,
            final(self).selected_bit == old(self).selected_bit,
            final(self).setup_accum == old(self).setup_accum,
            final(self).inputs.unchanged_from(&old(self).inputs),
    {
        self.shift_rx = rx;
    }

    /// Bright phase: on the first brightness bit of a frame, decodes the
    /// switches read back for the lit group; then steps the scan and
    /// returns the brightness step now lit.
    pub fn bright_phase(&mut self) -> (r: u8)
        requires
            old(self).wf(),
        ensures
            final(self).wf(),
            r == old(self).selected_bit,
            r < 6,
            final(self).selected_group == (old(self).selected_group + 1) % 4,
            final(self).selected_bit == (if final(self).selected_group == 0 {
                (old(self).selected_bit + 1) % 6
            } else {
                old(self).selected_bit as int
            }),
            old(self).selected_bit == 0 ==> {
                let g = old(self).selected_group as int;
                let accum = old(self).setup_accum || (old(self).shift_rx@[0] >> 3u8) & 1 != 0;
                &&& final(self).inputs.switch_readings() == switch_group_readings(
                    old(self).inputs.switch_readings(),
                    g,
                    old(self).shift_rx@[0],
                    old(self).shift_rx@[1],
                    accum,
                )
                &&& final(self).setup_accum == (accum && g != 3)
            },
            old(self).selected_bit != 0 ==> final(self).inputs.unchanged_from(&old(self).inputs) && final(self).setup_accum
                == old(self).setup_accum,
            final(self).inputs.pads() == old(self).inputs.pads(),
            final(self).inputs.events() == old(self).inputs.events(),
            final(self).inputs.switch_states() == old(self).inputs.switch_states(),
    {
        let bright_step = self.selected_bit;
        if self.selected_bit == 0 {
            self.capture_switch_group(self.selected_group as usize);
        }
        self.advance_scan();
        bright_step
    }

    fn advance_scan(&mut self)
        requires
            old(self).wf(),
        ensures
            final(self).wf(),
            final(self).selected_group == (old(self).selected_group + 1) % 4,
            final(self).selected_bit == (if final(self).selected_group == 0 {
                (old(self).selected_bit + 1) % 6
            } else {
                old(self).selected_bit as int
            }),
            final(self).inputs.unchanged_from(&old(self).inputs),
            final(self).setup_accum == old(self).setup_accum,
    {
        self.selected_group = (self.selected_group + 1) % (GROUP_COUNT as u8);
        if self.selected_group == 0 {
            self.selected_bit = self.selected_bit + 1;
            if self.selected_bit >= 6 {
                self.selected_bit = 0;
            }
        }
    }

    fn capture_switch_group(&mut self, group: usize)
        requires
            old(self).wf(),
            group < 4,
        ensures
            final(self).wf(),
            ({
                let accum = old(self).setup_accum || (old(self).shift_rx@[0] >> 3u8) & 1 != 0;
                &&& final(self).inputs.switch_readings() == switch_group_readings(
                    old(self).inputs.switch_readings(),
                    group as int,
                    old(self).shift_rx@[0],
                    old(self).shift_rx@[1],
                    accum,
                )
                &&& final(self).setup_accum == (accum && group != 3)
            }),
            final(self).inputs.pads() == old(self).inputs.pads(),
            final(self).inputs.adc() == old(self).inputs.adc(),
            final(self).inputs.events() == old(self).inputs.events(),
            final(self).inputs.switch_states() == old(self).inputs.switch_states(),
            final(self).selected_group == old(self).selected_group,
            final(self).selected_bit == old(self).selected_bit,
    {
        let raw_base = RAW_INDICES[group];
        let first = self.shift_rx[0];
        let second = self.shift_rx[1];
        self.inputs.set_switch_raw(raw_base, (first >> 7) & 1 != 0);
        self.inputs.set_switch_raw(raw_base + 1, (first >> 6) & 1 != 0);
        self.inputs.set_switch_raw(raw_base + 2, (first >> 5) & 1 != 0);
        self.inputs.set_switch_raw(raw_base + 3, (first >> 4) & 1 != 0);
        if (first >> 3) & 1 != 0 {
            self.setup_accum = true;
        }
        let second_base = if group == 0 { raw_base + 5 } else { raw_base + 4 };
        if group == 3 {
            self.inputs.set_switch_raw(4, self.setup_accum);
            self.setup_accum = false;
        }
        self.inputs.set_switch_raw(second_base, (second >> 7) & 1 != 0);
        self.inputs.set_switch_raw(second_base + 1, (second >> 6) & 1 != 0);
        self.inputs.set_switch_raw(second_base + 2, (second >> 5) & 1 != 0);
        self.inputs.set_switch_raw(second_base + 3, (second >> 4) & 1 != 0);
        proof {
            let accum = old(self).setup_accum || (first >> 3u8) & 1 != 0;
            assert(self.inputs.switch_readings() =~= switch_group_readings(
                old(self).inputs.switch_readings(),
                group as int,
                first,
                second,
                accum,
            ));
        }
    }

    /// Records the 16 readings the ADC transfer produced for the current
    /// bank.
    pub fn set_adc_buffer(&mut self, samples: [u16; 16])
        requires
            old(self).wf(),
            forall|i: int| 0 <= i < 16 ==> samples@[i] <= ADC_MAX_READING,
        ensures
            final(self).wf(),
            final(self).adc_buffer@ == samples@,
            final(self).adc_bank == old(self).adc_bank,
            final(self).inputs.unchanged_from(&old(self).inputs),
    {
        self.adc_buffer = samples;
    }

    /// Stores the bank just converted, moves to the next bank, and after
    /// the last bank updates every pad's peak.
    pub fn collect_adc_scan(&mut self)
        requires
            old(self).wf(),
        ensures
            final(self).wf(),
            final(self).adc_bank == (old(self).adc_bank + 1) % 4,
            ({
                let b = old(self).adc_bank as int;
                final(self).inputs.adc() == old(self).inputs.adc().take(b * 16) + old(self).adc_buffer@
                    + old(self).inputs.adc().skip(b * 16 + 16)
            }),
            final(self).adc_bank != 0 ==> final(self).inputs.pads() == old(self).inputs.pads(),
            final(self).adc_bank == 0 ==> forall|s: int| 0 <= s < 64 ==> {
                let v = ((final(self).inputs.adc()[super::inputs::PADADC[s] as int] + 2) / 4) as u16;
                let p = old(self).inputs.pads()[s];
                #[trigger] final(self).inputs.pads()[s] == (if p.adc_max < v {
                    super::inputs::PadState { adc_max: v, ..p }
                } else {
                    p
                })
            },
            final(self).inputs.events() == old(self).inputs.events(),
            final(self).inputs.switch_readings() == old(self).inputs.switch_readings(),
            final(self).inputs.switch_states() == old(self).inputs.switch_states(),
            final(self).vbus_last_raw == old(self).vbus_last_raw,
            final(self).vbus_stable_count == old(self).vbus_stable_count,
            final(self).vbus_confirmed_high == old(self).vbus_confirmed_high,
            final(self).selected_group == old(self).selected_group,
            final(self).selected_bit == old(self).selected_bit,
    {
        let buffer = self.adc_buffer;
        self.inputs.capture_adc_bank(self.adc_bank as usize, &buffer);
        proof {
            let b = old(self).adc_bank as int;
            assert forall|i: int| 0 <= i < 64 implies #[trigger] self.inputs.adc()[i] <= ADC_MAX_READING by {
                if b * 16 <= i < b * 16 + 16 {
                    assert(buffer@[i - b * 16] <= ADC_MAX_READING);
                } else {
                    assert(old(self).inputs.adc()[i] <= ADC_MAX_READING);
                }
            }
        }
        let next: u8 = self.adc_bank + 1;
        proof {
            crate::bits::lemma_u8_bits(next);
        }
        self.adc_bank = next & 3;
        if self.adc_bank == 0 {
            self.inputs.accumulate_adc_max();
        }
    }

    /// VBUS filter: a new level counts once three samples in a row agree;
    /// returns the power mode to switch to when the confirmed level changes.
    pub fn poll_power_mode(&mut self, raw: bool) -> (r: Option<u8>)
        requires
            old(self).wf(),
        ensures
            final(self).wf(),
            final(self).vbus_last_raw == raw,
            final(self).vbus_stable_count == (if raw == old(self).vbus_last_raw {
                if old(self).vbus_stable_count < VBUS_CONFIRM_SAMPLES {
                    old(self).vbus_stable_count + 1
                } else {
                    old(self).vbus_stable_count as int
                }
            } else {
                1
            }),
            ({
                let confirm = final(self).vbus_stable_count >= VBUS_CONFIRM_SAMPLES && old(self).vbus_confirmed_high != raw;
                &&& final(self).vbus_confirmed_high == (if confirm { raw } else { old(self).vbus_confirmed_high })
                &&& r == (if confirm { Some(if raw { 2u8 } else { 1u8 }) } else { None })
            }),
            final(self).inputs.unchanged_from(&old(self).inputs),
            final(self).selected_group == old(self).selected_group,
            final(self).selected_bit == old(self).selected_bit,
            final(self).adc_bank == old(self).adc_bank,
    {
        if raw == self.vbus_last_raw {
            if self.vbus_stable_count < VBUS_CONFIRM_SAMPLES {
                self.vbus_stable_count = self.vbus_stable_count + 1;
            }
        } else {
            self.vbus_last_raw = raw;
            self.vbus_stable_count = 1;
        }
        if self.vbus_stable_count >= VBUS_CONFIRM_SAMPLES && self.vbus_confirmed_high != raw {
            self.vbus_confirmed_high = raw;
            return Some(power_mode_for(raw));
        }
        None
    }

    /// The 1 kHz task: takes the ADC bank just converted, debounces the
    /// side buttons and filters VBUS; returns a power mode to apply, if the
    /// confirmed VBUS level changed.
    pub fn tick_1khz_collect(&mut self, vbus_raw: bool) -> (r: Option<u8>)
        requires
            old(self).wf(),
        ensures
            final(self).wf(),
            final(self).adc_bank == (old(self).adc_bank + 1) % 4,
            ({
                let b = old(self).adc_bank as int;
                final(self).inputs.adc() == old(self).inputs.adc().take(b * 16) + old(self).adc_buffer@
                    + old(self).inputs.adc().skip(b * 16 + 16)
            }),
            final(self).adc_bank != 0 ==> final(self).inputs.pads() == old(self).inputs.pads(),
            final(self).adc_bank == 0 ==> forall|s: int| 0 <= s < 64 ==> {
                let v = ((final(self).inputs.adc()[super::inputs::PADADC[s] as int] + 2) / 4) as u16;
                let p = old(self).inputs.pads()[s];
                #[trigger] final(self).inputs.pads()[s] == (if p.adc_max < v {
                    super::inputs::PadState { adc_max: v, ..p }
                } else {
                    p
                })
            },
            final(self).inputs.switch_readings() == old(self).inputs.switch_readings(),
            (final(self).inputs.switch_states(), final(self).inputs.events()) == super::inputs::switches_from(
                old(self).inputs.switch_states(),
                old(self).inputs.events(),
                old(self).inputs.switch_readings(),
                0,
            ),
            final(self).vbus_last_raw == vbus_raw,
            final(self).vbus_stable_count == (if vbus_raw == old(self).vbus_last_raw {
                if old(self).vbus_stable_count < VBUS_CONFIRM_SAMPLES {
                    old(self).vbus_stable_count + 1
                } else {
                    old(self).vbus_stable_count as int
                }
            } else {
                1
            }),
            ({
                let confirm = final(self).vbus_stable_count >= VBUS_CONFIRM_SAMPLES && old(self).vbus_confirmed_high != vbus_raw;
                &&& final(self).vbus_confirmed_high == (if confirm { vbus_raw } else { old(self).vbus_confirmed_high })
                &&& r == (if confirm { Some(if vbus_raw { 2u8 } else { 1u8 }) } else { None })
            }),
            final(self).selected_group == old(self).selected_group,
            final(self).selected_bit == old(self).selected_bit,
    {
        self.collect_adc_scan();
        self.inputs.tick_1khz();
        self.poll_power_mode(vbus_raw)
    }

    /// The 200 Hz task: steps every pad's state machine.
    pub fn tick_200hz(&mut self)
        requires
            old(self).wf(),
        ensures
            final(self).wf(),
            (final(self).inputs.pads(), final(self).inputs.events()) == pads_from(
                old(self).inputs.pads(),
                old(self).inputs.events(),
                0,
            ),
    {
        self.inputs.tick_200hz();
    }
}

/// The millisecond count toward the 200 Hz pad step: the next count
/// (modulo 5), and whether the pads step on this millisecond.
pub fn divide_to_200hz(divider: u8) -> (r: (u8, bool))
    requires
        divider < 5,
    ensures
        r.0 == (divider + 1) % 5,
        r.1 == (r.0 == 0),
{
    let next = (divider + 1) % 5;
    (next, next == 0)
}

} // verus!
