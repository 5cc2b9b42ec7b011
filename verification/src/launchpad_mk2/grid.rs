use vstd::prelude::*;
use crate::events::SurfaceEvent;
use super::inputs::{decode_from, GridEvent, Inputs, BUTTON_TO_SURFACE_INDEX};
use super::leds::{
    min_u8, raw_with_key, rgb_to_6bit, scaled_key, scaled_upto, spec_group_payload, spec_key_from_index,
    Leds,
};

verus! {

pub const GROUP_COUNT: usize = 4;
pub const BRIGHT_STEPS: u8 = 6;

/// Brightness bit shown in each of the six brightness steps.
pub const BRIGHT_BIT_ORDER: [usize; 6] = [0, 5, 1, 4, 2, 3];

/// Order in which the groups are selected, one row per bank.
pub const GROUP_ORDER: [[u8; 4]; 4] = [[0, 1, 2, 3], [1, 2, 3, 0], [2, 3, 0, 1], [3, 0, 1, 2]];

/// Timer ticks each brightness step stays lit, on USB power.
pub const BRIGHT_TIMES_USB_POWER: [u16; 6] = [2, 374, 14, 182, 38, 86];
pub const BLANK_PHASE_TICKS: u16 = 20;
pub const SHIFT_SETTLE_TICKS: u16 = 2;
pub const MIN_IRQ_INTERVAL_TICKS: u16 = 2;

/// Buttons are read back during brightness steps 1, 3 and 5.
pub open spec fn spec_is_button_capture_slot(slot: u8) -> bool {
    slot == 1 || slot == 3 || slot == 5
}

pub fn is_button_capture_slot(slot: u8) -> (r: bool)
    ensures
        r == spec_is_button_capture_slot(slot),
{
    assert(((slot & 0xfd) == 1) == (slot == 1 || slot == 3)) by (bit_vector);
    ((slot & 0xfd) == 1) || slot == 5
}

/// A GPIO configuration register with the 4-bit mode of one pin (taken
/// modulo 8) replaced.
pub open spec fn spec_set_pin_mode(register: u32, pin: u8, mode: u32) -> u32 {
    let shift = ((pin % 8) * 4) as u32;
    (register & !(0xfu32 << shift)) | (mode << shift)
}

pub fn set_pin_mode(register: u32, pin: u8, mode: u32) -> (r: u32)
    ensures
        r == spec_set_pin_mode(register, pin, mode),
{
    let shift = ((pin % 8) as u32) * 4;
    (register & !(0xf << shift)) | (mode << shift)
}

/// The timer reload for a delay, at least the shortest interrupt interval.
pub fn timer_arr_from_ticks(ticks: u16) -> (r: u16)
    ensures
        r == (if ticks < MIN_IRQ_INTERVAL_TICKS { MIN_IRQ_INTERVAL_TICKS } else { ticks }),
{
    if ticks < MIN_IRQ_INTERVAL_TICKS {
        MIN_IRQ_INTERVAL_TICKS
    } else {
        ticks
    }
}

/// Delay after one phase of the three-phase scan interrupt: blanking,
/// shifting, then a brightness step lit for its own time.
pub fn surface_phase_delay(phase: u8, bright_step: u8) -> (r: u16)
    requires
        phase >= 2 ==> bright_step < BRIGHT_STEPS,
    ensures
        phase == 0 ==> r == BLANK_PHASE_TICKS,
        phase == 1 ==> r == SHIFT_SETTLE_TICKS,
        phase >= 2 ==> r == BRIGHT_TIMES_USB_POWER[bright_step as int],
{
    if phase == 0 {
        BLANK_PHASE_TICKS
    } else if phase == 1 {
        SHIFT_SETTLE_TICKS
    } else {
        BRIGHT_TIMES_USB_POWER[bright_step as usize]
    }
}

/// The next phase of the three-phase scan interrupt.
pub fn next_surface_phase(phase: u8) -> (r: u8)
    requires
        phase < 3,
    ensures
        r == (phase + 1) % 3,
{
    (phase + 1) % 3
}

/// The GPIOB set/reset word that pulls one group's select line low: PB0,
/// PB1, PB2, or PB10 for any other group.
pub fn select_group_bits(group: u8) -> (r: u32)
    ensures
        r == (if group == 0 { 0x1_0000u32 } else if group == 1 { 0x2_0000u32 } else if group == 2 { 0x4_0000u32 } else { 0x400_0000u32 }),
{
    if group == 0 {
        0x1_0000
    } else if group == 1 {
        0x2_0000
    } else if group == 2 {
        0x4_0000
    } else {
        0x400_0000
    }
}

/// Surface event for a key event; `None` for a key without a surface index.
pub open spec fn spec_surface_event(event: GridEvent) -> Option<SurfaceEvent> {
    match event {
        GridEvent::Press { index, value } => if (index as int) < 80 {
            Some(SurfaceEvent { pressed: true, index: BUTTON_TO_SURFACE_INDEX[index as int], value })
        } else {
            None
        },
        GridEvent::Release { index } => if (index as int) < 80 {
            Some(SurfaceEvent { pressed: false, index: BUTTON_TO_SURFACE_INDEX[index as int], value: 0 })
        } else {
            None
        },
    }
}

pub fn surface_event(event: GridEvent) -> (r: Option<SurfaceEvent>)
    ensures
        r == spec_surface_event(event),
{
    match event {
        GridEvent::Press { index, value } => {
            if index as usize >= 80 {
                return None;
            }
            Some(SurfaceEvent { pressed: true, index: BUTTON_TO_SURFACE_INDEX[index as usize], value })
        },
        GridEvent::Release { index } => {
            if index as usize >= 80 {
                return None;
            }
            Some(SurfaceEvent { pressed: false, index: BUTTON_TO_SURFACE_INDEX[index as usize], value: 0 })
        },
    }
}

/// Position of the LED/button scan after one step: the group phase runs
/// through 4 groups, then the next brightness bit; after 6 bits the next
/// bank rotates the group order.
pub open spec fn spec_advance(bank: u8, bit: u8, phase: u8) -> (u8, u8, u8) {
    if phase + 1 < 4 {
        (bank, bit, (phase + 1) as u8)
    } else if bit + 1 < 6 {
        (bank, (bit + 1) as u8, 0u8)
    } else {
        (((bank + 1) % 4) as u8, 0u8, 0u8)
    }
}

/// Surface scanning of the Launchpad MK2: keys, LEDs and the state of the
/// multiplexed scan that drives both.
pub struct Grid {
    pub inputs: Inputs,
    pub leds: Leds,
    pub selected_group: u8,
    pub selected_bit: u8,
    pub group_bank: u8,
    pub group_phase: u8,
    pub button_capture_group: u8,
    pub button_capture_pending: bool,
    pub shift_tx: [u8; 8],
    pub shift_rx: [u8; 8],
    pub button_raw: [u8; 32],
}

impl Grid {
    pub open spec fn wf(&self) -> bool {
        &&& self.selected_group < 4
        &&& self.selected_bit < 6
        &&& self.group_bank < 4
        &&& self.group_phase < 4
        &&& self.button_capture_group < 4
        &&& self.selected_group == GROUP_ORDER[self.group_bank as int][self.group_phase as int]
    }

    pub fn new() -> (r: Self)
        ensures
            r.wf(),
            r.selected_group == 0,
            r.selected_bit == 0,
            r.group_bank == 0,
            r.group_phase == 0,
            !r.button_capture_pending,
            r.shift_tx@ == Seq::new(8, |i: int| 0xffu8),
            r.shift_rx@ == Seq::new(8, |i: int| 0xffu8),
            r.button_raw@ == Seq::new(32, |i: int| 0u8),
            r.inputs.events().len() == 0,
            r.leds.level() == 7,
    {
        let r = Grid {
            inputs: Inputs::new(),
            leds: Leds::new(),
            selected_group: 0,
            selected_bit: 0,
            group_bank: 0,
            group_phase: 0,
            button_capture_group: 0,
            button_capture_pending: false,
            shift_tx: [0xff; 8],
            shift_rx: [0xff; 8],
            button_raw: [0; 32],
        };
        assert(r.shift_tx@ =~= Seq::new(8, |i: int| 0xffu8));
        assert(r.shift_rx@ =~= Seq::new(8, |i: int| 0xffu8));
        assert(r.button_raw@ =~= Seq::new(32, |i: int| 0u8));
        r
    }

    pub fn poll_event(&mut self) -> (r: Option<GridEvent>)
        ensures
            old(self).inputs.events().len() == 0 ==> r is None && final(self).inputs.events() == old(self).inputs.events(),
            old(self).inputs.events().len() > 0 ==> r == Some(old(self).inputs.events()[0])
                && final(self).inputs.events() == old(self).inputs.events().drop_first(),
            final(self).inputs.debounce_states() == old(self).inputs.debounce_states(),
    {
        self.inputs.poll_event()
    }

    pub fn set_led(&mut self, index: u8, color: u32)
        ensures
            ({
                let (r, g, b) = rgb_to_6bit(color);
                match spec_key_from_index(index) {
                    Some(key) => {
                        let raw = raw_with_key(old(self).leds.raw(), key as int, r, g, b);
                        &&& final(self).leds.raw() == raw
                        &&& final(self).leds.plane() == scaled_key(old(self).leds.plane(), raw, old(self).leds.level(), key as int)
                    },
                    None => final(self).leds.plane() == old(self).leds.plane() && final(self).leds.raw() == old(self).leds.raw(),
                }
            }),
            final(self).leds.level() == old(self).leds.level(),
    {
        self.leds.set_led(index, color);
    }

    pub fn set_led_rgb(&mut self, index: u8, r: u8, g: u8, b: u8)
        ensures
            match spec_key_from_index(index) {
                Some(key) => {
                    let raw = raw_with_key(old(self).leds.raw(), key as int, r, g, b);
                    &&& final(self).leds.raw() == raw
                    &&& final(self).leds.plane() == scaled_key(old(self).leds.plane(), raw, old(self).leds.level(), key as int)
                },
                None => final(self).leds.plane() == old(self).leds.plane() && final(self).leds.raw() == old(self).leds.raw(),
            },
            final(self).leds.level() == old(self).leds.level(),
    {
        self.leds.set_led_rgb(index, r, g, b);
    }

    pub fn fill(&mut self, color: u32)
        ensures
            ({
                let (r, g, b) = rgb_to_6bit(color);
                let raw = Seq::new(
                    240,
                    |i: int| if i < 80 { min_u8(r, 0x3f) } else if i < 160 { min_u8(g, 0x3f) } else { min_u8(b, 0x3f) },
                );
                &&& final(self).leds.raw() == raw
                &&& final(self).leds.plane() == scaled_upto(old(self).leds.plane(), raw, old(self).leds.level(), 80)
            }),
            final(self).leds.level() == old(self).leds.level(),
    {
        self.leds.fill(color);
    }

    pub fn brightness(&self) -> (r: u8)
        ensures
            r == self.leds.level(),
    {
        self.leds.brightness()
    }

    pub fn set_brightness(&mut self, brightness: u8)
        ensures
            final(self).leds.level() == min_u8(brightness, 7),
            final(self).leds.raw() == old(self).leds.raw(),
            final(self).leds.plane() == scaled_upto(old(self).leds.plane(), old(self).leds.raw(), min_u8(brightness, 7), 80),
    {
        self.leds.set_brightness(brightness);
    }

    /// Steps the scan to its next group, brightness bit and bank.
    fn advance_scan(&mut self)
        requires
            old(self).wf(),
        ensures
            final(self).wf(),
            (final(self).group_bank, final(self).selected_bit, final(self).group_phase) == spec_advance(
                old(self).group_bank,
                old(self).selected_bit,
                old(self).group_phase,
            ),
            final(self).button_capture_group == old(self).button_capture_group,
            final(self).button_capture_pending == old(self).button_capture_pending,
            final(self).shift_tx@ == old(self).shift_tx@,
            final(self).shift_rx@ == old(self).shift_rx@,
            final(self).button_raw@ == old(self).button_raw@,
            final(self).leds.plane() == old(self).leds.plane(),
    {
        self.group_phase = self.group_phase + 1;
        if self.group_phase as usize == GROUP_COUNT {
            self.group_phase = 0;
            self.selected_bit = self.selected_bit + 1;
            if self.selected_bit >= 6 {
                self.selected_bit = 0;
                let next_bank: u8 = self.group_bank + 1;
                proof {
                    crate::bits::lemma_u8_bits(next_bank);
                }
                self.group_bank = next_bank & 3;
            }
        }
        self.selected_group = GROUP_ORDER[self.group_bank as usize][self.group_phase as usize];
    }

    /// Blanking phase: decides whether the group now lit is read back,
    /// steps the scan, and prepares the LED payload of the next step.
    pub fn blank_phase(&mut self)
        requires
            old(self).wf(),
        ensures
            final(self).wf(),
            final(self).button_capture_pending == spec_is_button_capture_slot(old(self).selected_bit),
            final(self).button_capture_group == (if spec_is_button_capture_slot(old(self).selected_bit) {
                old(self).selected_group
            } else {
                old(self).button_capture_group
            }),
            (final(self).group_bank, final(self).selected_bit, final(self).group_phase) == spec_advance(
                old(self).group_bank,
                old(self).selected_bit,
                old(self).group_phase,
            ),
            final(self).shift_tx@ == spec_group_payload(
                final(self).leds.plane(),
                final(self).selected_group as usize,
                BRIGHT_BIT_ORDER[final(self).selected_bit as int],
            ),
            final(self).shift_rx@ == old(self).shift_rx@,
            final(self).button_raw@ == old(self).button_raw@,
            final(self).leds.plane() == old(self).leds.plane(),
    {
        self.button_capture_pending = is_button_capture_slot(self.selected_bit);
        if self.button_capture_pending {
            self.button_capture_group = self.selected_group;
        }
        self.advance_scan();
        let mut payload: [u8; 8] = self.shift_tx;
        self.leds.build_group_payload(
            self.selected_group as usize,
            BRIGHT_BIT_ORDER[self.selected_bit as usize],
            &mut payload,
        );
        self.shift_tx = payload;
    }

    /// Records the bytes the shift phase read back.
    pub fn set_shift_rx(&mut self, rx: [u8; 8])
        ensures
            final(self).shift_rx@ == rx@,
            final(self).shift_tx@ == old(self).shift_tx@,
            final(self).button_raw@ == old(self).button_raw@,
            final(self).selected_group == old(self).selected_group,
            final(self).selected_bit == old(self).selected_bit,
            final(self).group_bank == old(self).group_bank,
            final(self).group_phase == old(self).group_phase,
            final(self).button_capture_group == old(self).button_capture_group,
            final(self).button_capture_pending == old(self).button_capture_pending,
    {
        self.shift_rx = rx;
    }

    /// Lighting phase: stores the buttons read back for the captured group,
    /// when due, and returns the brightness step now lit.
    pub fn bright_phase(&mut self) -> (r: u8)
        requires
            old(self).wf(),
        ensures
            final(self).wf(),
            r == old(self).selected_bit,
            r < BRIGHT_STEPS,
            !final(self).button_capture_pending,
            old(self).button_capture_pending ==> {
                let base = old(self).button_capture_group * 8;
                final(self).button_raw@ == old(self).button_raw@.take(base) + old(self).shift_rx@
                    + old(self).button_raw@.skip(base + 8)
            },
            !old(self).button_capture_pending ==> final(self).button_raw@ == old(self).button_raw@,
            final(self).selected_group == old(self).selected_group,
            final(self).selected_bit == old(self).selected_bit,
            final(self).group_bank == old(self).group_bank,
            final(self).group_phase == old(self).group_phase,
    {
        let bright_step = self.selected_bit;
        if self.button_capture_pending {
            self.capture_selected_group_buttons();
            self.button_capture_pending = false;
        }
        bright_step
    }

    fn capture_selected_group_buttons(&mut self)
        requires
            old(self).wf(),
        ensures
            final(self).wf(),
            ({
                let base = old(self).button_capture_group * 8;
                final(self).button_raw@ == old(self).button_raw@.take(base) + old(self).shift_rx@
                    + old(self).button_raw@.skip(base + 8)
            }),
            final(self).shift_rx@ == old(self).shift_rx@,
            final(self).selected_group == old(self).selected_group,
            final(self).selected_bit == old(self).selected_bit,
            final(self).group_bank == old(self).group_bank,
            final(self).group_phase == old(self).group_phase,
            final(self).button_capture_group == old(self).button_capture_group,
            final(self).button_capture_pending == old(self).button_capture_pending,
    {
        let base = self.button_capture_group as usize * 8;
        let mut i: usize = 0;
        while i < 8
            invariant
                base == old(self).button_capture_group * 8,
                base + 8 <= 32,
                i <= 8,
                self.shift_rx@ == old(self).shift_rx@,
                self.selected_group == old(self).selected_group,
                self.selected_bit == old(self).selected_bit,
                self.group_bank == old(self).group_bank,
                self.group_phase == old(self).group_phase,
                self.button_capture_group == old(self).button_capture_group,
                self.button_capture_pending == old(self).button_capture_pending,
                forall|k: int| 0 <= k < 32 && !(base <= k < base + i) ==> self.button_raw@[k] == old(self).button_raw@[k],
                forall|k: int| 0 <= k < i ==> self.button_raw@[base + k] == self.shift_rx@[k],
            decreases 8 - i,
        {
            self.button_raw[base + i] = self.shift_rx[i];
            i = i + 1;
        }
        assert(self.button_raw@ =~= old(self).button_raw@.take(base as int) + old(self).shift_rx@
            + old(self).button_raw@.skip(base + 8));
    }

    /// The millisecond task: runs the last full button scan through the
    /// debouncers.
    pub fn tick_1khz(&mut self)
        ensures
            (final(self).inputs.debounce_states(), final(self).inputs.events()) == decode_from(
                old(self).inputs.debounce_states(),
                old(self).inputs.events(),
                old(self).button_raw@,
                0,
            ),
            final(self).button_raw@ == old(self).button_raw@,
    {
        let raw = self.button_raw;
        self.inputs.decode_buttons(&raw);
    }
}

} // verus!
