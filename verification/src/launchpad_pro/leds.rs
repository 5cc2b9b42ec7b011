use vstd::prelude::*;
use crate::launchpad_mk2::leds::{apply_led_brightness, min_u8, rgb_to_6bit, spec_apply_led_brightness};

verus! {

pub const LP_LED_COUNT: usize = 100;
pub const LED_STATUS_BYTES: usize = 320;
pub const GROUP_COUNT: usize = 4;
pub const BRIGHT_BIT_COUNT: usize = 6;
pub const GROUP_STRIDE: usize = 0x50;
pub const SHIFT_BYTES_PER_GROUP: usize = 10;
pub const PAYLOAD_BYTES: usize = 240;

/// Shift-register bit of each LED's green channel (0 for positions without
/// an LED).
pub const GREEN_MAP: [u16; 100] = [
    0, 23, 103, 183, 263, 20, 100, 180, 260, 0, 250, 29, 109, 189, 269, 26, 106, 186, 266, 242,
    170, 35, 115, 195, 275, 32, 112, 192, 272, 162, 90, 42, 122, 202, 282, 36, 116, 196, 276, 82,
    10, 47, 127, 207, 287, 44, 124, 204, 284, 2, 253, 55, 135, 215, 295, 51, 131, 211, 291, 245,
    173, 56, 136, 216, 296, 57, 137, 217, 297, 165, 93, 66, 146, 226, 306, 60, 140, 220, 300, 85,
    13, 71, 151, 231, 311, 68, 148, 228, 308, 5, 0, 77, 157, 237, 317, 74, 154, 234, 314, 17,
];

/// Shift-register bit of each LED's red channel.
pub const RED_MAP: [u16; 100] = [
    0, 24, 104, 184, 264, 21, 101, 181, 261, 0, 251, 30, 110, 190, 270, 27, 107, 187, 267, 243,
    171, 38, 118, 198, 278, 33, 113, 193, 273, 163, 91, 41, 121, 201, 281, 37, 117, 197, 277, 83,
    11, 48, 128, 208, 288, 45, 125, 205, 285, 3, 254, 54, 134, 214, 294, 50, 130, 210, 290, 246,
    174, 62, 142, 222, 302, 58, 138, 218, 298, 166, 94, 65, 145, 225, 305, 61, 141, 221, 301, 86,
    14, 72, 152, 232, 312, 69, 149, 229, 309, 6, 0, 78, 158, 238, 318, 75, 155, 235, 315, 18,
];

/// Shift-register bit of each LED's blue channel.
pub const BLUE_MAP: [u16; 100] = [
    0, 25, 105, 185, 265, 22, 102, 182, 262, 0, 252, 31, 111, 191, 271, 28, 108, 188, 268, 244,
    172, 39, 119, 199, 279, 34, 114, 194, 274, 164, 92, 40, 120, 200, 280, 43, 123, 203, 283, 84,
    12, 49, 129, 209, 289, 46, 126, 206, 286, 4, 255, 53, 133, 213, 293, 52, 132, 212, 292, 247,
    175, 63, 143, 223, 303, 59, 139, 219, 299, 167, 95, 64, 144, 224, 304, 67, 147, 227, 307, 87,
    15, 73, 153, 233, 313, 70, 150, 230, 310, 7, 0, 79, 159, 239, 319, 76, 156, 236, 316, 19,
];

/// Timer reload of the blank, null-surface and shift phases.
pub const TIMER_VALUE: [u16; 3] = [10, 10, 50];

/// On-time of each brightness bit, bus-powered then self-powered.
pub const BRIGHT_TIMES: [[u16; 2]; 6] = [[2, 5], [374, 935], [14, 35], [182, 455], [38, 95], [86, 215]];
pub const DMA_POLL_TICKS: u16 = 5;

/// Byte of the flat payload for a group, brightness bit and shift byte.
pub open spec fn payload_index(group: int, bright_bit: int, byte: int) -> int {
    group * 60 + bright_bit * 10 + byte
}

/// The payload after one shift-register bit is given a 6-bit intensity:
/// in the plane of each brightness bit, the bit is cleared (active low)
/// where the intensity has that bit, set elsewhere. Bits past the status
/// area are ignored.
pub open spec fn status_written(payload: Seq<u8>, bit_index: u16, value: u8) -> Seq<u8> {
    if bit_index >= 320 {
        payload
    } else {
        let group = bit_index / 80;
        let group_offset = bit_index % 80;
        let byte = group_offset / 8;
        let mask = 1u8 << ((group_offset % 8) as u8);
        Seq::new(
            240,
            |i: int|
                if i / 60 == group && i % 10 == byte {
                    if value & (1u8 << (((i % 60) / 10) as u8)) != 0 {
                        payload[i] & !mask
                    } else {
                        payload[i] | mask
                    }
                } else {
                    payload[i]
                },
        )
    }
}

/// The payload after one LED's channels are written from the raw colors at
/// a brightness level.
pub open spec fn led_written(payload: Seq<u8>, raw: Seq<u8>, brightness: u8, led: int) -> Seq<u8> {
    status_written(
        status_written(
            status_written(payload, RED_MAP[led], spec_apply_led_brightness(raw[led], brightness)),
            GREEN_MAP[led],
            spec_apply_led_brightness(raw[100 + led], brightness),
        ),
        BLUE_MAP[led],
        spec_apply_led_brightness(raw[200 + led], brightness),
    )
}

/// The payload after LEDs `0..n` are written in order.
pub open spec fn leds_upto(payload: Seq<u8>, raw: Seq<u8>, brightness: u8, n: int) -> Seq<u8>
    decreases n,
{
    if n <= 0 {
        payload
    } else {
        led_written(leds_upto(payload, raw, brightness, n - 1), raw, brightness, n - 1)
    }
}

pub open spec fn same_led_color(raw1: Seq<u8>, raw2: Seq<u8>, k: int) -> bool {
    raw1[k] == raw2[k] && raw1[100 + k] == raw2[100 + k] && raw1[200 + k] == raw2[200 + k]
}

/// Writing LEDs `0..n` reads only those LEDs' raw colors.
pub proof fn lemma_leds_upto_reads_leds_below(payload: Seq<u8>, raw1: Seq<u8>, raw2: Seq<u8>, brightness: u8, n: int)
    requires
        0 <= n <= 100,
        forall|k: int| 0 <= k < n ==> #[trigger] same_led_color(raw1, raw2, k),
    ensures
        leds_upto(payload, raw1, brightness, n) == leds_upto(payload, raw2, brightness, n),
    decreases n,
{
    if n > 0 {
        assert(same_led_color(raw1, raw2, n - 1));
        lemma_leds_upto_reads_leds_below(payload, raw1, raw2, brightness, n - 1);
    }
}

/// The raw colors with one LED set, channels capped at 63.
pub open spec fn raw_with_led(raw: Seq<u8>, led: int, r: u8, g: u8, b: u8) -> Seq<u8> {
    raw.update(led, min_u8(r, 0x3f)).update(100 + led, min_u8(g, 0x3f)).update(200 + led, min_u8(b, 0x3f))
}

/// The LED scan payload of the Launchpad Pro: for each group and
/// brightness bit, the 10 bytes shifted out; built from raw 6-bit colors
/// scaled to the brightness level.
pub struct Leds {
    payload: [u8; 240],
    raw_rgb: [u8; 300],
    brightness: u8,
}

/// Position of a payload byte: group, brightness bit, shift byte.
proof fn lemma_payload_index(group: int, bb: int, byte: int)
    requires
        0 <= group < 4,
        0 <= bb < 6,
        0 <= byte < 10,
    ensures
        ({
            let i = payload_index(group, bb, byte);
            &&& 0 <= i < 240
            &&& i / 60 == group
            &&& (i % 60) / 10 == bb
            &&& i % 10 == byte
        }),
{
}

impl Leds {
    /// The bytes shifted out, group-major, then brightness bit, then byte.
    pub closed spec fn payload(&self) -> Seq<u8> {
        self.payload@
    }

    /// Raw colors: red of LEDs 0..100, then green, then blue.
    pub closed spec fn raw(&self) -> Seq<u8> {
        self.raw_rgb@
    }

    pub closed spec fn level(&self) -> u8 {
        self.brightness
    }

    pub fn new() -> (r: Self)
        ensures
            r.payload() == Seq::new(240, |i: int| 0xffu8),
            r.raw() == Seq::new(300, |i: int| 0u8),
            r.level() == 7,
    {
        let r = Leds { payload: [0xff; 240], raw_rgb: [0; 300], brightness: 7 };
        assert(r.payload() =~= Seq::new(240, |i: int| 0xffu8));
        assert(r.raw() =~= Seq::new(300, |i: int| 0u8));
        r
    }

    fn write_status(&mut self, bit_index: u16, value: u8)
        ensures
            final(self).payload@ == status_written(old(self).payload@, bit_index, value),
            final(self).raw_rgb@ == old(self).raw_rgb@,
            final(self).brightness == old(self).brightness,
    {
        let offset = bit_index as usize;
        if offset >= LED_STATUS_BYTES {
            return;
        }
        let group = offset / GROUP_STRIDE;
        if group >= GROUP_COUNT {
            return;
        }
        let group_offset = offset - group * GROUP_STRIDE;
        let byte_index = group_offset >> 3;
        proof {
            crate::bits::lemma_usize_bits(group_offset);
        }
        if byte_index >= SHIFT_BYTES_PER_GROUP {
            return;
        }
        assert(group_offset % 8 < 8);
        let bit_mask: u8 = 1u8 << ((group_offset & 7) as u8);
        let ghost expected = status_written(old(self).payload@, bit_index, value);
        let mut bright_bit: usize = 0;
        while bright_bit < BRIGHT_BIT_COUNT
            invariant
                bright_bit <= 6,
                group == bit_index / 80,
                group < 4,
                byte_index == (bit_index % 80) / 8,
                byte_index < 10,
                bit_index < 320,
                bit_mask == 1u8 << (((bit_index % 80) % 8) as u8),
                expected == status_written(old(self).payload@, bit_index, value),
                self.raw_rgb@ == old(self).raw_rgb@,
                self.brightness == old(self).brightness,
                forall|i: int| 0 <= i < 240 ==> #[trigger] self.payload@[i] == (if i / 60 == group && i % 10 == byte_index && (i % 60) / 10 < bright_bit {
                    expected[i]
                } else {
                    old(self).payload@[i]
                }),
            decreases 6 - bright_bit,
        {
            let idx = group * 60 + bright_bit * 10 + byte_index;
            proof {
                lemma_payload_index(group as int, bright_bit as int, byte_index as int);
            }
            let ghost before = self.payload@;
            if value & (1u8 << (bright_bit as u8)) != 0 {
                self.payload[idx] = self.payload[idx] & !bit_mask;
            } else {
                self.payload[idx] = self.payload[idx] | bit_mask;
            }
            proof {
                assert forall|i: int| 0 <= i < 240 implies #[trigger] self.payload@[i] == (if i / 60 == group && i % 10 == byte_index && (i % 60) / 10 < bright_bit + 1 {
                    expected[i]
                } else {
                    old(self).payload@[i]
                }) by {
                    if i == idx {
                    } else {
                        assert(before[i] == self.payload@[i]);
                        if i / 60 == group && i % 10 == byte_index && (i % 60) / 10 == bright_bit {
                            assert(i == group * 60 + ((i % 60) / 10) * 10 + i % 10);
                        }
                    }
                }
            }
            bright_bit = bright_bit + 1;
        }
        assert(self.payload@ =~= expected);
    }

    fn write_scaled_led(&mut self, led: usize)
        requires
            led < LP_LED_COUNT,
        ensures
            final(self).payload@ == led_written(old(self).payload@, old(self).raw_rgb@, old(self).brightness, led as int),
            final(self).raw_rgb@ == old(self).raw_rgb@,
            final(self).brightness == old(self).brightness,
    {
        let r = apply_led_brightness(self.raw_rgb[led], self.brightness);
        let g = apply_led_brightness(self.raw_rgb[100 + led], self.brightness);
        let b = apply_led_brightness(self.raw_rgb[200 + led], self.brightness);
        self.write_status(RED_MAP[led], r);
        self.write_status(GREEN_MAP[led], g);
        self.write_status(BLUE_MAP[led], b);
    }

    fn rebuild_scaled_payload(&mut self)
        ensures
            final(self).payload@ == leds_upto(Seq::new(240, |i: int| 0xffu8), old(self).raw_rgb@, old(self).brightness, 100),
            final(self).raw_rgb@ == old(self).raw_rgb@,
            final(self).brightness == old(self).brightness,
    {
        self.payload = [0xff; 240];
        assert(self.payload@ =~= Seq::new(240, |i: int| 0xffu8));
        let mut led: usize = 0;
        while led < LP_LED_COUNT
            invariant
                led <= 100,
                self.raw_rgb@ == old(self).raw_rgb@,
                self.brightness == old(self).brightness,
                self.payload@ == leds_upto(Seq::new(240, |i: int| 0xffu8), old(self).raw_rgb@, old(self).brightness, led as int),
            decreases 100 - led,
        {
            self.write_scaled_led(led);
            led = led + 1;
        }
    }

    /// Sets one LED to 6-bit channels (capped at 63); ignored past the last
    /// LED.
    pub fn set_led_rgb(&mut self, led: u8, r: u8, g: u8, b: u8)
        ensures
            (led as int) >= LP_LED_COUNT as int ==> final(self).payload() == old(self).payload() && final(self).raw() == old(self).raw(),
            (led as int) < LP_LED_COUNT as int ==> {
                let raw = raw_with_led(old(self).raw(), led as int, r, g, b);
                &&& final(self).raw() == raw
                &&& final(self).payload() == led_written(old(self).payload(), raw, old(self).level(), led as int)
            },
            final(self).level() == old(self).level(),
    {
        if led as usize >= LP_LED_COUNT {
            return;
        }
        let led = led as usize;
        self.raw_rgb[led] = if r < 0x3f { r } else { 0x3f };
        self.raw_rgb[100 + led] = if g < 0x3f { g } else { 0x3f };
        self.raw_rgb[200 + led] = if b < 0x3f { b } else { 0x3f };
        self.write_scaled_led(led);
    }

    /// Sets one LED to a packed 0xRRGGBB color.
    pub fn set_led(&mut self, led: u8, rgb: u32)
        ensures
            ({
                let (r, g, b) = rgb_to_6bit(rgb);
                &&& (led as int) >= LP_LED_COUNT as int ==> final(self).payload() == old(self).payload() && final(self).raw() == old(self).raw()
                &&& (led as int) < LP_LED_COUNT as int ==> {
                    let raw = raw_with_led(old(self).raw(), led as int, r, g, b);
                    &&& final(self).raw() == raw
                    &&& final(self).payload() == led_written(old(self).payload(), raw, old(self).level(), led as int)
                }
            }),
            final(self).level() == old(self).level(),
    {
        if led as usize >= LP_LED_COUNT {
            return;
        }
        let masked = rgb & 0x00ff_ffff;
        let r = ((masked >> 18) & 0x3f) as u8;
        let g = ((masked >> 10) & 0x3f) as u8;
        let b = ((masked >> 2) & 0x3f) as u8;
        assert(((rgb >> 18u32) & 0x3f) == (((rgb & 0x00ff_ffff) >> 18u32) & 0x3f)) by (bit_vector);
        assert(((rgb >> 10u32) & 0x3f) == (((rgb & 0x00ff_ffff) >> 10u32) & 0x3f)) by (bit_vector);
        assert(((rgb >> 2u32) & 0x3f) == (((rgb & 0x00ff_ffff) >> 2u32) & 0x3f)) by (bit_vector);
        self.set_led_rgb(led, r, g, b);
    }

    /// Sets every LED to one packed 0xRRGGBB color.
    pub fn fill(&mut self, rgb: u32)
        ensures
            ({
                let (r, g, b) = rgb_to_6bit(rgb);
                let raw = Seq::new(
                    300,
                    |i: int| if i < 100 { min_u8(r, 0x3f) } else if i < 200 { min_u8(g, 0x3f) } else { min_u8(b, 0x3f) },
                );
                &&& final(self).raw() == raw
                &&& final(self).payload() == leds_upto(old(self).payload(), raw, old(self).level(), 100)
            }),
            final(self).level() == old(self).level(),
    {
        let ghost c = rgb_to_6bit(rgb);
        let ghost target = Seq::new(
            300,
            |i: int| if i < 100 { min_u8(c.0, 0x3f) } else if i < 200 { min_u8(c.1, 0x3f) } else { min_u8(c.2, 0x3f) },
        );
        let mut led: usize = 0;
        while led < LP_LED_COUNT
            invariant
                led <= 100,
                c == rgb_to_6bit(rgb),
                target == Seq::new(
                    300,
                    |i: int| if i < 100 { min_u8(c.0, 0x3f) } else if i < 200 { min_u8(c.1, 0x3f) } else { min_u8(c.2, 0x3f) },
                ),
                self.brightness == old(self).brightness,
                self.raw_rgb@.len() == 300,
                forall|k: int| 0 <= k < led ==> #[trigger] same_led_color(self.raw_rgb@, target, k),
                self.payload@ == leds_upto(old(self).payload@, self.raw_rgb@, old(self).brightness, led as int),
            decreases 100 - led,
        {
            let ghost raw0 = self.raw_rgb@;
            self.set_led(led as u8, rgb);
            proof {
                assert forall|k: int| 0 <= k < led implies #[trigger] same_led_color(raw0, self.raw_rgb@, k) by {
                    assert(same_led_color(raw0, target, k));
                }
                lemma_leds_upto_reads_leds_below(old(self).payload@, raw0, self.raw_rgb@, old(self).brightness, led as int);
                assert forall|k: int| 0 <= k <= led implies #[trigger] same_led_color(self.raw_rgb@, target, k) by {
                    if k < led {
                        assert(same_led_color(raw0, target, k));
                    }
                }
            }
            led = led + 1;
        }
        proof {
            lemma_leds_upto_reads_leds_below(old(self).payload@, self.raw_rgb@, target, old(self).brightness, 100);
            assert forall|i: int| 0 <= i < 300 implies self.raw_rgb@[i] == target[i] by {
                let k = if i < 100 { i } else if i < 200 { i - 100 } else { i - 200 };
                assert(same_led_color(self.raw_rgb@, target, k));
            }
            assert(self.raw_rgb@ =~= target);
        }
    }

    /// Turns every LED off.
    pub fn clear(&mut self)
        ensures
            final(self).raw() == Seq::new(300, |i: int| 0u8),
            final(self).payload() == leds_upto(old(self).payload(), Seq::new(300, |i: int| 0u8), old(self).level(), 100),
            final(self).level() == old(self).level(),
    {
        self.fill(0);
        proof {
            let (r, g, b) = rgb_to_6bit(0);
            assert(r == 0 && g == 0 && b == 0) by (bit_vector)
                requires
                    r == ((0u32 >> 18u32) & 0x3f) as u8,
                    g == ((0u32 >> 10u32) & 0x3f) as u8,
                    b == ((0u32 >> 2u32) & 0x3f) as u8,
            ;
            assert(Seq::new(
                300,
                |i: int| if i < 100 { min_u8(r, 0x3f) } else if i < 200 { min_u8(g, 0x3f) } else { min_u8(b, 0x3f) },
            ) =~= Seq::new(300, |i: int| 0u8));
        }
    }

    /// The 10 bytes shifted out for one group at one brightness bit; all
    /// 0xff (everything off) out of range.
    pub fn build_group_payload(&self, group: usize, bright_bit: usize, out: &mut [u8; 10])
        ensures
            group >= GROUP_COUNT || bright_bit >= BRIGHT_BIT_COUNT ==> final(out)@ == Seq::new(10, |i: int| 0xffu8),
            group < GROUP_COUNT && bright_bit < BRIGHT_BIT_COUNT ==> final(out)@ == self.payload().subrange(
                payload_index(group as int, bright_bit as int, 0),
                payload_index(group as int, bright_bit as int, 10),
            ),
    {
        if group >= GROUP_COUNT || bright_bit >= BRIGHT_BIT_COUNT {
            *out = [0xff; 10];
            assert(out@ =~= Seq::new(10, |i: int| 0xffu8));
            return;
        }
        let base = group * 60 + bright_bit * 10;
        let mut i: usize = 0;
        while i < 10
            invariant
                base == payload_index(group as int, bright_bit as int, 0),
                base + 10 <= 240,
                i <= 10,
                forall|k: int| 0 <= k < i ==> out@[k] == self.payload@[base + k],
            decreases 10 - i,
        {
            out[i] = self.payload[base + i];
            i = i + 1;
        }
        assert(out@ =~= self.payload().subrange(base as int, base + 10));
    }

    pub fn brightness(&self) -> (r: u8)
        ensures
            r == self.level(),
    {
        self.brightness
    }

    /// Sets the brightness level (capped at 7) and rebuilds the payload.
    pub fn set_brightness(&mut self, brightness: u8)
        ensures
            final(self).level() == min_u8(brightness, 7),
            final(self).raw() == old(self).raw(),
            final(self).payload() == leds_upto(Seq::new(240, |i: int| 0xffu8), old(self).raw(), min_u8(brightness, 7), 100),
    {
        self.brightness = if brightness < 7 { brightness } else { 7 };
        self.rebuild_scaled_payload();
    }
}

/// What the scan timer interrupt does next.
#[derive(Copy, Clone, PartialEq, Eq, Structural, Debug)]
pub enum ScanAction {
    /// Blank the LEDs and prepare the next payload.
    Blank,
    /// Arm the shift transfer.
    NullSurface,
    /// Start the shift transfer.
    LedShift,
    /// Unblank the group for its brightness bit's on-time.
    Bright,
    /// The shift transfer has not completed: check again shortly.
    WaitForShift,
}

/// State of the four-phase scan sequencer: the phase due next, whether the
/// last shift transfer completed, and the power mode (1 bus-powered, 2
/// self-powered) that sets the on-times.
pub struct ScanSequencer {
    pub surface_mode: u8,
    pub dma_finished: bool,
    pub power_mode: u8,
}

impl ScanSequencer {
    pub open spec fn wf(&self) -> bool {
        &&& self.surface_mode < 4
        &&& 1 <= self.power_mode <= 2
    }

    pub fn new() -> (r: Self)
        ensures
            r.wf(),
            r.surface_mode == 0,
            !r.dma_finished,
            r.power_mode == 1,
    {
        ScanSequencer { surface_mode: 0, dma_finished: false, power_mode: 1 }
    }

    /// The shift transfer completed.
    pub fn dma_complete(&mut self)
        ensures
            final(self).dma_finished,
            final(self).surface_mode == old(self).surface_mode,
            final(self).power_mode == old(self).power_mode,
    {
        self.dma_finished = true;
    }

    /// Decides the action of one timer interrupt. The bright phase waits
    /// for the shift transfer; every other phase runs and hands over to the
    /// next.
    pub fn next_action(&mut self) -> (r: ScanAction)
        requires
            old(self).wf(),
        ensures
            final(self).wf(),
            final(self).power_mode == old(self).power_mode,
            old(self).surface_mode == 3 && !old(self).dma_finished ==> {
                &&& r == ScanAction::WaitForShift
                &&& final(self).surface_mode == 3
                &&& !final(self).dma_finished
            },
            !(old(self).surface_mode == 3 && !old(self).dma_finished) ==> {
                &&& final(self).surface_mode == (old(self).surface_mode + 1) % 4
                &&& final(self).dma_finished == (old(self).dma_finished && old(self).surface_mode != 3)
                &&& r == (if old(self).surface_mode == 0 {
                    ScanAction::Blank
                } else if old(self).surface_mode == 1 {
                    ScanAction::NullSurface
                } else if old(self).surface_mode == 2 {
                    ScanAction::LedShift
                } else {
                    ScanAction::Bright
                })
            },
    {
        let mode = self.surface_mode;
        if mode != 3 || self.dma_finished {
            if mode == 3 && self.dma_finished {
                self.dma_finished = false;
            }
            let action = if mode == 0 {
                ScanAction::Blank
            } else if mode == 1 {
                ScanAction::NullSurface
            } else if mode == 2 {
                ScanAction::LedShift
            } else {
                ScanAction::Bright
            };
            let next: u8 = mode + 1;
            proof {
                crate::bits::lemma_u8_bits(next);
            }
            self.surface_mode = next & 3;
            action
        } else {
            ScanAction::WaitForShift
        }
    }

    /// Timer ticks until the next interrupt after an action; a bright phase
    /// lasts the on-time of the brightness bit it lit.
    pub fn phase_delay(&self, action: ScanAction, bright_bit: u8) -> (r: u16)
        requires
            self.wf(),
            action == ScanAction::Bright ==> bright_bit < 6,
        ensures
            r == match action {
                ScanAction::Blank => TIMER_VALUE[0],
                ScanAction::NullSurface => TIMER_VALUE[1],
                ScanAction::LedShift => TIMER_VALUE[2],
                ScanAction::Bright => BRIGHT_TIMES[bright_bit as int][self.power_mode - 1],
                ScanAction::WaitForShift => DMA_POLL_TICKS,
            },
    {
        match action {
            ScanAction::Blank => TIMER_VALUE[0],
            ScanAction::NullSurface => TIMER_VALUE[1],
            ScanAction::LedShift => TIMER_VALUE[2],
            ScanAction::Bright => BRIGHT_TIMES[bright_bit as usize][(self.power_mode - 1) as usize],
            ScanAction::WaitForShift => DMA_POLL_TICKS,
        }
    }
}

/// Sets the power mode, clamped to 1 (bus-powered) ..= 2 (self-powered).
pub fn set_power_mode(sequencer: &mut ScanSequencer, power_mode: u8)
    ensures
        final(sequencer).power_mode == (if power_mode < 1 { 1 } else if power_mode > 2 { 2 } else { power_mode }),
        final(sequencer).surface_mode == old(sequencer).surface_mode,
        final(sequencer).dma_finished == old(sequencer).dma_finished,
{
    sequencer.power_mode = if power_mode < 1 {
        1
    } else if power_mode > 2 {
        2
    } else {
        power_mode
    };
}

} // verus!
