use vstd::prelude::*;
use super::LED_COUNT;
use crate::launchpad_pro_mk3::map::LED_REMAP;

verus! {

pub const LED_FRAME_BYTES: usize = 264;
pub const LED_PLANES: usize = 6;
pub const LEDS_PER_ROW: u8 = 27;
pub const LED_ROW_STRIDE: usize = 0x42;
pub const LED_PLANE_STRIDE: usize = 0x0B;
/// Shortest interval between two LED frames, in microseconds.
pub const LED_FRAME_PERIOD_US: u64 = 2083;
/// Time stamps stay below this bound.
pub const TIME_LIMIT_US: u64 = 0x4000_0000_0000_0000;

pub open spec fn min63(v: u8) -> u8 {
    if v < 0x3f { v } else { 0x3f }
}

pub fn scale_channel(value: u8) -> (r: u8)
    ensures
        r == min63(value),
{
    if value < 0x3f {
        value
    } else {
        0x3f
    }
}

/// Three 6-bit channels packed as 0b00rrrrrr_gggggg_bbbbbb.
pub open spec fn spec_pack_rgb(r: u8, g: u8, b: u8) -> u32 {
    ((min63(r) as u32) << 12u32) | ((min63(g) as u32) << 6u32) | (min63(b) as u32)
}

pub fn pack_rgb(r: u8, g: u8, b: u8) -> (c: u32)
    ensures
        c == spec_pack_rgb(r, g, b),
{
    ((scale_channel(r) as u32) << 12) | ((scale_channel(g) as u32) << 6) | scale_channel(b) as u32
}

/// Clears the mask's bits (active low: lit) in one framebuffer byte when
/// `value` is non-zero.
pub open spec fn plane_bit_written(fb: Seq<u8>, index: int, mask: u8, value: u8) -> Seq<u8> {
    if value != 0 { fb.update(index, fb[index] & !mask) } else { fb }
}

pub fn write_plane_bit(fb: &mut [u8; 264], index: usize, mask: u8, value: u8)
    requires
        index < LED_FRAME_BYTES,
    ensures
        final(fb)@ == plane_bit_written(old(fb)@, index as int, mask, value),
{
    if value != 0 {
        fb[index] = fb[index] & !mask;
    }
}

/// Framebuffer byte and bit mask of channel `ch` (0 red, 1 green, 2 blue)
/// of an LED in brightness plane `plane`: rows of 27 LEDs, three bits per
/// LED, planes of 11 bytes.
pub open spec fn fb_position(led: u8, ch: int, plane: int) -> (int, u8) {
    let row = led / LEDS_PER_ROW;
    let bit = (led % LEDS_PER_ROW) * 3 + ch;
    (row * 0x42 + plane * 0x0B + bit / 8, 1u8 << ((bit % 8) as u8))
}

/// The framebuffer after planes `0..n` of an LED are written: plane `p`
/// lights each channel whose (capped) value has bit `p` set.
pub open spec fn led_planes_written(fb: Seq<u8>, led: u8, r: u8, g: u8, b: u8, n: int) -> Seq<u8>
    decreases n,
{
    if n <= 0 {
        fb
    } else {
        let p = n - 1;
        let prev = led_planes_written(fb, led, r, g, b, p);
        let (ir, mr) = fb_position(led, 0, p);
        let (ig, mg) = fb_position(led, 1, p);
        let (ib, mb) = fb_position(led, 2, p);
        plane_bit_written(
            plane_bit_written(
                plane_bit_written(prev, ir, mr, (min63(r) >> (p as u8)) & 1),
                ig,
                mg,
                (min63(g) >> (p as u8)) & 1,
            ),
            ib,
            mb,
            (min63(b) >> (p as u8)) & 1,
        )
    }
}

/// Writes one LED's 6-bit color into the six brightness planes.
pub fn write_fb(fb: &mut [u8; 264], led: u8, r: u8, g: u8, b: u8)
    requires
        (led as int) < LED_COUNT,
    ensures
        final(fb)@ == led_planes_written(old(fb)@, led, r, g, b, 6),
{
    let row = (led / LEDS_PER_ROW) as usize;
    let led_in_row = led % LEDS_PER_ROW;
    let bit_r = led_in_row * 3;
    let bit_g = bit_r + 1;
    let bit_b = bit_r + 2;
    proof {
        crate::bits::lemma_u8_bits(bit_r);
        crate::bits::lemma_u8_bits(bit_g);
        crate::bits::lemma_u8_bits(bit_b);
    }
    let byte_r = (bit_r >> 3) as usize;
    let byte_g = (bit_g >> 3) as usize;
    let byte_b = (bit_b >> 3) as usize;
    let mask_r: u8 = 1u8 << (bit_r & 7);
    let mask_g: u8 = 1u8 << (bit_g & 7);
    let mask_b: u8 = 1u8 << (bit_b & 7);
    let mut value_r = scale_channel(r);
    let mut value_g = scale_channel(g);
    let mut value_b = scale_channel(b);
    proof {
        crate::bits::lemma_u8_bits(value_r);
        crate::bits::lemma_u8_bits(value_g);
        crate::bits::lemma_u8_bits(value_b);
    }
    let mut plane: usize = 0;
    while plane < LED_PLANES
        invariant
            (led as int) < LED_COUNT,
            plane <= 6,
            row == led / LEDS_PER_ROW,
            row <= 3,
            byte_r == (led_in_row * 3) / 8,
            byte_g == (led_in_row * 3 + 1) / 8,
            byte_b == (led_in_row * 3 + 2) / 8,
            led_in_row == led % LEDS_PER_ROW,
            mask_r == 1u8 << (((led_in_row * 3) % 8) as u8),
            mask_g == 1u8 << (((led_in_row * 3 + 1) % 8) as u8),
            mask_b == 1u8 << (((led_in_row * 3 + 2) % 8) as u8),
            value_r == min63(r) >> (plane as u8),
            value_g == min63(g) >> (plane as u8),
            value_b == min63(b) >> (plane as u8),
            fb@ == led_planes_written(old(fb)@, led, r, g, b, plane as int),
        decreases 6 - plane,
    {
        let plane_base = (row * LED_ROW_STRIDE) + (plane * LED_PLANE_STRIDE);
        write_plane_bit(fb, plane_base + byte_r, mask_r, value_r & 1);
        write_plane_bit(fb, plane_base + byte_g, mask_g, value_g & 1);
        write_plane_bit(fb, plane_base + byte_b, mask_b, value_b & 1);
        let ghost p = plane as u8;
        let ghost (vr, vg, vb) = (min63(r), min63(g), min63(b));
        assert((vr >> p) >> 1u8 == vr >> ((p + 1) as u8) && (vg >> p) >> 1u8 == vg >> ((p + 1) as u8) && (vb >> p) >> 1u8 == vb >> ((p + 1) as u8)) by (bit_vector)
            requires
                p < 6,
        ;
        value_r = value_r >> 1;
        value_g = value_g >> 1;
        value_b = value_b >> 1;
        plane = plane + 1;
    }
}

/// The framebuffer rebuilt from packed colors: all off, then LEDs `0..n`
/// with a non-zero color written in order.
pub open spec fn frame_from_colors(rgb: Seq<u32>, n: int) -> Seq<u8>
    decreases n,
{
    if n <= 0 {
        Seq::new(264, |i: int| 0xffu8)
    } else {
        let prev = frame_from_colors(rgb, n - 1);
        let c = rgb[n - 1];
        if c != 0 {
            led_planes_written(
                prev,
                (n - 1) as u8,
                ((c >> 12u32) & 0x3f) as u8,
                ((c >> 6u32) & 0x3f) as u8,
                (c & 0x3f) as u8,
                6,
            )
        } else {
            prev
        }
    }
}

/// Co-processor slot of a surface index, if it has an LED.
pub open spec fn spec_led_slot(index: u8) -> Option<int> {
    if (index as int) < 110 && LED_REMAP[index as int] != 0xff && (LED_REMAP[index as int] as int) < LED_COUNT {
        Some(LED_REMAP[index as int] as int)
    } else {
        None
    }
}

/// The frame-driven LED state as values.
pub struct FastView {
    pub frame: Seq<u8>,
    pub colors: Seq<u32>,
    pub dirty: bool,
    pub next_tx: Option<u64>,
}

/// The state after the LED of a surface index is set to 6-bit channels: the
/// slot's packed color changes, and a change marks the frame dirty.
pub open spec fn fast_set(v: FastView, index: u8, r: u8, g: u8, b: u8) -> FastView {
    match spec_led_slot(index) {
        Some(slot) => FastView {
            colors: v.colors.update(slot, spec_pack_rgb(r, g, b)),
            dirty: v.dirty || v.colors[slot] != spec_pack_rgb(r, g, b),
            ..v
        },
        None => v,
    }
}

/// The state at power-up: a blank framebuffer, every color 0, and a frame
/// due.
pub open spec fn fresh_fast_view() -> FastView {
    FastView { frame: Seq::new(264, |i: int| 0xffu8), colors: Seq::new(108, |i: int| 0u32), dirty: true, next_tx: None }
}

/// LEDs driven with whole frames: a packed color per slot, rebuilt into the
/// six-plane framebuffer when a frame is due, at most one frame per period.
pub struct Leds {
    fb: [u8; 264],
    rgb: [u32; 108],
    dirty: bool,
    next_tx: Option<u64>,
}

impl View for Leds {
    type V = FastView;

    closed spec fn view(&self) -> FastView {
        FastView { frame: self.fb@, colors: self.rgb@, dirty: self.dirty, next_tx: self.next_tx }
    }
}

impl Leds {
    /// The view's parts are the state's parts.
    pub proof fn lemma_view(&self)
        ensures
            self@.frame == self.frame(),
            self@.colors == self.colors(),
            self@.dirty == self.is_dirty(),
            self@.next_tx == self.next_frame_at(),
    {
    }

    pub closed spec fn frame(&self) -> Seq<u8> {
        self.fb@
    }

    /// The packed color of each slot.
    pub closed spec fn colors(&self) -> Seq<u32> {
        self.rgb@
    }

    /// A color changed since the last frame was sent.
    pub closed spec fn is_dirty(&self) -> bool {
        self.dirty
    }

    /// When the next frame may go out, once a frame was scheduled.
    pub closed spec fn next_frame_at(&self) -> Option<u64> {
        self.next_tx
    }

    pub closed spec fn wf(&self) -> bool {
        self.next_tx matches Some(t) ==> t <= TIME_LIMIT_US + LED_FRAME_PERIOD_US
    }

    pub fn new() -> (r: Self)
        ensures
            r.wf(),
            r.frame() == Seq::new(264, |i: int| 0xffu8),
            r.colors() == Seq::new(108, |i: int| 0u32),
            r.is_dirty(),
            r.next_frame_at() is None,
            r@ == fresh_fast_view(),
    {
        let r = Leds { fb: [0xff; 264], rgb: [0; 108], dirty: true, next_tx: None };
        assert(r.frame() =~= Seq::new(264, |i: int| 0xffu8));
        assert(r.colors() =~= Seq::new(108, |i: int| 0u32));
        r
    }

    /// Sets the LED of a surface index to 6-bit channels; a change marks
    /// the frame dirty.
    pub fn set_rgb_led(&mut self, index: u8, r: u8, g: u8, b: u8)
        requires
            old(self).wf(),
        ensures
            final(self).wf(),
            final(self)@ == fast_set(old(self)@, index, r, g, b),
            final(self).frame() == old(self).frame(),
            final(self).next_frame_at() == old(self).next_frame_at(),
            match spec_led_slot(index) {
                Some(slot) => {
                    &&& final(self).colors() == old(self).colors().update(slot, spec_pack_rgb(r, g, b))
                    &&& final(self).is_dirty() == (old(self).is_dirty() || old(self).colors()[slot] != spec_pack_rgb(r, g, b))
                },
                None => final(self).colors() == old(self).colors() && final(self).is_dirty() == old(self).is_dirty(),
            },
    {
        if index as usize >= 110 {
            return;
        }
        let mapped = LED_REMAP[index as usize];
        if mapped == 0xff || mapped as usize >= LED_COUNT {
            return;
        }
        let color = pack_rgb(r, g, b);
        let mapped = mapped as usize;
        if self.rgb[mapped] == color {
            assert(self.rgb@.update(mapped as int, color) =~= self.rgb@);
            return;
        }
        self.rgb[mapped] = color;
        self.dirty = true;
    }

    /// Sets the LED of a surface index to a packed 0xRRGGBB color.
    pub fn set_led(&mut self, index: u8, color: u32)
        requires
            old(self).wf(),
        ensures
            final(self).wf(),
            ({
                let (r, g, b) = crate::launchpad_mk2::leds::rgb_to_6bit(color);
                final(self)@ == fast_set(old(self)@, index, r, g, b)
            }),
            final(self).frame() == old(self).frame(),
            final(self).next_frame_at() == old(self).next_frame_at(),
            ({
                let (r, g, b) = crate::launchpad_mk2::leds::rgb_to_6bit(color);
                match spec_led_slot(index) {
                    Some(slot) => {
                        &&& final(self).colors() == old(self).colors().update(slot, spec_pack_rgb(r, g, b))
                        &&& final(self).is_dirty() == (old(self).is_dirty() || old(self).colors()[slot] != spec_pack_rgb(r, g, b))
                    },
                    None => final(self).colors() == old(self).colors() && final(self).is_dirty() == old(self).is_dirty(),
                }
            }),
    {
        self.set_rgb_led(
            index,
            ((color >> 18) & 0x3f) as u8,
            ((color >> 10) & 0x3f) as u8,
            ((color >> 2) & 0x3f) as u8,
        );
    }

    /// The framebuffer to send.
    pub fn framebuffer(&self) -> (r: &[u8; 264])
        ensures
            r@ == self.frame(),
    {
        &self.fb
    }

    fn rebuild_frame(&mut self)
        requires
            old(self).wf(),
        ensures
            final(self).wf(),
            final(self).fb@ == frame_from_colors(old(self).rgb@, 108),
            final(self).rgb@ == old(self).rgb@,
            final(self).dirty == old(self).dirty,
            final(self).next_tx == old(self).next_tx,
    {
        self.fb = [0xff; 264];
        assert(self.fb@ =~= frame_from_colors(self.rgb@, 0));
        let mut mapped: usize = 0;
        while mapped < LED_COUNT
            invariant
                mapped <= 108,
                self.wf(),
                self.rgb@ == old(self).rgb@,
                self.dirty == old(self).dirty,
                self.next_tx == old(self).next_tx,
                self.fb@ == frame_from_colors(self.rgb@, mapped as int),
            decreases 108 - mapped,
        {
            let color = self.rgb[mapped];
            if color != 0 {
                let r = ((color >> 12) & 0x3f) as u8;
                let g = ((color >> 6) & 0x3f) as u8;
                let b = (color & 0x3f) as u8;
                write_fb(&mut self.fb, mapped as u8, r, g, b);
            }
            mapped = mapped + 1;
        }
    }

    /// Decides whether a frame goes out now: only on a ready link with a
    /// free LED slot, when something changed and the frame period has
    /// passed. Schedules the first frame for now; a link that is down
    /// forgets the schedule. When it answers true the framebuffer holds
    /// the current colors.
    pub fn task(&mut self, link_ready: bool, led_tx_slots: u8, now_us: u64) -> (r: bool)
        requires
            old(self).wf(),
            now_us <= TIME_LIMIT_US,
        ensures
            final(self).wf(),
            final(self).colors() == old(self).colors(),
            final(self).is_dirty() == old(self).is_dirty(),
            !link_ready ==> !r && final(self).next_frame_at() is None && final(self).frame() == old(self).frame(),
            link_ready && (!old(self).is_dirty() || led_tx_slots == 0) ==> !r && final(self).next_frame_at()
                == old(self).next_frame_at() && final(self).frame() == old(self).frame(),
            link_ready && old(self).is_dirty() && led_tx_slots != 0 ==> {
                let due = match old(self).next_frame_at() {
                    Some(t) => t,
                    None => now_us,
                };
                &&& final(self).next_frame_at() == Some(due)
                &&& r == (now_us >= due)
                &&& r ==> final(self).frame() == frame_from_colors(old(self).colors(), 108)
                &&& !r ==> final(self).frame() == old(self).frame()
            },
    {
        if !link_ready {
            self.next_tx = None;
            return false;
        }
        if !self.dirty {
            return false;
        }
        if led_tx_slots == 0 {
            return false;
        }
        let next = match self.next_tx {
            Some(t) => t,
            None => now_us,
        };
        self.next_tx = Some(next);
        if now_us < next {
            return false;
        }
        self.rebuild_frame();
        true
    }

    /// The frame went out: nothing is dirty, and the next frame is due one
    /// period after the last, or one period from now if that fell behind.
    pub fn frame_sent(&mut self, now_us: u64)
        requires
            old(self).wf(),
            now_us <= TIME_LIMIT_US,
            old(self).next_frame_at() matches Some(t) && t <= now_us,
        ensures
            final(self).wf(),
            !final(self).is_dirty(),
            final(self).colors() == old(self).colors(),
            final(self).frame() == old(self).frame(),
            ({
                let t = old(self).next_frame_at()->Some_0 + LED_FRAME_PERIOD_US;
                final(self).next_frame_at() == Some(
                    (if now_us >= t && now_us - t >= LED_FRAME_PERIOD_US { now_us + LED_FRAME_PERIOD_US } else { t }) as u64,
                )
            }),
    {
        self.dirty = false;
        let t = match self.next_tx {
            Some(t) => t,
            None => now_us,
        };
        let next = t + LED_FRAME_PERIOD_US;
        if now_us.saturating_sub(next) >= LED_FRAME_PERIOD_US {
            self.next_tx = Some(now_us + LED_FRAME_PERIOD_US);
        } else {
            self.next_tx = Some(next);
        }
    }
}

} // verus!
