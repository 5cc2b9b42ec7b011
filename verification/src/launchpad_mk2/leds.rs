use vstd::prelude::*;

verus! {

pub const LED_PLANE_SIZE: usize = 256;
pub const MK2_KEY_COUNT: usize = 80;
pub const GROUP_COUNT: usize = 4;
pub const GROUP_STRIDE: usize = 64;
pub const SHIFT_BYTES_PER_GROUP: usize = 8;
pub const RAW_RED_OFFSET: usize = 0;
pub const RAW_GREEN_OFFSET: usize = 80;
pub const RAW_BLUE_OFFSET: usize = 160;
pub const RAW_RGB_SIZE: usize = 240;

/// Key behind each surface index; 0xff where there is none.
pub const INDEX_TO_KEY: [u8; 110] = [
    0xff, 0xff, 0xff, 0xff, 0xff, 0xff, 0xff, 0xff, 0xff, 0xff, 0xff, 63, 64, 65, 66, 67, 68, 69,
    70, 71, 0xff, 54, 55, 56, 57, 58, 59, 60, 61, 62, 0xff, 45, 46, 47, 48, 49, 50, 51, 52, 53,
    0xff, 36, 37, 38, 39, 40, 41, 42, 43, 44, 0xff, 27, 28, 29, 30, 31, 32, 33, 34, 35, 0xff, 18,
    19, 20, 21, 22, 23, 24, 25, 26, 0xff, 9, 10, 11, 12, 13, 14, 15, 16, 17, 0xff, 0, 1, 2, 3, 4,
    5, 6, 7, 8, 0xff, 72, 73, 74, 75, 76, 77, 78, 79, 0xff, 0xff, 0xff, 0xff, 0xff, 0xff, 0xff,
    0xff, 0xff, 0xff, 0xff,
];

/// Plane byte of each key's blue channel.
pub const BLUE_MAP: [u8; 80] = [
    0x39, 0x79, 0xb9, 0xf9, 0x36, 0x76, 0xb6, 0xf6, 0x27, 0x33, 0x73, 0xb3, 0xf3, 0x30, 0x70, 0xb0,
    0xf0, 0x67, 0x2d, 0x6d, 0xad, 0xed, 0x2a, 0x6a, 0xaa, 0xea, 0xa7, 0x1f, 0x5f, 0x9f, 0xdf, 0x1c,
    0x5c, 0x9c, 0xdc, 0xe7, 0x19, 0x59, 0x99, 0xd9, 0x16, 0x56, 0x96, 0xd6, 0x24, 0x13, 0x53, 0x93,
    0xd3, 0x10, 0x50, 0x90, 0xd0, 0x64, 0x0d, 0x4d, 0x8d, 0xcd, 0x0a, 0x4a, 0x8a, 0xca, 0xa4, 0x07,
    0x47, 0x87, 0xc7, 0x04, 0x44, 0x84, 0xc4, 0xe4, 0x3f, 0x7f, 0xbf, 0xff, 0x3c, 0x7c, 0xbc, 0xfc,
];

/// Plane byte of each key's red channel.
pub const RED_MAP: [u8; 80] = [
    0x38, 0x78, 0xb8, 0xf8, 0x35, 0x75, 0xb5, 0xf5, 0x26, 0x32, 0x72, 0xb2, 0xf2, 0x2f, 0x6f, 0xaf,
    0xef, 0x66, 0x2c, 0x6c, 0xac, 0xec, 0x29, 0x69, 0xa9, 0xe9, 0xa6, 0x1e, 0x5e, 0x9e, 0xde, 0x1b,
    0x5b, 0x9b, 0xdb, 0xe6, 0x18, 0x58, 0x98, 0xd8, 0x15, 0x55, 0x95, 0xd5, 0x23, 0x12, 0x52, 0x92,
    0xd2, 0x0f, 0x4f, 0x8f, 0xcf, 0x63, 0x0c, 0x4c, 0x8c, 0xcc, 0x09, 0x49, 0x89, 0xc9, 0xa3, 0x06,
    0x46, 0x86, 0xc6, 0x03, 0x43, 0x83, 0xc3, 0xe3, 0x3e, 0x7e, 0xbe, 0xfe, 0x3b, 0x7b, 0xbb, 0xfb,
];

/// Plane byte of each key's green channel.
pub const GREEN_MAP: [u8; 80] = [
    0x37, 0x77, 0xb7, 0xf7, 0x34, 0x74, 0xb4, 0xf4, 0x25, 0x31, 0x71, 0xb1, 0xf1, 0x2e, 0x6e, 0xae,
    0xee, 0x65, 0x2b, 0x6b, 0xab, 0xeb, 0x28, 0x68, 0xa8, 0xe8, 0xa5, 0x1d, 0x5d, 0x9d, 0xdd, 0x1a,
    0x5a, 0x9a, 0xda, 0xe5, 0x17, 0x57, 0x97, 0xd7, 0x14, 0x54, 0x94, 0xd4, 0x22, 0x11, 0x51, 0x91,
    0xd1, 0x0e, 0x4e, 0x8e, 0xce, 0x62, 0x0b, 0x4b, 0x8b, 0xcb, 0x08, 0x48, 0x88, 0xc8, 0xa2, 0x05,
    0x45, 0x85, 0xc5, 0x02, 0x42, 0x82, 0xc2, 0xe2, 0x3d, 0x7d, 0xbd, 0xfd, 0x3a, 0x7a, 0xba, 0xfa,
];

pub open spec fn min_u8(a: u8, b: u8) -> u8 {
    if a < b { a } else { b }
}

/// Perceived-brightness scaling of a 6-bit channel: 0 stays 0, 63 maps to
/// a top value that grows with the brightness level (0..=7), in between
/// linearly from 1.
pub open spec fn spec_apply_led_brightness(value: u8, brightness: u8) -> u8 {
    let v = min_u8(value, 0x3f) as int;
    if v == 0 {
        0
    } else {
        let x = min_u8(brightness, 7) as int;
        (((v - 1) * (63 * (x + 5) * (x + 5) - 144)) / 8928int + 1) as u8
    }
}

pub fn apply_led_brightness(value: u8, brightness: u8) -> (r: u8)
    ensures
        r == spec_apply_led_brightness(value, brightness),
        r <= 63,
{
    let value: u8 = if value < 0x3f { value } else { 0x3f };
    if value == 0 {
        return 0;
    }
    let x: u32 = if brightness < 7 { brightness as u32 } else { 7 };
    assert(25 <= (x + 5) * (x + 5) <= 144) by (nonlinear_arith)
        requires
            x <= 7,
    ;
    assert(1575 <= 63 * (x + 5) * (x + 5) <= 63 * 144) by (nonlinear_arith)
        requires
            25 <= (x + 5) * (x + 5) <= 144,
    ;
    let span: u32 = 63 * (x + 5) * (x + 5) - 144;
    let v1: u32 = value as u32 - 1;
    assert(v1 * span <= 62 * (62 * 144)) by (nonlinear_arith)
        requires
            v1 <= 62,
            span <= 62 * 144,
    ;
    let q: u32 = (v1 * span) / 8928;
    assert(q <= 62) by (nonlinear_arith)
        requires
            q as int == (v1 as int * span as int) / 8928int,
            v1 * span <= 62 * (62 * 144),
    ;
    (q + 1) as u8
}

/// Key behind a surface index, if any.
pub open spec fn spec_key_from_index(index: u8) -> Option<u8> {
    if (index as int) < 110 && INDEX_TO_KEY[index as int] != 0xff {
        Some(INDEX_TO_KEY[index as int])
    } else {
        None
    }
}

pub fn key_from_index(index: u8) -> (r: Option<u8>)
    ensures
        r == spec_key_from_index(index),
        r matches Some(k) ==> (k as int) < MK2_KEY_COUNT as int,
{
    if index as usize >= 110 {
        return None;
    }
    let key = INDEX_TO_KEY[index as usize];
    if key == 0xff {
        None
    } else {
        Some(key)
    }
}

/// The plane after one key's three channels are rewritten from the raw
/// colors at a brightness level.
pub open spec fn scaled_key(plane: Seq<u8>, raw: Seq<u8>, brightness: u8, key: int) -> Seq<u8> {
    plane.update(RED_MAP[key] as int, spec_apply_led_brightness(raw[key], brightness)).update(
        GREEN_MAP[key] as int,
        spec_apply_led_brightness(raw[80 + key], brightness),
    ).update(BLUE_MAP[key] as int, spec_apply_led_brightness(raw[160 + key], brightness))
}

/// The plane after keys `0..n` are rewritten in order.
pub open spec fn scaled_upto(plane: Seq<u8>, raw: Seq<u8>, brightness: u8, n: int) -> Seq<u8>
    decreases n,
{
    if n <= 0 {
        plane
    } else {
        scaled_key(scaled_upto(plane, raw, brightness, n - 1), raw, brightness, n - 1)
    }
}

/// Two raw color tables agree on one key.
pub open spec fn same_key_color(raw1: Seq<u8>, raw2: Seq<u8>, k: int) -> bool {
    raw1[k] == raw2[k] && raw1[80 + k] == raw2[80 + k] && raw1[160 + k] == raw2[160 + k]
}

/// Rewriting keys `0..n` reads only those keys' raw colors.
pub proof fn lemma_scaled_upto_reads_keys_below(plane: Seq<u8>, raw1: Seq<u8>, raw2: Seq<u8>, brightness: u8, n: int)
    requires
        0 <= n <= 80,
        raw1.len() == 240,
        raw2.len() == 240,
        forall|k: int| 0 <= k < n ==> #[trigger] same_key_color(raw1, raw2, k),
    ensures
        scaled_upto(plane, raw1, brightness, n) == scaled_upto(plane, raw2, brightness, n),
    decreases n,
{
    if n > 0 {
        assert(same_key_color(raw1, raw2, n - 1));
        lemma_scaled_upto_reads_keys_below(plane, raw1, raw2, brightness, n - 1);
    }
}

/// A packed 0xRRGGBB color taken to 6-bit channels.
pub open spec fn rgb_to_6bit(rgb: u32) -> (u8, u8, u8) {
    (((rgb >> 18u32) & 0x3f) as u8, ((rgb >> 10u32) & 0x3f) as u8, ((rgb >> 2u32) & 0x3f) as u8)
}

/// The raw colors with one key set, channels capped at 63.
pub open spec fn raw_with_key(raw: Seq<u8>, key: int, r: u8, g: u8, b: u8) -> Seq<u8> {
    raw.update(key, min_u8(r, 0x3f)).update(80 + key, min_u8(g, 0x3f)).update(160 + key, min_u8(b, 0x3f))
}

/// Payload bits of lanes `0..n` of one shift byte: bit `l` is set when plane
/// byte `src + l` has the brightness bit set.
pub open spec fn lane_bits(plane: Seq<u8>, src: int, mask: u8, n: int) -> u8
    decreases n,
{
    if n <= 0 {
        0
    } else {
        lane_bits(plane, src, mask, n - 1) | (if plane[src + n - 1] & mask != 0 {
            (1u8 << ((n - 1) as u8))
        } else {
            0u8
        })
    }
}

/// The shift payload of one group and brightness bit: for each byte, the
/// complement of the lanes lit at that bit; all 0xff when out of range.
pub open spec fn spec_group_payload(plane: Seq<u8>, group: usize, bright_bit: usize) -> Seq<u8> {
    if group >= GROUP_COUNT || bright_bit >= 8 {
        Seq::new(8, |i: int| 0xffu8)
    } else {
        Seq::new(
            8,
            |i: int| !lane_bits(plane, group * 64 + i * 8, (1u8 << (bright_bit as u8)), 8),
        )
    }
}

/// LED state of the Launchpad MK2: raw 6-bit colors per key, the brightness
/// level, and the scaled plane the scan shifts out.
pub struct Leds {
    plane: [u8; 256],
    raw_rgb: [u8; 240],
    brightness: u8,
}

impl Leds {
    /// Scaled intensity of each plane byte.
    pub closed spec fn plane(&self) -> Seq<u8> {
        self.plane@
    }

    /// Raw colors: red of keys 0..80, then green, then blue.
    pub closed spec fn raw(&self) -> Seq<u8> {
        self.raw_rgb@
    }

    pub closed spec fn level(&self) -> u8 {
        self.brightness
    }

    pub fn new() -> (r: Self)
        ensures
            r.plane() == Seq::new(256, |i: int| 0u8),
            r.raw() == Seq::new(240, |i: int| 0u8),
            r.level() == 7,
    {
        let r = Leds { plane: [0; 256], raw_rgb: [0; 240], brightness: 7 };
        assert(r.plane() =~= Seq::new(256, |i: int| 0u8));
        assert(r.raw() =~= Seq::new(240, |i: int| 0u8));
        r
    }

    fn scale_intensity(&self, value: u8) -> (r: u8)
        ensures
            r == spec_apply_led_brightness(value, self.brightness),
    {
        apply_led_brightness(value, self.brightness)
    }

    fn write_scaled_key(&mut self, key: usize)
        requires
            key < MK2_KEY_COUNT,
        ensures
            final(self).plane@ == scaled_key(old(self).plane@, old(self).raw_rgb@, old(self).brightness, key as int),
            final(self).raw_rgb@ == old(self).raw_rgb@,
            final(self).brightness == old(self).brightness,
    {
        let red = self.scale_intensity(self.raw_rgb[RAW_RED_OFFSET + key]);
        self.plane[RED_MAP[key] as usize] = red;
        let green = self.scale_intensity(self.raw_rgb[RAW_GREEN_OFFSET + key]);
        self.plane[GREEN_MAP[key] as usize] = green;
        let blue = self.scale_intensity(self.raw_rgb[RAW_BLUE_OFFSET + key]);
        self.plane[BLUE_MAP[key] as usize] = blue;
    }

    fn rebuild_scaled_plane(&mut self)
        ensures
            final(self).plane@ == scaled_upto(old(self).plane@, old(self).raw_rgb@, old(self).brightness, 80),
            final(self).raw_rgb@ == old(self).raw_rgb@,
            final(self).brightness == old(self).brightness,
    {
        let mut key: usize = 0;
        while key < MK2_KEY_COUNT
            invariant
                key <= 80,
                self.raw_rgb@ == old(self).raw_rgb@,
                self.brightness == old(self).brightness,
                self.plane@ == scaled_upto(old(self).plane@, old(self).raw_rgb@, old(self).brightness, key as int),
            decreases 80 - key,
        {
            self.write_scaled_key(key);
            key = key + 1;
        }
    }

    fn set_key_rgb(&mut self, key: usize, r: u8, g: u8, b: u8)
        ensures
            key >= MK2_KEY_COUNT ==> final(self).plane@ == old(self).plane@ && final(self).raw_rgb@ == old(self).raw_rgb@,
            key < MK2_KEY_COUNT ==> {
                let raw = raw_with_key(old(self).raw_rgb@, key as int, r, g, b);
                &&& final(self).raw_rgb@ == raw
                &&& final(self).plane@ == scaled_key(old(self).plane@, raw, old(self).brightness, key as int)
            },
            final(self).brightness == old(self).brightness,
    {
        if key >= MK2_KEY_COUNT {
            return;
        }
        self.raw_rgb[RAW_RED_OFFSET + key] = if r < 0x3f { r } else { 0x3f };
        self.raw_rgb[RAW_GREEN_OFFSET + key] = if g < 0x3f { g } else { 0x3f };
        self.raw_rgb[RAW_BLUE_OFFSET + key] = if b < 0x3f { b } else { 0x3f };
        self.write_scaled_key(key);
    }

    fn set_key_led(&mut self, key: usize, rgb: u32)
        ensures
            ({
                let (r, g, b) = rgb_to_6bit(rgb);
                &&& key >= MK2_KEY_COUNT ==> final(self).plane@ == old(self).plane@ && final(self).raw_rgb@ == old(self).raw_rgb@
                &&& key < MK2_KEY_COUNT ==> {
                    let raw = raw_with_key(old(self).raw_rgb@, key as int, r, g, b);
                    &&& final(self).raw_rgb@ == raw
                    &&& final(self).plane@ == scaled_key(old(self).plane@, raw, old(self).brightness, key as int)
                }
            }),
            final(self).brightness == old(self).brightness,
    {
        let r = ((rgb >> 18) & 0x3f) as u8;
        let g = ((rgb >> 10) & 0x3f) as u8;
        let b = ((rgb >> 2) & 0x3f) as u8;
        self.set_key_rgb(key, r, g, b);
    }

    /// Sets every key to one packed 0xRRGGBB color.
    pub fn fill(&mut self, rgb: u32)
        ensures
            ({
                let (r, g, b) = rgb_to_6bit(rgb);
                let raw = Seq::new(
                    240,
                    |i: int| if i < 80 { min_u8(r, 0x3f) } else if i < 160 { min_u8(g, 0x3f) } else { min_u8(b, 0x3f) },
                );
                &&& final(self).raw() == raw
                &&& final(self).plane() == scaled_upto(old(self).plane(), raw, old(self).level(), 80)
            }),
            final(self).level() == old(self).level(),
    {
        let ghost c = rgb_to_6bit(rgb);
        let ghost r = c.0;
        let ghost g = c.1;
        let ghost b = c.2;
        let ghost target = Seq::new(
            240,
            |i: int| if i < 80 { min_u8(r, 0x3f) } else if i < 160 { min_u8(g, 0x3f) } else { min_u8(b, 0x3f) },
        );
        let mut key: usize = 0;
        while key < MK2_KEY_COUNT
            invariant
                key <= 80,
                c == rgb_to_6bit(rgb),
                r == c.0,
                g == c.1,
                b == c.2,
                target == Seq::new(
                    240,
                    |i: int| if i < 80 { min_u8(r, 0x3f) } else if i < 160 { min_u8(g, 0x3f) } else { min_u8(b, 0x3f) },
                ),
                self.brightness == old(self).brightness,
                self.raw_rgb@.len() == 240,
                forall|k: int| 0 <= k < key ==> #[trigger] same_key_color(self.raw_rgb@, target, k),
                self.plane@ == scaled_upto(old(self).plane@, self.raw_rgb@, old(self).brightness, key as int),
            decreases 80 - key,
        {
            let ghost raw0 = self.raw_rgb@;
            self.set_key_led(key, rgb);
            proof {
                assert forall|k: int| 0 <= k < key implies #[trigger] same_key_color(raw0, self.raw_rgb@, k) by {
                    assert(same_key_color(raw0, target, k));
                }
                lemma_scaled_upto_reads_keys_below(old(self).plane@, raw0, self.raw_rgb@, old(self).brightness, key as int);
                assert forall|k: int| 0 <= k <= key implies #[trigger] same_key_color(self.raw_rgb@, target, k) by {
                    if k < key {
                        assert(same_key_color(raw0, target, k));
                    } else {
                        assert(self.raw_rgb@ == raw_with_key(raw0, key as int, r, g, b));
                        assert(self.raw_rgb@[k] == target[k]);
                        assert(self.raw_rgb@[80 + k] == target[80 + k]);
                        assert(self.raw_rgb@[160 + k] == target[160 + k]);
                    }
                }
            }
            key = key + 1;
        }
        proof {
            lemma_scaled_upto_reads_keys_below(old(self).plane@, self.raw_rgb@, target, old(self).brightness, 80);
            assert forall|i: int| 0 <= i < 240 implies self.raw_rgb@[i] == target[i] by {
                let k = if i < 80 { i } else if i < 160 { i - 80 } else { i - 160 };
                assert(same_key_color(self.raw_rgb@, target, k));
            }
            assert(self.raw_rgb@ =~= target);
        }
    }

    /// Turns every key off.
    pub fn clear(&mut self)
        ensures
            final(self).raw() == Seq::new(240, |i: int| 0u8),
            final(self).plane() == scaled_upto(old(self).plane(), Seq::new(240, |i: int| 0u8), old(self).level(), 80),
            final(self).level() == old(self).level(),
    {
        self.fill(0);
        proof {
            let (r, g, b) = rgb_to_6bit(0);
            assert(r == 0 && g == 0 && b == 0) by (bit_vector)
                requires
                    r == ((0u32 >> 18u32) & 0x3f) as u8,
                    g == ((0u32 >> 10u32) & 0x3f) as u8,
                    b == ((0u32 >> 2u32) & 0x3f) as u8,
            ;
            assert(Seq::new(
                240,
                |i: int| if i < 80 { min_u8(r, 0x3f) } else if i < 160 { min_u8(g, 0x3f) } else { min_u8(b, 0x3f) },
            ) =~= Seq::new(240, |i: int| 0u8));
        }
    }

    /// Sets the key behind a surface index to a packed 0xRRGGBB color.
    pub fn set_led(&mut self, index: u8, rgb: u32)
        ensures
            ({
                let (r, g, b) = rgb_to_6bit(rgb);
                match spec_key_from_index(index) {
                    Some(key) => {
                        let raw = raw_with_key(old(self).raw(), key as int, r, g, b);
                        &&& final(self).raw() == raw
                        &&& final(self).plane() == scaled_key(old(self).plane(), raw, old(self).level(), key as int)
                    },
                    None => final(self).plane() == old(self).plane() && final(self).raw() == old(self).raw(),
                }
            }),
            final(self).level() == old(self).level(),
    {
        if let Some(key) = key_from_index(index) {
            self.set_key_led(key as usize, rgb);
        }
    }

    /// Sets the key behind a surface index to 6-bit channels.
    pub fn set_led_rgb(&mut self, index: u8, r: u8, g: u8, b: u8)
        ensures
            match spec_key_from_index(index) {
                Some(key) => {
                    let raw = raw_with_key(old(self).raw(), key as int, r, g, b);
                    &&& final(self).raw() == raw
                    &&& final(self).plane() == scaled_key(old(self).plane(), raw, old(self).level(), key as int)
                },
                None => final(self).plane() == old(self).plane() && final(self).raw() == old(self).raw(),
            },
            final(self).level() == old(self).level(),
    {
        if let Some(key) = key_from_index(index) {
            self.set_key_rgb(key as usize, r, g, b);
        }
    }

    /// The 8 bytes shifted out for one group at one brightness bit.
    pub fn build_group_payload(&self, group: usize, bright_bit: usize, out: &mut [u8; 8])
        ensures
            final(out)@ == spec_group_payload(self.plane(), group, bright_bit),
    {
        *out = [0xff; 8];
        if group >= GROUP_COUNT || bright_bit >= 8 {
            assert(out@ =~= spec_group_payload(self.plane(), group, bright_bit));
            return;
        }
        let mask: u8 = 1u8 << (bright_bit as u8);
        let base = group * GROUP_STRIDE;
        let mut byte_idx: usize = 0;
        while byte_idx < SHIFT_BYTES_PER_GROUP
            invariant
                group < 4,
                bright_bit < 8,
                mask == 1u8 << (bright_bit as u8),
                base == group * 64,
                byte_idx <= 8,
                forall|i: int| 0 <= i < byte_idx ==> out@[i] == !lane_bits(self.plane@, base + i * 8, mask, 8),
            decreases 8 - byte_idx,
        {
            let mut bits: u8 = 0;
            let src = base + byte_idx * 8;
            let mut lane: usize = 0;
            while lane < 8
                invariant
                    lane <= 8,
                    src == base + byte_idx * 8,
                    src + 8 <= 256,
                    bits == lane_bits(self.plane@, src as int, mask, lane as int),
                decreases 8 - lane,
            {
                if self.plane[src + lane] & mask != 0 {
                    bits = bits | (1u8 << (lane as u8));
                } else {
                    proof {
                        crate::bits::lemma_u8_bits(bits);
                    }
                }
                lane = lane + 1;
            }
            out[byte_idx] = !bits;
            byte_idx = byte_idx + 1;
        }
        assert(out@ =~= spec_group_payload(self.plane(), group, bright_bit));
    }

    pub fn brightness(&self) -> (r: u8)
        ensures
            r == self.level(),
    {
        self.brightness
    }

    /// Sets the brightness level (capped at 7) and rescales every key.
    pub fn set_brightness(&mut self, brightness: u8)
        ensures
            final(self).level() == min_u8(brightness, 7),
            final(self).raw() == old(self).raw(),
            final(self).plane() == scaled_upto(old(self).plane(), old(self).raw(), min_u8(brightness, 7), 80),
    {
        self.brightness = if brightness < 7 { brightness } else { 7 };
        self.rebuild_scaled_plane();
    }
}


/// At the top brightness level a channel is shown as it is (capped at 63).
pub proof fn lemma_full_brightness_is_identity(value: u8)
    ensures
        spec_apply_led_brightness(value, 7) == min_u8(value, 0x3f),
{
    let v = min_u8(value, 0x3f) as int;
    let x = min_u8(7, 7) as int;
    assert(x == 7);
    assert(63 * (x + 5) * (x + 5) - 144 == 8928) by (nonlinear_arith)
        requires
            x == 7,
    ;
    if v != 0 {
        assert(((v - 1) * 8928) / 8928 == v - 1) by (nonlinear_arith)
            requires
                v >= 1,
        ;
        assert(((v - 1) * (63 * (x + 5) * (x + 5) - 144)) / 8928int + 1 == v);
    }
}

/// Brighter channels never come out darker, at any brightness level.
pub proof fn lemma_brightness_monotone(a: u8, b: u8, level: u8)
    requires
        a <= b,
    ensures
        spec_apply_led_brightness(a, level) <= spec_apply_led_brightness(b, level),
{
    let va = min_u8(a, 0x3f) as int;
    let vb = min_u8(b, 0x3f) as int;
    let x = min_u8(level, 7) as int;
    let span = 63 * (x + 5) * (x + 5) - 144;
    assert(1575 <= 63 * (x + 5) * (x + 5) <= 63 * 144) by (nonlinear_arith)
        requires
            0 <= x <= 7,
    ;
    if va != 0 {
        assert(((va - 1) * span) / 8928 <= ((vb - 1) * span) / 8928) by (nonlinear_arith)
            requires
                1 <= va <= vb,
                span >= 0,
        ;
        assert(((vb - 1) * span) / 8928 + 1 <= 63) by (nonlinear_arith)
            requires
                vb <= 63,
                0 <= span <= 8928,
        ;
    }
}

} // verus!
