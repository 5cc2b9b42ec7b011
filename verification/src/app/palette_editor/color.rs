use vstd::prelude::*;

verus! {

/// A packed 0xRRGGBB color.
pub open spec fn spec_rgb(r: u8, g: u8, b: u8) -> u32 {
    ((r as u32) << 16u32) | ((g as u32) << 8u32) | (b as u32)
}

pub fn rgb(r: u8, g: u8, b: u8) -> (c: u32)
    ensures
        c == spec_rgb(r, g, b),
        c == r * 65536 + g * 256 + b,
{
    let (r32, g32, b32) = (r as u32, g as u32, b as u32);
    assert(r32 < 256 && g32 < 256 && b32 < 256);
    proof {
        crate::bits::lemma_pack_bytes(r32, g32, b32);
    }
    (r32 << 16) | (g32 << 8) | b32
}

/// Each channel of a color times `factor` over 64 (64 is full scale).
pub open spec fn spec_scale_color(color: u32, factor: u8) -> u32 {
    let r = ((((color >> 16u32) & 0xff) * factor) / 64) as u32;
    let g = ((((color >> 8u32) & 0xff) * factor) / 64) as u32;
    let b = (((color & 0xff) * factor) / 64) as u32;
    (r << 16u32) | (g << 8u32) | b
}

pub fn scale_color(color: u32, factor: u8) -> (r: u32)
    ensures
        r == spec_scale_color(color, factor),
{
    let factor = factor as u32;
    let cr = (color >> 16) & 0xff;
    let cg = (color >> 8) & 0xff;
    let cb = color & 0xff;
    assert(cr <= 255 && cg <= 255 && cb <= 255) by (bit_vector)
        requires
            cr == (color >> 16u32) & 0xff,
            cg == (color >> 8u32) & 0xff,
            cb == color & 0xff,
    ;
    assert(cr * factor <= 65025 && cg * factor <= 65025 && cb * factor <= 65025) by (nonlinear_arith)
        requires
            cr <= 255,
            cg <= 255,
            cb <= 255,
            factor <= 255,
    ;
    let (xr, xg, xb) = (cr * factor, cg * factor, cb * factor);
    proof {
        crate::bits::lemma_u32_shr6(xr);
        crate::bits::lemma_u32_shr6(xg);
        crate::bits::lemma_u32_shr6(xb);
    }
    let r = xr >> 6;
    let g = xg >> 6;
    let b = xb >> 6;
    (r << 16) | (g << 8) | b
}

/// HSV (each 0..=255) to a packed RGB color, in six hue regions of 43.
pub open spec fn spec_hsv_to_rgb(h: u8, s: u8, v: u8) -> u32 {
    if v == 0 {
        0
    } else if s == 0 {
        spec_rgb(v, v, v)
    } else {
        let region = h / 43;
        let remainder = (h - region * 43) * 6;
        let p = ((v * (255 - s)) / 256) as u8;
        let q = ((v * (255 - (s * remainder) / 256)) / 256) as u8;
        let t = ((v * (255 - (s * (255 - remainder)) / 256)) / 256) as u8;
        if region == 0 {
            spec_rgb(v, t, p)
        } else if region == 1 {
            spec_rgb(q, v, p)
        } else if region == 2 {
            spec_rgb(p, v, t)
        } else if region == 3 {
            spec_rgb(p, q, v)
        } else if region == 4 {
            spec_rgb(t, p, v)
        } else {
            spec_rgb(v, p, q)
        }
    }
}

pub fn hsv_to_rgb(h: u8, s: u8, v: u8) -> (c: u32)
    ensures
        c == spec_hsv_to_rgb(h, s, v),
{
    if v == 0 {
        return 0;
    }
    if s == 0 {
        return rgb(v, v, v);
    }
    let region = h / 43;
    let remainder: u8 = (h - region * 43) * 6;
    let v16 = v as u16;
    let s16 = s as u16;
    let rem16 = remainder as u16;
    assert(v16 * (255 - s16) <= 65025) by (nonlinear_arith)
        requires
            v16 <= 255,
            s16 <= 255,
    ;
    let pprod: u16 = v16 * (255 - s16);
    proof {
        crate::bits::lemma_u16_shifts(pprod);
    }
    let p = (pprod >> 8) as u8;
    assert(s16 * rem16 <= 65025 && (s16 * rem16) / 256 <= 254) by (nonlinear_arith)
        requires
            s16 <= 255,
            rem16 <= 252,
    ;
    let sprod: u16 = s16 * rem16;
    proof {
        crate::bits::lemma_u16_shifts(sprod);
    }
    let sr: u16 = sprod >> 8;
    assert(v16 * (255 - sr) <= 65025) by (nonlinear_arith)
        requires
            v16 <= 255,
            sr <= 255,
    ;
    let qprod: u16 = v16 * (255 - sr);
    proof {
        crate::bits::lemma_u16_shifts(qprod);
    }
    let q = (qprod >> 8) as u8;
    assert(s16 * (255 - rem16) <= 65025) by (nonlinear_arith)
        requires
            s16 <= 255,
            rem16 <= 252,
    ;
    let tprod0: u16 = s16 * (255 - rem16);
    proof {
        crate::bits::lemma_u16_shifts(tprod0);
    }
    let st: u16 = tprod0 >> 8;
    assert(st <= 254) by (nonlinear_arith)
        requires
            st == (s16 * (255 - rem16)) / 256,
            s16 <= 255,
            rem16 <= 252,
    ;
    assert(v16 * (255 - st) <= 65025) by (nonlinear_arith)
        requires
            v16 <= 255,
            st <= 255,
    ;
    let tprod: u16 = v16 * (255 - st);
    proof {
        crate::bits::lemma_u16_shifts(tprod);
    }
    let t = (tprod >> 8) as u8;
    if region == 0 {
        rgb(v, t, p)
    } else if region == 1 {
        rgb(q, v, p)
    } else if region == 2 {
        rgb(p, v, t)
    } else if region == 3 {
        rgb(p, q, v)
    } else if region == 4 {
        rgb(t, p, v)
    } else {
        rgb(v, p, q)
    }
}


/// At the end of a fade in (factor 64) a color is shown unchanged.
pub proof fn lemma_full_fade_keeps_color(color: u32)
    requires
        color <= 0xff_ffff,
    ensures
        spec_scale_color(color, 64) == color,
{
    let cr = (color >> 16u32) & 0xff;
    let cg = (color >> 8u32) & 0xff;
    let cb = color & 0xff;
    assert(cr < 256 && cg < 256 && cb < 256 && (cr << 16u32) | (cg << 8u32) | cb == color) by (bit_vector)
        requires
            cr == (color >> 16u32) & 0xff,
            cg == (color >> 8u32) & 0xff,
            cb == color & 0xff,
            color <= 0xff_ffff,
    ;
    assert((cr * 64) / 64 == cr && (cg * 64) / 64 == cg && (cb * 64) / 64 == cb) by (nonlinear_arith);
}

/// The standard six-sector HSV conversion: with `v` 0 the color is black;
/// with `s` 0 it is the grey whose three channels are `v`; otherwise, for
/// hue sector `h / 43` and position `f` (0..=252) in it, the largest
/// channel is `v`, the smallest `v(255 - s)/256`, and the third falls
/// (`v(255 - s f/256)/256`) or rises (`v(255 - s(255 - f)/256)/256`)
/// through the sector: red to yellow, yellow to green, green to cyan,
/// cyan to blue, blue to magenta, magenta to red.
pub proof fn lemma_hsv_sectors(h: u8, s: u8, v: u8)
    ensures
        ({
            let c = spec_hsv_to_rgb(h, s, v) as int;
            let red = c / 65536;
            let green = (c / 256) % 256;
            let blue = c % 256;
            let sector = h / 43;
            let f = (h % 43) * 6;
            let low = (v * (255 - s)) / 256;
            let falling = (v * (255 - (s * f) / 256)) / 256;
            let rising = (v * (255 - (s * (255 - f)) / 256)) / 256;
            &&& v == 0 ==> c == 0
            &&& v != 0 && s == 0 ==> red == v && green == v && blue == v
            &&& v != 0 && s != 0 ==> {
                &&& sector == 0 ==> red == v && green == rising && blue == low
                &&& sector == 1 ==> red == falling && green == v && blue == low
                &&& sector == 2 ==> red == low && green == v && blue == rising
                &&& sector == 3 ==> red == low && green == falling && blue == v
                &&& sector == 4 ==> red == rising && green == low && blue == v
                &&& sector == 5 ==> red == v && green == low && blue == falling
            }
        }),
{
    if v != 0 {
        let region = h / 43;
        let remainder = (h - region * 43) * 6;
        assert(remainder == (h % 43) * 6);
        assert(remainder <= 252);
        let p = ((v * (255 - s)) / 256) as u8;
        let q = ((v * (255 - (s * remainder) / 256)) / 256) as u8;
        let t = ((v * (255 - (s * (255 - remainder)) / 256)) / 256) as u8;
        assert(0 <= (v * (255 - s)) / 256 <= 255) by (nonlinear_arith)
            requires
                v <= 255,
                s <= 255,
        ;
        assert(0 <= (s * remainder) / 256 <= 255) by (nonlinear_arith)
            requires
                s <= 255,
                0 <= remainder <= 252,
        ;
        assert(0 <= (v * (255 - (s * remainder) / 256)) / 256 <= 255) by (nonlinear_arith)
            requires
                v <= 255,
                0 <= (s * remainder) / 256 <= 255,
        ;
        assert(0 <= (s * (255 - remainder)) / 256 <= 255) by (nonlinear_arith)
            requires
                s <= 255,
                0 <= remainder <= 252,
        ;
        assert(0 <= (v * (255 - (s * (255 - remainder)) / 256)) / 256 <= 255) by (nonlinear_arith)
            requires
                v <= 255,
                0 <= (s * (255 - remainder)) / 256 <= 255,
        ;
        lemma_unpack(v, v, v);
        lemma_unpack(v, t, p);
        lemma_unpack(q, v, p);
        lemma_unpack(p, v, t);
        lemma_unpack(p, q, v);
        lemma_unpack(t, p, v);
        lemma_unpack(v, p, q);
    }
}

/// A packed color's channels read back by division.
proof fn lemma_unpack(r: u8, g: u8, b: u8)
    ensures
        (spec_rgb(r, g, b) as int) / 65536 == r,
        ((spec_rgb(r, g, b) as int) / 256) % 256 == g,
        (spec_rgb(r, g, b) as int) % 256 == b,
{
    crate::bits::lemma_pack_bytes(r as u32, g as u32, b as u32);
    let c = r * 65536 + g * 256 + b;
    assert(c / 65536 == r && (c / 256) % 256 == g && c % 256 == b) by (nonlinear_arith)
        requires
            c == r * 65536 + g * 256 + b,
            r < 256,
            g < 256,
            b < 256,
    ;
}

} // verus!
