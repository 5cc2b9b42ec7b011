use vstd::prelude::*;
use crate::app::AppId;
use crate::driver::LedCommand;
use crate::led::{spec_set_raw6, LedView};
use crate::system::{cleared, Sys};

verus! {

/// Longest animation accepted, in bytes.
pub const BOOT_DATA_MAX: usize = 0x1000_0000;

/// The LEDs a mask byte lights, bit by bit (bits `0..n`): LED
/// `8 * byte_idx + bit` for each set bit.
pub open spec fn byte_leds(b: u8, byte_idx: int, n: int) -> Seq<u8>
    decreases n,
{
    if n <= 0 {
        Seq::empty()
    } else {
        let prev = byte_leds(b, byte_idx, n - 1);
        if b & (1u8 << ((n - 1) as u8)) != 0 {
            prev.push((byte_idx * 8 + n - 1) as u8)
        } else {
            prev
        }
    }
}

/// The LEDs lit by the first `n` bytes of a mask starting at `start`.
pub open spec fn mask_leds(data: Seq<u8>, start: int, n: int) -> Seq<u8>
    decreases n,
{
    if n <= 0 {
        Seq::empty()
    } else {
        mask_leds(data, start, n - 1) + byte_leds(data[start + n - 1], n - 1, 8)
    }
}

/// One group of an animation frame: a velocity, then either a mask of LEDs
/// (count byte with bit 7 set, low bits the mask length) or a list of LED
/// numbers (count byte the list length).
pub enum GroupParse {
    Complete { next: int, velocity: u8, leds: Seq<u8> },
    /// The data ends inside the group; reading stops at `next`.
    Truncated { next: int },
}

pub open spec fn parse_group(data: Seq<u8>, off: int) -> GroupParse {
    if off + 2 > data.len() {
        GroupParse::Truncated { next: off }
    } else {
        let velocity = data[off];
        let count_byte = data[off + 1];
        let start = off + 2;
        if count_byte & 0x80 != 0 {
            let mask_len = (count_byte & 0x7f) as int;
            if start + mask_len > data.len() {
                GroupParse::Truncated { next: start }
            } else {
                GroupParse::Complete { next: start + mask_len, velocity, leds: mask_leds(data, start, mask_len) }
            }
        } else {
            let count = count_byte as int;
            if start + count > data.len() {
                GroupParse::Truncated { next: start }
            } else {
                GroupParse::Complete { next: start + count, velocity, leds: data.subrange(start, start + count) }
            }
        }
    }
}

/// Offset after up to `remaining` groups from `off`, and the (LED,
/// velocity) pairs they light, in order; a truncated group ends the run.
pub open spec fn parse_groups(data: Seq<u8>, off: int, remaining: int) -> (int, Seq<(u8, u8)>)
    decreases remaining,
{
    if remaining <= 0 {
        (off, Seq::empty())
    } else {
        match parse_group(data, off) {
            GroupParse::Truncated { next } => (next, Seq::empty()),
            GroupParse::Complete { next, velocity, leds } => {
                let (o2, w2) = parse_groups(data, next, remaining - 1);
                (o2, leds.map_values(|l: u8| (l, velocity)) + w2)
            },
        }
    }
}

/// Frame index, offset and lit (LED, velocity) pairs after playing every
/// frame due by `tick`: frames are read while any remain and a whole
/// header (tick, group count) is present.
pub open spec fn parse_frames(data: Seq<u8>, tick: u16, num_frames: u16, frame_index: int, off: int) -> (int, int, Seq<(u8, u8)>)
    decreases num_frames - frame_index,
{
    if frame_index >= num_frames || off + 3 > data.len() {
        (frame_index, off, Seq::empty())
    } else {
        let frame_tick = data[off] + 256 * data[off + 1];
        if frame_tick > tick {
            (frame_index, off, Seq::empty())
        } else {
            let (o2, w) = parse_groups(data, off + 3, data[off + 2] as int);
            let (fi3, o3, w3) = parse_frames(data, tick, num_frames, frame_index + 1, o2);
            (fi3, o3, w + w3)
        }
    }
}

proof fn lemma_parse_groups_bounds(data: Seq<u8>, off: int, remaining: int)
    requires
        0 <= off <= data.len(),
    ensures
        off <= parse_groups(data, off, remaining).0 <= data.len(),
    decreases remaining,
{
    if remaining > 0 {
        match parse_group(data, off) {
            GroupParse::Truncated { next } => {},
            GroupParse::Complete { next, velocity, leds } => {
                lemma_parse_groups_bounds(data, next, remaining - 1);
            },
        }
    }
}

/// The engine and output after the Novation colors of (LED, velocity)
/// pairs are set, each LED taken through the layout and the orientation.
pub open spec fn spec_novations(sys: &Sys, v: LedView, out: Seq<LedCommand>, writes: Seq<(u8, u8)>) -> (LedView, Seq<LedCommand>)
    decreases writes.len(),
{
    if writes.len() == 0 {
        (v, out)
    } else {
        let (v1, o1) = spec_novations(sys, v, out, writes.drop_last());
        let (led, velocity) = writes.last();
        spec_set_raw6(v1, o1, sys.rotation.spec_to_raw(sys.layout.index_of(led)), sys.palettes.novation.spec_rgb(velocity))
    }
}

/// The power-up animation: frames of LED groups shown tick by tick, then a
/// switch to performance mode.
pub struct BootApp {
    pub data: Vec<u8>,
    pub tick: u16,
    pub frame_index: u16,
    pub offset: usize,
    pub requested_switch: Option<AppId>,
}

impl BootApp {
    /// The animation's bytes.
    pub closed spec fn animation(&self) -> Seq<u8> {
        self.data@
    }

    pub open spec fn wf(&self) -> bool {
        &&& self.animation().len() <= BOOT_DATA_MAX
        &&& self.offset <= self.animation().len() || self.animation().len() < 4
    }

    pub fn new(data: Vec<u8>) -> (r: Self)
        requires
            data@.len() <= BOOT_DATA_MAX,
        ensures
            r.wf(),
            r.animation() == data@,
            r.tick == 0,
            r.frame_index == 0,
            r.offset == 4,
            r.requested_switch is None,
    {
        BootApp { data, tick: 0, frame_index: 0, offset: 4, requested_switch: None }
    }

    /// Restarts the animation on a blank surface.
    pub fn on_enter(&mut self, sys: &mut Sys)
        requires
            old(sys).wf(),
            old(self).wf(),
        ensures
            final(self).wf(),
            final(self).animation() == old(self).animation(),
            final(self).tick == 0,
            final(self).frame_index == 0,
            final(self).offset == 4,
            final(self).requested_switch is None,
            final(sys).leds_now(old(sys), cleared(*old(sys))),
            *final(self) == boot_restarted(*old(self)),
    {
        self.tick = 0;
        self.frame_index = 0;
        self.offset = 4;
        self.requested_switch = None;
        sys.led_clear();
    }

    fn decode_groups(&self, off: usize, remaining: u8, out: &mut Vec<(u8, u8)>) -> (r: usize)
        requires
            self.wf(),
            off <= self.animation().len(),
        ensures
            r as int == parse_groups(self.animation(), off as int, remaining as int).0,
            final(out)@ == old(out)@ + parse_groups(self.animation(), off as int, remaining as int).1,
    {
        proof {
            lemma_parse_groups_bounds(self.data@, off as int, remaining as int);
            assert(out@ =~= out@ + Seq::<(u8, u8)>::empty());
        }
        let len = self.data.len();
        let mut offset = off;
        let mut g: u8 = 0;
        let ghost w0 = out@;
        while g < remaining
            invariant
                w0 == old(out)@,
                len == self.data@.len(),
                len <= BOOT_DATA_MAX,
                g <= remaining,
                offset <= len,
                parse_groups(self.data@, offset as int, (remaining - g) as int).0 == parse_groups(self.data@, off as int, remaining as int).0,
                out@ + parse_groups(self.data@, offset as int, (remaining - g) as int).1 == w0 + parse_groups(self.data@, off as int, remaining as int).1,
            decreases remaining - g,
        {
            let ghost o0 = offset as int;
            let ghost rem = (remaining - g) as int;
            if offset + 2 > len {
                proof {
                    assert(parse_group(self.data@, o0) == GroupParse::Truncated { next: o0 });
                    assert(parse_groups(self.data@, o0, rem) == (o0, Seq::<(u8, u8)>::empty()));
                    assert(out@ + Seq::<(u8, u8)>::empty() =~= out@);
                }
                return offset;
            }
            let velocity = self.data[offset];
            let count_byte = self.data[offset + 1];
            offset = offset + 2;
            if (count_byte & 0x80) != 0 {
                let mask_len = (count_byte & 0x7f) as usize;
                proof {
                    crate::bits::lemma_u8_bits(count_byte);
                }
                if offset + mask_len > len {
                    proof {
                        assert(parse_group(self.data@, o0) == GroupParse::Truncated { next: o0 + 2 });
                        assert(parse_groups(self.data@, o0, rem) == (o0 + 2, Seq::<(u8, u8)>::empty()));
                        assert(out@ + Seq::<(u8, u8)>::empty() =~= out@);
                    }
                    return offset;
                }
                let ghost before = out@;
                let mut byte_idx: usize = 0;
                while byte_idx < mask_len
                    invariant
                        len == self.data@.len(),
                        offset + mask_len <= len,
                        mask_len < 128,
                        byte_idx <= mask_len,
                        out@ == before + mask_leds(self.data@, offset as int, byte_idx as int).map_values(|l: u8| (l, velocity)),
                    decreases mask_len - byte_idx,
                {
                    let b = self.data[offset + byte_idx];
                    let ghost mid = out@;
                    let mut bit: u8 = 0;
                    while bit < 8
                        invariant
                            bit <= 8,
                            byte_idx < 128,
                            out@ == mid + byte_leds(b, byte_idx as int, bit as int).map_values(|l: u8| (l, velocity)),
                        decreases 8 - bit,
                    {
                        if (b & (1u8 << bit)) != 0 {
                            let led = (byte_idx * 8 + bit as usize) as u8;
                            out.push((led, velocity));
                            proof {
                                assert(byte_leds(b, byte_idx as int, bit + 1).map_values(|l: u8| (l, velocity)) =~= byte_leds(b, byte_idx as int, bit as int).map_values(|l: u8| (l, velocity)).push((led, velocity)));
                            }
                        } else {
                            proof {
                                assert(byte_leds(b, byte_idx as int, bit + 1) == byte_leds(b, byte_idx as int, bit as int));
                            }
                        }
                        bit = bit + 1;
                    }
                    proof {
                        let f = |l: u8| (l, velocity);
                        assert(mask_leds(self.data@, offset as int, byte_idx + 1) == mask_leds(self.data@, offset as int, byte_idx as int) + byte_leds(b, byte_idx as int, 8));
                        assert((mask_leds(self.data@, offset as int, byte_idx as int) + byte_leds(b, byte_idx as int, 8)).map_values(f) =~= mask_leds(self.data@, offset as int, byte_idx as int).map_values(f) + byte_leds(b, byte_idx as int, 8).map_values(f));
                    }
                    byte_idx = byte_idx + 1;
                }
                offset = offset + mask_len;
                proof {
                    let leds = mask_leds(self.data@, o0 + 2, mask_len as int);
                    assert(parse_group(self.data@, o0) == GroupParse::Complete { next: offset as int, velocity, leds });
                    let (o2, w2) = parse_groups(self.data@, offset as int, rem - 1);
                    assert(parse_groups(self.data@, o0, rem) == (o2, leds.map_values(|l: u8| (l, velocity)) + w2));
                    assert(before + leds.map_values(|l: u8| (l, velocity)) + w2 =~= before + (leds.map_values(|l: u8| (l, velocity)) + w2));
                }
            } else {
                let count = count_byte as usize;
                if offset + count > len {
                    proof {
                        assert(parse_group(self.data@, o0) == GroupParse::Truncated { next: o0 + 2 });
                        assert(parse_groups(self.data@, o0, rem) == (o0 + 2, Seq::<(u8, u8)>::empty()));
                        assert(out@ + Seq::<(u8, u8)>::empty() =~= out@);
                    }
                    return offset;
                }
                let ghost before = out@;
                let mut k: usize = 0;
                while k < count
                    invariant
                        len == self.data@.len(),
                        offset + count <= len,
                        k <= count,
                        out@ == before + self.data@.subrange(offset as int, offset + k).map_values(|l: u8| (l, velocity)),
                    decreases count - k,
                {
                    out.push((self.data[offset + k], velocity));
                    k = k + 1;
                    proof {
                        assert(self.data@.subrange(offset as int, offset + k).map_values(|l: u8| (l, velocity)) =~= self.data@.subrange(offset as int, offset + k - 1).map_values(|l: u8| (l, velocity)).push((self.data@[offset + k - 1], velocity)));
                    }
                }
                offset = offset + count;
                proof {
                    let leds = self.data@.subrange(o0 + 2, offset as int);
                    assert(parse_group(self.data@, o0) == GroupParse::Complete { next: offset as int, velocity, leds });
                    let (o2, w2) = parse_groups(self.data@, offset as int, rem - 1);
                    assert(parse_groups(self.data@, o0, rem) == (o2, leds.map_values(|l: u8| (l, velocity)) + w2));
                    assert(before + leds.map_values(|l: u8| (l, velocity)) + w2 =~= before + (leds.map_values(|l: u8| (l, velocity)) + w2));
                }
            }
            g = g + 1;
        }
        proof {
            assert(out@ + Seq::<(u8, u8)>::empty() =~= out@);
        }
        offset
    }

    fn decode_frames(&self, tick: u16, num_frames: u16, frame_index: u16, off: usize, out: &mut Vec<(u8, u8)>) -> (r: (u16, usize))
        requires
            self.wf(),
            off <= self.animation().len(),
        ensures
            r.0 as int == parse_frames(self.animation(), tick, num_frames, frame_index as int, off as int).0,
            r.1 as int == parse_frames(self.animation(), tick, num_frames, frame_index as int, off as int).1,
            r.1 <= self.animation().len(),
            final(out)@ == old(out)@ + parse_frames(self.animation(), tick, num_frames, frame_index as int, off as int).2,
    {
        let len = self.data.len();
        let mut fi = frame_index;
        let mut offset = off;
        let ghost w0 = out@;
        assert(out@ =~= out@ + Seq::<(u8, u8)>::empty());
        while fi < num_frames && offset + 3 <= len
            invariant
                w0 == old(out)@,
                len == self.data@.len(),
                len <= BOOT_DATA_MAX,
                self.wf(),
                offset <= len,
                fi >= frame_index,
                parse_frames(self.data@, tick, num_frames, fi as int, offset as int).0 == parse_frames(self.data@, tick, num_frames, frame_index as int, off as int).0,
                parse_frames(self.data@, tick, num_frames, fi as int, offset as int).1 == parse_frames(self.data@, tick, num_frames, frame_index as int, off as int).1,
                out@ + parse_frames(self.data@, tick, num_frames, fi as int, offset as int).2 == w0 + parse_frames(self.data@, tick, num_frames, frame_index as int, off as int).2,
            decreases num_frames - fi,
        {
            let frame_tick: u16 = self.data[offset] as u16 + (self.data[offset + 1] as u16) * 256;
            if frame_tick > tick {
                proof {
                    assert(parse_frames(self.data@, tick, num_frames, fi as int, offset as int) == (fi as int, offset as int, Seq::<(u8, u8)>::empty()));
                    assert(out@ + Seq::<(u8, u8)>::empty() =~= out@);
                }
                return (fi, offset);
            }
            let num_groups = self.data[offset + 2];
            let ghost o0 = offset as int;
            let ghost before = out@;
            proof {
                lemma_parse_groups_bounds(self.data@, o0 + 3, num_groups as int);
            }
            offset = self.decode_groups(offset + 3, num_groups, out);
            proof {
                let (o2, w) = parse_groups(self.data@, o0 + 3, num_groups as int);
                let rest = parse_frames(self.data@, tick, num_frames, fi + 1, o2);
                assert(parse_frames(self.data@, tick, num_frames, fi as int, o0) == (rest.0, rest.1, w + rest.2));
                assert(before + (w + rest.2) =~= (before + w) + rest.2);
            }
            fi = fi + 1;
        }
        proof {
            assert(parse_frames(self.data@, tick, num_frames, fi as int, offset as int) == (fi as int, offset as int, Seq::<(u8, u8)>::empty()));
            assert(out@ + Seq::<(u8, u8)>::empty() =~= out@);
        }
        (fi, offset)
    }

    /// One millisecond of the animation: plays every frame due by now, then
    /// asks for performance mode once the animation's last tick is reached
    /// (at once when there is no animation).
    pub fn on_tick(&mut self, sys: &mut Sys)
        requires
            old(self).wf(),
            old(sys).wf(),
        ensures
            final(self).wf(),
            final(self).animation() == old(self).animation(),
            ({
                let data = old(self).animation();
                if data.len() < 4 {
                    &&& final(self).requested_switch == Some(AppId::Performance)
                    &&& final(self).tick == old(self).tick
                    &&& final(self).frame_index == old(self).frame_index
                    &&& final(self).offset == old(self).offset
                    &&& final(sys).leds_now(old(sys), (old(sys).leds@, old(sys).driver.leds@))
                } else {
                    let end_tick = data[0] + 256 * data[1];
                    let num_frames = (data[2] + 256 * data[3]) as u16;
                    let (fi, off, writes) = parse_frames(data, old(self).tick, num_frames, old(self).frame_index as int, old(self).offset as int);
                    &&& final(self).frame_index == fi
                    &&& final(self).offset == off
                    &&& final(sys).leds_now(old(sys), spec_novations(old(sys), old(sys).leds@, old(sys).driver.leds@, writes))
                    &&& old(self).tick >= end_tick ==> final(self).requested_switch == Some(AppId::Performance)
                        && final(self).tick == old(self).tick
                    &&& old(self).tick < end_tick ==> final(self).requested_switch == old(self).requested_switch
                        && final(self).tick == old(self).tick + 1
                }
            }),
            boot_ticked(*old(self), *old(sys), *final(self), *final(sys)),
    {
        let len = self.data.len();
        if len < 4 {
            self.requested_switch = Some(AppId::Performance);
            return;
        }
        let end_tick: u16 = self.data[0] as u16 + (self.data[1] as u16) * 256;
        let num_frames: u16 = self.data[2] as u16 + (self.data[3] as u16) * 256;
        let mut writes: Vec<(u8, u8)> = Vec::new();
        let (fi, off) = self.decode_frames(self.tick, num_frames, self.frame_index, self.offset, &mut writes);
        assert(writes@ =~= parse_frames(self.data@, self.tick, num_frames, self.frame_index as int, self.offset as int).2);
        self.frame_index = fi;
        self.offset = off;
        apply_novations(sys, writes.as_slice());
        if self.tick >= end_tick {
            self.requested_switch = Some(AppId::Performance);
            return;
        }
        self.tick = self.tick.saturating_add(1);
    }

    pub fn take_requested_app_switch(&mut self) -> (r: Option<AppId>)
        ensures
            r == old(self).requested_switch,
            final(self).requested_switch is None,
            final(self).tick == old(self).tick,
            final(self).frame_index == old(self).frame_index,
            final(self).offset == old(self).offset,
            final(self).animation() == old(self).animation(),
            *final(self) == (BootApp { requested_switch: None, ..*old(self) }),
    {
        let r = self.requested_switch;
        self.requested_switch = None;
        r
    }
}

/// The animation restarted from its first frame, with no switch asked for.
pub open spec fn boot_restarted(b: BootApp) -> BootApp {
    BootApp { tick: 0, frame_index: 0, offset: 4, requested_switch: None, ..b }
}

/// One millisecond of the animation, from `b0`/`s0` to `b1`/`s1`: the
/// frames due by now are drawn, then the tick advances or, at the end,
/// performance mode is asked for (at once without an animation).
pub open spec fn boot_ticked(b0: BootApp, s0: Sys, b1: BootApp, s1: Sys) -> bool {
    let data = b0.animation();
    if data.len() < 4 {
        &&& b1 == BootApp { requested_switch: Some(AppId::Performance), ..b0 }
        &&& s1.leds_now(&s0, (s0.leds@, s0.driver.leds@))
    } else {
        let end_tick = data[0] + 256 * data[1];
        let num_frames = (data[2] + 256 * data[3]) as u16;
        let (fi, off, writes) = parse_frames(data, b0.tick, num_frames, b0.frame_index as int, b0.offset as int);
        let done = b0.tick >= end_tick;
        &&& b1 == BootApp {
            frame_index: fi as u16,
            offset: off as usize,
            tick: if done { b0.tick } else { (b0.tick + 1) as u16 },
            requested_switch: if done { Some(AppId::Performance) } else { b0.requested_switch },
            ..b0
        }
        &&& s1.leds_now(&s0, spec_novations(&s0, s0.leds@, s0.driver.leds@, writes))
    }
}

/// Sets the Novation colors of (LED, velocity) pairs, in order, each LED
/// taken through the layout.
pub fn apply_novations(sys: &mut Sys, writes: &[(u8, u8)])
    requires
        old(sys).wf(),
    ensures
        final(sys).leds_now(old(sys), spec_novations(old(sys), old(sys).leds@, old(sys).driver.leds@, writes@)),
{
    let mut k: usize = 0;
    while k < writes.len()
        invariant
            k <= writes@.len(),
            sys.leds_now(old(sys), spec_novations(old(sys), old(sys).leds@, old(sys).driver.leds@, writes@.take(k as int))),
        decreases writes@.len() - k,
    {
        let (led, velocity) = writes[k];
        let index = sys.layout.dr_to_xy(led);
        sys.led_novation(index, velocity);
        proof {
            assert(writes@.take(k + 1).drop_last() =~= writes@.take(k as int));
        }
        k = k + 1;
    }
    assert(writes@.take(writes@.len() as int) =~= writes@);
}

} // verus!
