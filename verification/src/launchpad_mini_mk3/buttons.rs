use vstd::prelude::*;

verus! {

pub const LP_BUTTON_COUNT: usize = 100;
pub const LP_SCAN_GROUPS: usize = 4;

/// Where each surface button sits in a scan row: byte (bits 3..) and bit
/// (bits 0..3) of the 32-byte scan; 0xff for positions without a button.
pub const PAD_SCAN_MAP: [u8; 100] = [
    0xff, 0x00, 0x40, 0x80, 0xc0, 0x01, 0x41, 0x81, 0xc1, 0xff, 0xff, 0x02, 0x42, 0x82, 0xc2, 0x03,
    0x43, 0x83, 0xc3, 0x12, 0xff, 0x04, 0x44, 0x84, 0xc4, 0x05, 0x45, 0x85, 0xc5, 0x52, 0xff, 0x06,
    0x46, 0x86, 0xc6, 0x07, 0x47, 0x87, 0xc7, 0x92, 0xff, 0x08, 0x48, 0x88, 0xc8, 0x09, 0x49, 0x89,
    0xc9, 0xd2, 0xff, 0x0a, 0x4a, 0x8a, 0xca, 0x0b, 0x4b, 0x8b, 0xcb, 0x13, 0xff, 0x0c, 0x4c, 0x8c,
    0xcc, 0x0d, 0x4d, 0x8d, 0xcd, 0x53, 0xff, 0x0e, 0x4e, 0x8e, 0xce, 0x0f, 0x4f, 0x8f, 0xcf, 0x93,
    0xff, 0x10, 0x50, 0x90, 0xd0, 0x11, 0x51, 0x91, 0xd1, 0xd3, 0xff, 0xff, 0xff, 0xff, 0xff, 0xff,
    0xff, 0xff, 0xff, 0xff,
];

/// The last four scans of the button matrix, one 32-byte image per scan
/// group.
pub struct Buttons {
    btn_hist: [u8; 128],
}

pub open spec fn spec_is_valid(index: u8) -> bool {
    (index as int) < LP_BUTTON_COUNT as int && PAD_SCAN_MAP[index as int] != 0xff
}

impl View for Buttons {
    /// The scan images, group by group.
    type V = Seq<Seq<u8>>;

    closed spec fn view(&self) -> Seq<Seq<u8>> {
        Seq::new(4, |g: int| self.btn_hist@.subrange(32 * g, 32 * g + 32))
    }
}

/// The button at scan position `map` reads closed in a scan image.
pub open spec fn scan_bit(image: Seq<u8>, map: u8) -> bool {
    image[(map >> 3u8) as int] & (1u8 << (map & 7u8)) != 0
}

/// In how many of the four scan images a button reads closed.
pub open spec fn spec_strength(hist: Seq<Seq<u8>>, index: u8) -> u8 {
    if !spec_is_valid(index) {
        0
    } else {
        let map = PAD_SCAN_MAP[index as int];
        ((if scan_bit(hist[0], map) { 1int } else { 0 })
            + (if scan_bit(hist[1], map) { 1int } else { 0 })
            + (if scan_bit(hist[2], map) { 1int } else { 0 })
            + (if scan_bit(hist[3], map) { 1int } else { 0 })) as u8
    }
}

impl Buttons {
    pub open spec fn wf(&self) -> bool {
        &&& self@.len() == 4
        &&& forall|g: int| 0 <= g < 4 ==> (#[trigger] self@[g]).len() == 32
    }

    pub fn new() -> (r: Self)
        ensures
            r.wf(),
            forall|g: int, b: int| 0 <= g < 4 && 0 <= b < 32 ==> #[trigger] r@[g][b] == 0,
    {
        Buttons { btn_hist: [0; 128] }
    }

    /// Stores one 8-byte row of a scan image; ignored for an unknown group
    /// or row, or with fewer than 8 bytes.
    pub fn capture_scan(&mut self, group: u8, row: u8, data: &[u8])
        requires
            old(self).wf(),
        ensures
            final(self).wf(),
            (group as int) < LP_SCAN_GROUPS as int && row < 4 && data@.len() >= 8 ==> final(self)@
                == old(self)@.update(
                group as int,
                old(self)@[group as int].take(row * 8) + data@.take(8) + old(self)@[group as int].skip(
                    row * 8 + 8,
                ),
            ),
            !((group as int) < LP_SCAN_GROUPS as int && row < 4 && data@.len() >= 8) ==> final(self)@
                == old(self)@,
    {
        if group as usize >= LP_SCAN_GROUPS || row >= 4 || data.len() < 8 {
            return;
        }
        let start: usize = group as usize * 32 + row as usize * 8;
        let mut i: usize = 0;
        while i < 8
            invariant
                group < 4,
                row < 4,
                start == group * 32 + row * 8,
                data@.len() >= 8,
                i <= 8,
                forall|k: int| 0 <= k < 128 && !(start <= k < start + i) ==> self.btn_hist@[k]
                    == old(self).btn_hist@[k],
                forall|k: int| 0 <= k < i ==> self.btn_hist@[start + k] == data@[k],
            decreases 8 - i,
        {
            self.btn_hist[start + i] = data[i];
            i = i + 1;
        }
        let ghost g = group as int;
        let ghost expected = old(self)@.update(
            g,
            old(self)@[g].take(row * 8) + data@.take(8) + old(self)@[g].skip(row * 8 + 8),
        );
        assert forall|h: int| 0 <= h < 4 implies #[trigger] self@[h] =~= expected[h] by {
            assert forall|b: int| 0 <= b < 32 implies self@[h][b] == expected[h][b] by {
                assert(self@[h][b] == self.btn_hist@[32 * h + b]);
                assert(old(self)@[h][b] == old(self).btn_hist@[32 * h + b]);
                if h == g && row * 8 <= b < row * 8 + 8 {
                    assert(self.btn_hist@[start + (b - row * 8)] == data@[b - row * 8]);
                }
            }
        }
        assert(self@ =~= expected);
    }

    pub fn is_valid(&self, index: u8) -> (r: bool)
        ensures
            r == spec_is_valid(index),
    {
        let i = index as usize;
        i < LP_BUTTON_COUNT && PAD_SCAN_MAP[i] != 0xff
    }

    /// A button counts as pressed once at least two scans read it closed.
    pub fn is_pressed(&self, index: u8) -> (r: bool)
        requires
            self.wf(),
        ensures
            r == (spec_strength(self@, index) >= 2),
    {
        self.strength(index) >= 2
    }

    pub fn strength(&self, index: u8) -> (r: u8)
        requires
            self.wf(),
        ensures
            r == spec_strength(self@, index),
            r <= 4,
    {
        if !self.is_valid(index) {
            return 0;
        }
        let map: u8 = PAD_SCAN_MAP[index as usize];
        let byte_index: usize = (map >> 3) as usize;
        proof {
            crate::bits::lemma_u8_bits(map);
        }
        let mask: u8 = 1 << (map & 7);
        let mut sum: u8 = 0;
        let mut group: usize = 0;
        while group < LP_SCAN_GROUPS
            invariant
                self.wf(),
                group <= 4,
                byte_index == map >> 3u8,
                byte_index < 32,
                mask == 1u8 << (map & 7u8),
                sum as int == (if group > 0 && scan_bit(self@[0], map) { 1int } else { 0 })
                    + (if group > 1 && scan_bit(self@[1], map) { 1int } else { 0 })
                    + (if group > 2 && scan_bit(self@[2], map) { 1int } else { 0 })
                    + (if group > 3 && scan_bit(self@[3], map) { 1int } else { 0 }),
            decreases 4 - group,
        {
            assert(self.btn_hist@[group * 32 + byte_index] == self@[group as int][byte_index as int]);
            if self.btn_hist[group * 32 + byte_index] & mask != 0 {
                sum = sum + 1;
            }
            group = group + 1;
        }
        sum
    }
}

} // verus!
