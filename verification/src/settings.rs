use vstd::prelude::*;

verus! {

pub const CUSTOM_PALETTE_SLOTS: usize = 3;
pub const CUSTOM_PALETTE_CHANNELS: usize = 3;
pub const CUSTOM_PALETTE_ENTRIES: usize = 128;
pub const CUSTOM_PALETTE_BYTES: usize = 1152;

/// Offset of one channel value of one custom palette in the flat store.
pub open spec fn custom_offset(slot: int, channel: int, index: int) -> int {
    slot * 384 + channel * 128 + index
}

/// User settings kept in flash.
pub struct Settings {
    /// Selected palette: 0..=3 built in, 4..=6 custom slots.
    pub palette: u8,
    /// Three custom palettes, each three channels of 128 6-bit values,
    /// stored slot-major, then channel, then index.
    pub custom_palette: Vec<u8>,
    pub velocity_enabled: u8,
    pub velocity_curve: u8,
    pub aftertouch_mode: u8,
    pub aftertouch_curve: u8,
    pub brightness: u8,
}

impl Settings {
    pub open spec fn wf(&self) -> bool {
        self.custom_palette@.len() == CUSTOM_PALETTE_BYTES
    }

    /// One channel value of one custom palette entry.
    pub open spec fn custom(&self, slot: int, channel: int, index: int) -> u8 {
        self.custom_palette@[custom_offset(slot, channel, index)]
    }

    /// Settings as found in erased flash: every byte 0xff.
    pub fn erased() -> (r: Self)
        ensures
            r.wf(),
            r.palette == 0xff,
            r.velocity_enabled == 0xff,
            r.velocity_curve == 0xff,
            r.aftertouch_mode == 0xff,
            r.aftertouch_curve == 0xff,
            r.brightness == 0xff,
            forall|i: int| 0 <= i < CUSTOM_PALETTE_BYTES ==> r.custom_palette@[i] == 0xff,
    {
        let mut custom: Vec<u8> = Vec::new();
        let mut i: usize = 0;
        while i < CUSTOM_PALETTE_BYTES
            invariant
                i <= CUSTOM_PALETTE_BYTES,
                custom@.len() == i,
                forall|k: int| 0 <= k < i ==> custom@[k] == 0xff,
            decreases CUSTOM_PALETTE_BYTES - i,
        {
            custom.push(0xff);
            i = i + 1;
        }
        Settings {
            palette: 0xff,
            custom_palette: custom,
            velocity_enabled: 0xff,
            velocity_curve: 0xff,
            aftertouch_mode: 0xff,
            aftertouch_curve: 0xff,
            brightness: 0xff,
        }
    }

    /// Reads one channel value of one custom palette entry.
    pub fn custom_value(&self, slot: usize, channel: usize, index: usize) -> (r: u8)
        requires
            self.wf(),
            slot < CUSTOM_PALETTE_SLOTS,
            channel < CUSTOM_PALETTE_CHANNELS,
            index < CUSTOM_PALETTE_ENTRIES,
        ensures
            r == self.custom(slot as int, channel as int, index as int),
    {
        self.custom_palette[slot * 384 + channel * 128 + index]
    }

    /// Writes one channel value of one custom palette entry.
    pub fn set_custom_value(&mut self, slot: usize, channel: usize, index: usize, value: u8)
        requires
            old(self).wf(),
            slot < CUSTOM_PALETTE_SLOTS,
            channel < CUSTOM_PALETTE_CHANNELS,
            index < CUSTOM_PALETTE_ENTRIES,
        ensures
            final(self).wf(),
            final(self).custom_palette@ == old(self).custom_palette@.update(
                custom_offset(slot as int, channel as int, index as int),
                value,
            ),
            final(self).palette == old(self).palette,
            final(self).velocity_enabled == old(self).velocity_enabled,
            final(self).velocity_curve == old(self).velocity_curve,
            final(self).aftertouch_mode == old(self).aftertouch_mode,
            final(self).aftertouch_curve == old(self).aftertouch_curve,
            final(self).brightness == old(self).brightness,
    {
        self.custom_palette.set(slot * 384 + channel * 128 + index, value);
    }
}

} // verus!
