pub mod highspeed;
pub mod legacy;
use vstd::prelude::*;

verus! {

/// LED slots of the co-processor.
pub const LED_COUNT: usize = 108;

/// The LED driver matching the co-processor's firmware: single-LED
/// commands for the stock co-processor firmware, whole frames for the fast one.
pub enum LedSystem {
    Legacy(legacy::Leds),
    Highspeed(highspeed::Leds),
}

/// The LED driver's state as values.
pub enum LedSystemView {
    Legacy(legacy::LegacyView),
    Highspeed(highspeed::FastView),
}

impl View for LedSystem {
    type V = LedSystemView;

    open spec fn view(&self) -> LedSystemView {
        match self {
            LedSystem::Legacy(l) => LedSystemView::Legacy(l@),
            LedSystem::Highspeed(h) => LedSystemView::Highspeed(h@),
        }
    }
}

/// The state after a surface index's LED is set to 6-bit channels, in
/// whichever driver is active.
pub open spec fn system_set_rgb(v: LedSystemView, index: u8, r: u8, g: u8, b: u8) -> LedSystemView {
    match v {
        LedSystemView::Legacy(l) => LedSystemView::Legacy(legacy::legacy_set(l, index, legacy::spec_legacy_rgb(r, g, b))),
        LedSystemView::Highspeed(h) => LedSystemView::Highspeed(highspeed::fast_set(h, index, r, g, b)),
    }
}

/// The state after a surface index's LED is set to a packed 0xRRGGBB
/// color: the same as setting its channels cut to 6 bits.
pub open spec fn system_set(v: LedSystemView, index: u8, color: u32) -> LedSystemView {
    let (r, g, b) = crate::launchpad_mk2::leds::rgb_to_6bit(color);
    system_set_rgb(v, index, r, g, b)
}

/// The state after surface indices `0..n` are set to one packed color, in
/// order.
pub open spec fn system_fill(v: LedSystemView, color: u32, n: int) -> LedSystemView
    decreases n,
{
    if n <= 0 {
        v
    } else {
        system_set(system_fill(v, color, n - 1), (n - 1) as u8, color)
    }
}

/// Setting a packed 0xRRGGBB color has the same effect, dirty flags and
/// sequence counters included, as setting its 8-bit channels each cut to 6
/// bits (bits 24..32 are ignored).
pub proof fn lemma_packed_color_is_channels(v: LedSystemView, index: u8, color: u32)
    ensures
        system_set(v, index, color) == system_set_rgb(
            v,
            index,
            (((color >> 16u32) & 0xff) as u8) >> 2u8,
            (((color >> 8u32) & 0xff) as u8) >> 2u8,
            ((color & 0xff) as u8) >> 2u8,
        ),
{
    assert((((color >> 18u32) & 0x3f) as u8) == (((color >> 16u32) & 0xff) as u8) >> 2u8) by (bit_vector);
    assert((((color >> 10u32) & 0x3f) as u8) == (((color >> 8u32) & 0xff) as u8) >> 2u8) by (bit_vector);
    assert((((color >> 2u32) & 0x3f) as u8) == ((color & 0xff) as u8) >> 2u8) by (bit_vector);
}

impl LedSystem {
    pub open spec fn wf(&self) -> bool {
        match self {
            LedSystem::Legacy(_) => true,
            LedSystem::Highspeed(leds) => leds.wf(),
        }
    }

    pub fn new_legacy() -> (r: Self)
        ensures
            r.wf(),
            r is Legacy,
            r matches LedSystem::Legacy(leds) && leds.target@ == Seq::new(108, |i: int| legacy::LED_COLOR_OFF)
                && leds.dirty@ == Seq::new(108, |i: int| true) && leds.resync_pending,
            r@ == LedSystemView::Legacy(legacy::fresh_legacy_view()),
    {
        LedSystem::Legacy(legacy::Leds::new())
    }

    pub fn new_highspeed() -> (r: Self)
        ensures
            r.wf(),
            r is Highspeed,
            r matches LedSystem::Highspeed(leds) && leds.colors() == Seq::new(108, |i: int| 0u32) && leds.is_dirty(),
            r@ == LedSystemView::Highspeed(highspeed::fresh_fast_view()),
    {
        LedSystem::Highspeed(highspeed::Leds::new())
    }

    pub fn is_highspeed(&self) -> (r: bool)
        ensures
            r == (self is Highspeed),
    {
        match self {
            LedSystem::Highspeed(_) => true,
            LedSystem::Legacy(_) => false,
        }
    }

    /// Sets the LED of a surface index to 6-bit channels in whichever
    /// driver is active.
    pub fn set_rgb_led(&mut self, index: u8, r: u8, g: u8, b: u8)
        requires
            old(self).wf(),
        ensures
            final(self).wf(),
            final(self)@ == system_set_rgb(old(self)@, index, r, g, b),
            ((*final(self)) is Legacy) == ((*old(self)) is Legacy),
            *old(self) matches LedSystem::Legacy(l0) ==> *final(self) matches LedSystem::Legacy(l1) && {
                let rgb = legacy::spec_legacy_rgb(r, g, b);
                let slot = crate::launchpad_pro_mk3::map::LED_REMAP[index as int] as int;
                if (index as int) < 110 && crate::launchpad_pro_mk3::map::LED_REMAP[index as int] != 0xff && slot < LED_COUNT
                    && l0.target@[slot] != rgb {
                    l1.target@ == l0.target@.update(slot, rgb)
                } else {
                    l1.target@ == l0.target@
                }
            },
            *old(self) matches LedSystem::Highspeed(h0) ==> *final(self) matches LedSystem::Highspeed(h1) && match highspeed::spec_led_slot(index) {
                Some(slot) => h1.colors() == h0.colors().update(slot, highspeed::spec_pack_rgb(r, g, b)),
                None => h1.colors() == h0.colors(),
            },
    {
        match self {
            LedSystem::Legacy(leds) => leds.set_rgb_led(index, r, g, b),
            LedSystem::Highspeed(leds) => leds.set_rgb_led(index, r, g, b),
        }
    }

    /// Sets the LED of a surface index to a packed 0xRRGGBB color in
    /// whichever driver is active.
    pub fn set_led(&mut self, index: u8, color: u32)
        requires
            old(self).wf(),
        ensures
            final(self).wf(),
            final(self)@ == system_set(old(self)@, index, color),
            ((*final(self)) is Legacy) == ((*old(self)) is Legacy),
            *old(self) matches LedSystem::Highspeed(h0) ==> *final(self) matches LedSystem::Highspeed(h1) && {
                let (r, g, b) = crate::launchpad_mk2::leds::rgb_to_6bit(color);
                match highspeed::spec_led_slot(index) {
                    Some(slot) => h1.colors() == h0.colors().update(slot, highspeed::spec_pack_rgb(r, g, b)),
                    None => h1.colors() == h0.colors(),
                }
            },
            *old(self) matches LedSystem::Legacy(l0) ==> *final(self) matches LedSystem::Legacy(l1) && {
                let (r, g, b) = crate::launchpad_mk2::leds::rgb_to_6bit(color);
                let rgb = legacy::spec_legacy_rgb(r, g, b);
                let slot = crate::launchpad_pro_mk3::map::LED_REMAP[index as int] as int;
                if (index as int) < 110 && crate::launchpad_pro_mk3::map::LED_REMAP[index as int] != 0xff && slot < LED_COUNT
                    && l0.target@[slot] != rgb {
                    l1.target@ == l0.target@.update(slot, rgb)
                } else {
                    l1.target@ == l0.target@
                }
            },
    {
        match self {
            LedSystem::Legacy(leds) => leds.set_led(index, color),
            LedSystem::Highspeed(leds) => leds.set_led(index, color),
        }
    }
}

} // verus!
