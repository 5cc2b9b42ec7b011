use vstd::prelude::*;

verus! {

pub const APP_VECTOR_TABLE: u32 = 0x0800_3000;
pub const SYSCLK_HZ: u32 = 48_000_000;
pub const EVENT_1KHZ: u32 = 1;
pub const EVENT_200HZ: u32 = 2;
pub const EVENT_20HZ: u32 = 4;

/// Timer events raised by the 1 kHz tick and not yet taken.
pub struct TickEvents {
    pub events: u32,
    pub tick_div: u32,
}

impl TickEvents {
    pub fn new() -> (r: Self)
        ensures
            r.events == 0,
            r.tick_div == 0,
    {
        TickEvents { events: 0, tick_div: 0 }
    }

    /// Takes the pending events among `mask`, leaving the others pending.
    pub fn take_events(&mut self, mask: u32) -> (r: u32)
        ensures
            r == old(self).events & mask,
            final(self).events == old(self).events & !mask,
            final(self).tick_div == old(self).tick_div,
    {
        let pending = self.events;
        self.events = pending & !mask;
        pending & mask
    }

    /// One 1 kHz timer tick: always the 1 kHz event, every fifth tick the
    /// 200 Hz event, every fiftieth the 20 Hz event.
    pub fn tick(&mut self)
        ensures
            final(self).tick_div == old(self).tick_div.wrapping_add(1),
            final(self).events == old(self).events | EVENT_1KHZ
                | (if final(self).tick_div % 5 == 0 { EVENT_200HZ } else { 0 })
                | (if final(self).tick_div % 50 == 0 { EVENT_20HZ } else { 0 }),
    {
        let tick = self.tick_div.wrapping_add(1);
        self.tick_div = tick;
        let e200: u32 = if tick % 5 == 0 { EVENT_200HZ } else { 0 };
        let e20: u32 = if tick % 50 == 0 { EVENT_20HZ } else { 0 };
        let events = EVENT_1KHZ | e200 | e20;
        let before = self.events;
        assert(before | (1u32 | e200 | e20) == before | 1u32 | e200 | e20) by (bit_vector);
        self.events = before | events;
    }
}

} // verus!
