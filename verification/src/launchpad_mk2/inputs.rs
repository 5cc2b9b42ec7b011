use vstd::prelude::*;
use heapless::spsc::Queue;

verus! {

pub const SHIFT_BYTES_PER_SCAN: usize = 8;
pub const GROUP_COUNT: usize = 4;
pub const RAW_BUTTON_BYTES: usize = 32;
pub const MK2_KEY_COUNT: usize = 80;
pub const BUTTON_MAP_COUNT: usize = 96;
pub const EVENT_QUEUE_SIZE: usize = 64;
pub const PRESS_VALUE: u8 = 127;
pub const PRESS_DEBOUNCE_TICKS: u8 = 2;
pub const RELEASE_DELAY_TICKS: u8 = 0x20;

/// Surface index of each key.
pub const BUTTON_TO_SURFACE_INDEX: [u8; 80] = [
    81, 82, 83, 84, 85, 86, 87, 88, 89, 71, 72, 73, 74, 75, 76, 77, 78, 79, 61, 62, 63, 64, 65, 66,
    67, 68, 69, 51, 52, 53, 54, 55, 56, 57, 58, 59, 41, 42, 43, 44, 45, 46, 47, 48, 49, 31, 32, 33,
    34, 35, 36, 37, 38, 39, 21, 22, 23, 24, 25, 26, 27, 28, 29, 11, 12, 13, 14, 15, 16, 17, 18, 19,
    91, 92, 93, 94, 95, 96, 97, 98,
];

/// Key read at each bit of the scanned bytes (8 bits, most significant
/// first, per byte); 0x50 where no key is wired.
pub const BUTTON_KEY_MAP: [u8; 96] = [
    0x48, 0x4c, 0x00, 0x04, 0x09, 0x0d, 0x12, 0x16, 0x1b, 0x1f, 0x24, 0x28, 0x2d, 0x31, 0x36, 0x3a,
    0x3f, 0x43, 0x08, 0x2c, 0x50, 0x50, 0x50, 0x50, 0x49, 0x4d, 0x01, 0x05, 0x0a, 0x0e, 0x13, 0x17,
    0x1c, 0x20, 0x25, 0x29, 0x2e, 0x32, 0x37, 0x3b, 0x40, 0x44, 0x11, 0x35, 0x50, 0x50, 0x50, 0x50,
    0x4a, 0x4e, 0x02, 0x06, 0x0b, 0x0f, 0x14, 0x18, 0x1d, 0x21, 0x26, 0x2a, 0x2f, 0x33, 0x38, 0x3c,
    0x41, 0x45, 0x1a, 0x3e, 0x50, 0x50, 0x50, 0x50, 0x4b, 0x4f, 0x03, 0x07, 0x0c, 0x10, 0x15, 0x19,
    0x1e, 0x22, 0x27, 0x2b, 0x30, 0x34, 0x39, 0x3d, 0x42, 0x46, 0x23, 0x47, 0x50, 0x50, 0x50, 0x50,
];

/// The raw scan bytes that carry key bits, in the order of `BUTTON_KEY_MAP`.
pub const BUTTON_RAW_INDICES: [usize; 12] = [0, 1, 2, 8, 9, 10, 16, 17, 18, 24, 25, 26];

/// A debounced key change.
#[derive(Copy, Clone, PartialEq, Eq, Structural, Debug)]
pub enum GridEvent {
    Press { index: u8, value: u8 },
    Release { index: u8 },
}

/// The events held by the key event queue, oldest first.
pub uninterp spec fn mk2_event_items(q: Queue<GridEvent, 64>) -> Seq<GridEvent>;

/// `heapless::spsc::Queue::new`: an empty queue.
#[verifier::external_body]
fn event_queue_new() -> (q: Queue<GridEvent, 64>)
    ensures
        mk2_event_items(q) == Seq::<GridEvent>::empty(),
{
    Queue::new()
}

/// `heapless::spsc::Queue::enqueue`: appends the item unless the queue already
/// holds `N - 1` items, in which case the item is handed back.
#[verifier::external_body]
fn event_queue_enqueue(q: &mut Queue<GridEvent, 64>, item: GridEvent) -> (r: Result<(), GridEvent>)
    ensures
        (r is Ok) == (mk2_event_items(*old(q)).len() < 63),
        r is Ok ==> mk2_event_items(*final(q)) == mk2_event_items(*old(q)).push(item),
        r matches Err(e) ==> e == item && mk2_event_items(*final(q)) == mk2_event_items(*old(q)),
{
    q.enqueue(item)
}

/// `heapless::spsc::Queue::dequeue`: removes and returns the oldest item.
#[verifier::external_body]
fn event_queue_dequeue(q: &mut Queue<GridEvent, 64>) -> (r: Option<GridEvent>)
    ensures
        mk2_event_items(*old(q)).len() == 0 ==> r is None && mk2_event_items(*final(q)) == mk2_event_items(
            *old(q),
        ),
        mk2_event_items(*old(q)).len() > 0 ==> r == Some(mk2_event_items(*old(q))[0])
            && mk2_event_items(*final(q)) == mk2_event_items(*old(q)).drop_first(),
{
    q.dequeue()
}

/// Press debouncing of one key whose contact reads closed. The state is 0
/// when idle, counts down from `press_ticks` while a press is confirmed, and
/// is 0x80 or above while the key is held. Returns the new state and whether
/// the press is now confirmed.
pub open spec fn spec_debounce_pressed(state: u8, press_ticks: u8) -> (u8, bool) {
    if state == 0 {
        (press_ticks, false)
    } else if state < 0x80 {
        if state - 1 == 0 { (0x80u8, true) } else { ((state - 1) as u8, false) }
    } else {
        (0x80u8, false)
    }
}

/// Release debouncing of one key whose contact reads open: a press still
/// being confirmed is dropped; a held key counts down `release_delay` ticks
/// above 0x80 and is released when the count runs out.
pub open spec fn spec_debounce_released(state: u8, release_delay: u8) -> (u8, bool) {
    if state == 0 {
        (0u8, false)
    } else if state < 0x80 {
        (0u8, false)
    } else if state == 0x80 {
        (((release_delay + 0x80) % 256) as u8, false)
    } else if state - 1 == 0x80 {
        (0u8, true)
    } else {
        ((state - 1) as u8, false)
    }
}

pub fn debounce_pressed(state: &mut u8, press_ticks: u8) -> (r: bool)
    ensures
        (*final(state), r) == spec_debounce_pressed(*old(state), press_ticks),
{
    let current = *state;
    if current == 0 {
        *state = press_ticks;
        return false;
    }
    if current < 0x80 {
        let next = current - 1;
        if next == 0 {
            *state = 0x80;
            return true;
        }
        *state = next;
        return false;
    }
    if current != 0x80 {
        *state = 0x80;
    }
    false
}

pub fn debounce_released(state: &mut u8, release_delay: u8) -> (r: bool)
    ensures
        (*final(state), r) == spec_debounce_released(*old(state), release_delay),
{
    let current = *state;
    if current == 0 {
        return false;
    }
    if current < 0x80 {
        *state = 0;
        return false;
    }
    if current == 0x80 {
        *state = release_delay.wrapping_add(0x80);
        return false;
    }
    let next = current.wrapping_sub(1);
    if next == 0x80 {
        *state = 0;
        return true;
    }
    *state = next;
    false
}

/// The bit of scan position `pos` (0..96) reads closed.
pub open spec fn key_closed(raw: Seq<u8>, pos: int) -> bool {
    raw[BUTTON_RAW_INDICES[pos / 8] as int] & (0x80u8 >> ((pos % 8) as u8)) != 0
}

/// Appends an event unless the queue is full; a full queue drops it.
pub open spec fn push_bounded(items: Seq<GridEvent>, e: GridEvent) -> Seq<GridEvent> {
    if items.len() < 63 { items.push(e) } else { items }
}

/// Debounce states and queued events after the scan positions `pos..96` of
/// one scan are processed in order.
pub open spec fn decode_from(debounce: Seq<u8>, items: Seq<GridEvent>, raw: Seq<u8>, pos: int) -> (Seq<u8>, Seq<GridEvent>)
    decreases 96 - pos,
{
    if pos < 0 || pos >= 96 {
        (debounce, items)
    } else {
        let key = BUTTON_KEY_MAP[pos] as int;
        if key >= MK2_KEY_COUNT {
            decode_from(debounce, items, raw, pos + 1)
        } else if key_closed(raw, pos) {
            let (s, fired) = spec_debounce_pressed(debounce[key], PRESS_DEBOUNCE_TICKS);
            let items2 = if fired {
                push_bounded(items, GridEvent::Press { index: key as u8, value: PRESS_VALUE })
            } else {
                items
            };
            decode_from(debounce.update(key, s), items2, raw, pos + 1)
        } else {
            let (s, fired) = spec_debounce_released(debounce[key], RELEASE_DELAY_TICKS);
            let items2 = if fired {
                push_bounded(items, GridEvent::Release { index: key as u8 })
            } else {
                items
            };
            decode_from(debounce.update(key, s), items2, raw, pos + 1)
        }
    }
}

/// Key scanning of the Launchpad MK2: debounce state per key, the last raw
/// scan, and the queue of key events.
pub struct Inputs {
    queue: Queue<GridEvent, 64>,
    button_decode: [u8; 32],
    debounce: [u8; 80],
}

impl Inputs {
    /// Debounce state of each key.
    pub closed spec fn debounce_states(&self) -> Seq<u8> {
        self.debounce@
    }

    /// Key events waiting to be polled, oldest first.
    pub closed spec fn events(&self) -> Seq<GridEvent> {
        mk2_event_items(self.queue)
    }

    /// The last raw scan.
    pub closed spec fn last_scan(&self) -> Seq<u8> {
        self.button_decode@
    }

    pub fn new() -> (r: Self)
        ensures
            r.debounce_states() == Seq::new(80, |i: int| 0u8),
            r.events() == Seq::<GridEvent>::empty(),
            r.last_scan() == Seq::new(32, |i: int| 0u8),
    {
        let r = Inputs { queue: event_queue_new(), button_decode: [0; 32], debounce: [0; 80] };
        assert(r.debounce_states() =~= Seq::new(80, |i: int| 0u8));
        assert(r.last_scan() =~= Seq::new(32, |i: int| 0u8));
        r
    }

    /// Takes the oldest key event.
    pub fn poll_event(&mut self) -> (r: Option<GridEvent>)
        ensures
            final(self).debounce_states() == old(self).debounce_states(),
            final(self).last_scan() == old(self).last_scan(),
            old(self).events().len() == 0 ==> r is None && final(self).events() == old(self).events(),
            old(self).events().len() > 0 ==> r == Some(old(self).events()[0])
                && final(self).events() == old(self).events().drop_first(),
    {
        event_queue_dequeue(&mut self.queue)
    }

    /// Runs one scan through the key debouncers and queues the presses and
    /// releases they confirm.
    pub fn decode_buttons(&mut self, raw: &[u8; 32])
        ensures
            final(self).last_scan() == raw@,
            (final(self).debounce_states(), final(self).events()) == decode_from(
                old(self).debounce_states(),
                old(self).events(),
                raw@,
                0,
            ),
    {
        self.button_decode = *raw;
        let mut pos: usize = 0;
        while pos < BUTTON_MAP_COUNT
            invariant
                pos <= 96,
                self.button_decode@ == raw@,
                self.debounce@.len() == 80,
                decode_from(self.debounce@, mk2_event_items(self.queue), raw@, pos as int) == decode_from(
                    old(self).debounce@,
                    mk2_event_items(old(self).queue),
                    raw@,
                    0,
                ),
            decreases 96 - pos,
        {
            let chunk = pos / 8;
            let bit = pos % 8;
            let key = BUTTON_KEY_MAP[pos] as usize;
            if key < MK2_KEY_COUNT {
                let value = self.button_decode[BUTTON_RAW_INDICES[chunk]];
                let mask: u8 = 0x80u8 >> (bit as u8);
                if value & mask != 0 {
                    let mut s = self.debounce[key];
                    let fired = debounce_pressed(&mut s, PRESS_DEBOUNCE_TICKS);
                    self.debounce[key] = s;
                    if fired {
                        self.queue_event(key, true);
                    }
                } else {
                    let mut s = self.debounce[key];
                    let fired = debounce_released(&mut s, RELEASE_DELAY_TICKS);
                    self.debounce[key] = s;
                    if fired {
                        self.queue_event(key, false);
                    }
                }
            }
            pos = pos + 1;
        }
    }

    /// Queues a press (at full velocity) or a release of a key; dropped when
    /// the queue is full.
    fn queue_event(&mut self, key: usize, pressed: bool)
        ensures
            final(self).debounce@ == old(self).debounce@,
            final(self).button_decode@ == old(self).button_decode@,
            key >= MK2_KEY_COUNT ==> mk2_event_items(final(self).queue) == mk2_event_items(old(self).queue),
            key < MK2_KEY_COUNT && pressed ==> mk2_event_items(final(self).queue) == push_bounded(
                mk2_event_items(old(self).queue),
                GridEvent::Press { index: key as u8, value: PRESS_VALUE },
            ),
            key < MK2_KEY_COUNT && !pressed ==> mk2_event_items(final(self).queue) == push_bounded(
                mk2_event_items(old(self).queue),
                GridEvent::Release { index: key as u8 },
            ),
    {
        if key >= MK2_KEY_COUNT {
            return;
        }
        let index = key as u8;
        let event = if pressed {
            GridEvent::Press { index, value: PRESS_VALUE }
        } else {
            GridEvent::Release { index }
        };
        let _ = event_queue_enqueue(&mut self.queue, event);
    }
}


/// From idle, a key read closed confirms its press on the third
/// consecutive closed scan, and not before.
pub proof fn lemma_press_confirmed_on_third_scan()
    ensures
        spec_debounce_pressed(0, PRESS_DEBOUNCE_TICKS) == (PRESS_DEBOUNCE_TICKS, false),
        spec_debounce_pressed(PRESS_DEBOUNCE_TICKS, PRESS_DEBOUNCE_TICKS) == (1u8, false),
        spec_debounce_pressed(1, PRESS_DEBOUNCE_TICKS) == (0x80u8, true),
{
}

/// A held key stays held while it reads closed, and an open reading of a
/// key still being confirmed drops the press without a release.
pub proof fn lemma_debounce_no_spurious_events(state: u8, press_ticks: u8, release_delay: u8)
    ensures
        state >= 0x80 ==> !spec_debounce_pressed(state, press_ticks).1 && spec_debounce_pressed(state, press_ticks).0 == 0x80,
        state < 0x80 ==> !spec_debounce_released(state, release_delay).1 && spec_debounce_released(state, release_delay).0 == 0,
        state == 0 ==> !spec_debounce_pressed(state, press_ticks).1,
{
}

/// Released keys report exactly one release, after the release delay: a
/// held key's state counts down from `0x80 + delay` to `0x80`, and each
/// step reports nothing until the last.
pub proof fn lemma_release_counts_down(state: u8, release_delay: u8)
    requires
        0x80 < state,
    ensures
        spec_debounce_released(state, release_delay) == (if state == 0x81 { (0u8, true) } else { ((state - 1) as u8, false) }),
{
}

} // verus!
