use vstd::prelude::*;
use heapless::spsc::Queue;
use crate::launchpad_mk2::inputs::{spec_debounce_pressed, spec_debounce_released};

verus! {

pub const PAD_COUNT: usize = 64;
pub const SIDE_BUTTON_COUNT: usize = 32;
pub const SWITCH_ENTRY_COUNT: usize = 33;
pub const SETUP_INDEX: u8 = 0;
pub const NO_BUTTON: u8 = 0xff;
pub const PRESS_VALUE: u8 = 127;
pub const EVENT_QUEUE_SIZE: usize = 64;
pub const SWITCH_RELEASE_DELAY: u8 = 0x28;
pub const ADC_BANK_SIZE: usize = 16;

/// Pad threshold while idle (10-bit ADC domain).
pub const CAL_FLOOR_IDLE: u16 = 0x100;
/// Lower threshold once a pad is active: the hysteresis.
pub const CAL_FLOOR_ACTIVE: u16 = 0xf6;
/// How far above the threshold a reading must be before it counts.
pub const CAL_DEADBAND: u16 = 0x50;
pub const CAL_AT_START: u16 = 0x200;
pub const CAL_AT_END: u16 = 0x301;
pub const CAL_AT_RANGE: u16 = 257;
pub const VELOCITY_SCALE_NUM: u32 = 0x190;
pub const VELOCITY_SCALE_DEN: u32 = 576;
pub const VELOCITY_INDEX_MAX: u32 = 0x1ff;
/// A hit whose velocity exceeds this fires at once.
pub const FAST_FIRE_VELOCITY: u8 = 0x7e;
pub const ARM_CONFIRM_TICKS: u8 = 1;
pub const AT_HOLDOFF_TICKS: u8 = 0x10;
pub const RELEASE_ARM_TICKS: u8 = 4;

pub const PAD_STATE_IDLE: u8 = 0;
pub const PAD_STATE_ARMING: u8 = 1;
pub const PAD_STATE_HELD: u8 = 2;
pub const PAD_STATE_RELEASING: u8 = 3;

/// Velocity for each normalised overshoot index (0..512).
pub const PADVELOCITY: [u8; 512] = [
    0, 0, 0, 0, 0, 0, 0, 0, 0, 0, 0, 0, 0, 0, 0, 1,
    1, 1, 1, 1, 1, 1, 1, 1, 1, 1, 1, 1, 1, 1, 1, 1,
    1, 1, 1, 1, 1, 1, 1, 1, 1, 1, 1, 1, 1, 1, 1, 1,
    1, 1, 1, 1, 1, 1, 2, 2, 2, 2, 2, 2, 2, 2, 2, 2,
    2, 2, 2, 2, 2, 2, 2, 2, 2, 2, 2, 2, 2, 2, 2, 2,
    2, 2, 2, 2, 2, 2, 2, 2, 2, 2, 2, 2, 2, 2, 2, 2,
    2, 2, 2, 2, 2, 2, 2, 2, 3, 3, 3, 3, 3, 3, 3, 3,
    3, 3, 3, 3, 3, 3, 3, 3, 3, 3, 3, 3, 3, 3, 3, 3,
    3, 3, 3, 3, 3, 3, 3, 3, 3, 3, 4, 4, 4, 4, 4, 4,
    4, 4, 4, 4, 4, 4, 4, 4, 4, 4, 4, 4, 4, 4, 4, 4,
    4, 4, 4, 4, 5, 5, 5, 5, 5, 5, 5, 5, 5, 5, 5, 5,
    5, 5, 5, 5, 5, 5, 5, 5, 6, 6, 6, 6, 6, 6, 6, 6,
    6, 6, 6, 6, 6, 6, 6, 6, 6, 6, 7, 7, 7, 7, 7, 7,
    7, 7, 7, 7, 7, 7, 7, 7, 7, 8, 8, 8, 8, 8, 8, 8,
    8, 8, 8, 8, 8, 8, 9, 9, 9, 9, 9, 9, 9, 9, 9, 9,
    9, 10, 10, 10, 10, 10, 10, 10, 10, 10, 10, 10, 11, 11, 11, 11,
    11, 11, 11, 11, 11, 12, 12, 12, 12, 12, 12, 12, 12, 12, 13, 13,
    13, 13, 13, 13, 13, 13, 14, 14, 14, 14, 14, 14, 14, 14, 15, 15,
    15, 15, 15, 15, 15, 16, 16, 16, 16, 16, 16, 17, 17, 17, 17, 17,
    17, 18, 18, 18, 18, 18, 18, 19, 19, 19, 19, 19, 19, 20, 20, 20,
    20, 20, 21, 21, 21, 21, 21, 22, 22, 22, 22, 22, 23, 23, 23, 23,
    23, 24, 24, 24, 24, 25, 25, 25, 25, 26, 26, 26, 26, 27, 27, 27,
    27, 28, 28, 28, 28, 29, 29, 29, 29, 30, 30, 30, 31, 31, 31, 31,
    32, 32, 32, 33, 33, 33, 34, 34, 34, 35, 35, 35, 36, 36, 36, 37,
    37, 37, 38, 38, 38, 39, 39, 40, 40, 40, 41, 41, 41, 42, 42, 43,
    43, 43, 44, 44, 45, 45, 46, 46, 46, 47, 47, 48, 48, 49, 49, 50,
    50, 51, 51, 51, 52, 52, 53, 53, 54, 54, 55, 56, 56, 57, 57, 58,
    58, 59, 59, 60, 60, 61, 62, 62, 63, 63, 64, 65, 65, 66, 66, 67,
    68, 68, 69, 70, 70, 71, 72, 72, 73, 75, 78, 80, 82, 85, 87, 89,
    92, 94, 96, 99, 101, 104, 106, 108, 111, 113, 115, 118, 120, 122, 125, 127,
    127, 127, 127, 127, 127, 127, 127, 127, 127, 127, 127, 127, 127, 127, 127, 127,
    127, 127, 127, 127, 127, 127, 127, 127, 127, 127, 127, 127, 127, 127, 127, 127,
];

/// ADC channel of each pad sensor.
pub const PADADC: [u8; 64] = [
    49, 51, 53, 55, 57, 59, 61, 63, 33, 35, 37, 39, 41, 43, 45, 47, 17, 19, 21, 23, 25, 27, 29, 31,
    1, 3, 5, 7, 9, 11, 13, 15, 48, 50, 52, 54, 56, 58, 60, 62, 32, 34, 36, 38, 40, 42, 44, 46, 16,
    18, 20, 22, 24, 26, 28, 30, 0, 2, 4, 6, 8, 10, 12, 14,
];

/// Surface index of each pad sensor.
pub const PAD_SENSOR_TO_INDEX: [u8; 64] = [
    81, 82, 83, 84, 85, 86, 87, 88, 71, 72, 73, 74, 75, 76, 77, 78, 61, 62, 63, 64, 65, 66, 67, 68,
    51, 52, 53, 54, 55, 56, 57, 58, 41, 42, 43, 44, 45, 46, 47, 48, 31, 32, 33, 34, 35, 36, 37, 38,
    21, 22, 23, 24, 25, 26, 27, 28, 11, 12, 13, 14, 15, 16, 17, 18,
];

/// Surface index of each switch entry, four groups of nine (group 0 holds
/// the setup button, index 0).
pub const SWITCH_TO_INDEX: [u8; 33] = [94, 98, 50, 10, 0, 4, 8, 59, 19, 91, 95, 80, 40, 1, 5, 89, 49, 92, 96, 70, 30, 2, 6, 79, 39, 93, 97, 60, 20, 3, 7, 69, 29];

/// A pad or button change.
#[derive(Copy, Clone, PartialEq, Eq, Structural, Debug)]
pub enum GridEvent {
    Press { index: u8, value: u8 },
    Release { index: u8 },
    Aftertouch { index: u8, value: u8 },
}

/// The events held by the pad and button event queue, oldest first.
pub uninterp spec fn pro_event_items(q: Queue<GridEvent, 64>) -> Seq<GridEvent>;

/// `heapless::spsc::Queue::new`: an empty queue.
#[verifier::external_body]
fn event_queue_new() -> (q: Queue<GridEvent, 64>)
    ensures
        pro_event_items(q) == Seq::<GridEvent>::empty(),
{
    Queue::new()
}

/// `heapless::spsc::Queue::enqueue`: appends the item unless the queue already
/// holds `N - 1` items, in which case the item is handed back.
#[verifier::external_body]
fn event_queue_enqueue(q: &mut Queue<GridEvent, 64>, item: GridEvent) -> (r: Result<(), GridEvent>)
    ensures
        (r is Ok) == (pro_event_items(*old(q)).len() < 63),
        r is Ok ==> pro_event_items(*final(q)) == pro_event_items(*old(q)).push(item),
        r matches Err(e) ==> e == item && pro_event_items(*final(q)) == pro_event_items(*old(q)),
{
    q.enqueue(item)
}

/// `heapless::spsc::Queue::dequeue`: removes and returns the oldest item.
#[verifier::external_body]
fn event_queue_dequeue(q: &mut Queue<GridEvent, 64>) -> (r: Option<GridEvent>)
    ensures
        pro_event_items(*old(q)).len() == 0 ==> r is None && pro_event_items(*final(q)) == pro_event_items(
            *old(q),
        ),
        pro_event_items(*old(q)).len() > 0 ==> r == Some(pro_event_items(*old(q))[0])
            && pro_event_items(*final(q)) == pro_event_items(*old(q)).drop_first(),
{
    q.dequeue()
}

/// Velocity curve lookup: the overshoot scaled by 400/576 and capped at
/// the last index of `PADVELOCITY`.
pub open spec fn spec_velocity_for_overshoot(overshoot: u16) -> u8 {
    let idx = 400 * (overshoot as int) / 576;
    PADVELOCITY[if idx < 511 { idx } else { 511 }]
}

pub fn velocity_for_overshoot(overshoot: u16) -> (r: u8)
    ensures
        r == spec_velocity_for_overshoot(overshoot),
{
    let scaled: u32 = VELOCITY_SCALE_NUM * overshoot as u32 / VELOCITY_SCALE_DEN;
    let idx: u32 = if scaled < VELOCITY_INDEX_MAX { scaled } else { VELOCITY_INDEX_MAX };
    PADVELOCITY[idx as usize]
}

/// Aftertouch for a reading `diff` above the threshold: 0 up to the start
/// of the aftertouch range, then linear up to 127 at its end.
pub open spec fn spec_aftertouch_from_diff(diff: u16) -> u8 {
    if diff <= CAL_AT_START {
        0
    } else {
        let v = if diff - CAL_AT_START < CAL_AT_RANGE { diff - CAL_AT_START } else { CAL_AT_RANGE as int };
        (v * 127 / 257) as u8
    }
}

pub fn aftertouch_from_diff(diff: u16) -> (r: u8)
    ensures
        r == spec_aftertouch_from_diff(diff),
        r <= 127,
{
    if diff <= CAL_AT_START {
        return 0;
    }
    let d = diff - CAL_AT_START;
    let value: u16 = if d < CAL_AT_RANGE { d } else { CAL_AT_RANGE };
    assert((value as u32 * 127) / 257 <= 127) by (nonlinear_arith)
        requires
            value <= 257,
    ;
    ((value as u32 * 127) / CAL_AT_RANGE as u32) as u8
}

/// Press debouncing of a side button: confirmed on the second consecutive
/// closed reading.
pub fn switch_is_on(state: &mut u8) -> (r: bool)
    ensures
        (*final(state), r) == spec_debounce_pressed(*old(state), 2),
{
    let current = *state;
    if current == 0 {
        *state = 2;
        return false;
    }
    if current < 0x80 {
        let next = current - 1;
        if next == 0 {
            *state = 0x80;
            return true;
        }
        *state = next;
        return false;
    }
    if current != 0x80 {
        *state = 0x80;
    }
    false
}

/// Release debouncing of a side button: confirmed after `release_delay`
/// open readings.
pub fn switch_is_off(state: &mut u8, release_delay: u8) -> (r: bool)
    ensures
        (*final(state), r) == spec_debounce_released(*old(state), release_delay),
{
    let current = *state;
    if current == 0 {
        return false;
    }
    if current < 0x80 {
        *state = 0;
        return false;
    }
    if current == 0x80 {
        *state = release_delay.wrapping_add(0x80);
        return false;
    }
    let next = current.wrapping_sub(1);
    if next == 0x80 {
        *state = 0;
        return true;
    }
    *state = next;
    false
}

/// Everything the pad state machine keeps for one pad sensor.
#[derive(Copy, Clone, PartialEq, Eq, Structural, Debug)]
pub struct PadState {
    /// Peak reading since it was last cleared.
    pub adc_max: u16,
    /// Idle, arming, held or releasing.
    pub state: u8,
    /// Tick counter of the current state.
    pub time: u8,
    /// Last aftertouch value reported.
    pub last_aftertouch: u8,
    /// A press was reported and not yet its release.
    pub pressed: bool,
}

pub open spec fn idle_pad() -> PadState {
    PadState { adc_max: 0, state: 0, time: 0, last_aftertouch: 0, pressed: false }
}

/// Appends events one by one; each is dropped when the queue is full.
pub open spec fn push_all_bounded(items: Seq<GridEvent>, events: Seq<GridEvent>) -> Seq<GridEvent>
    decreases events.len(),
{
    if events.len() == 0 {
        items
    } else {
        push_all_bounded(
            if items.len() < 63 { items.push(events[0]) } else { items },
            events.drop_first(),
        )
    }
}

/// A velocity report: a press for a non-zero value, a release for zero,
/// and nothing when that matches what was last reported.
pub open spec fn velocity_report(p: PadState, index: u8, value: u8) -> (PadState, Seq<GridEvent>) {
    let pressed = value != 0;
    if p.pressed == pressed {
        (p, Seq::empty())
    } else if pressed {
        (PadState { pressed, ..p }, seq![GridEvent::Press { index, value }])
    } else {
        (PadState { pressed, ..p }, seq![GridEvent::Release { index }])
    }
}

pub open spec fn sat_dec(t: u8) -> u8 {
    if t == 0 { 0 } else { (t - 1) as u8 }
}

/// One 200 Hz step of a pad whose reading is below its threshold (or inside
/// the deadband above it).
#[verifier::opaque]
pub open spec fn pad_below_threshold(p: PadState, index: u8) -> (PadState, Seq<GridEvent>) {
    if p.state == PAD_STATE_IDLE {
        (p, Seq::empty())
    } else if p.state == PAD_STATE_ARMING {
        let t = sat_dec(p.time);
        if t == 0 {
            let (q, ev) = velocity_report(PadState { time: AT_HOLDOFF_TICKS, ..p }, index, 0);
            (PadState { state: PAD_STATE_HELD, adc_max: 0, ..q }, ev)
        } else {
            (PadState { time: t, ..p }, Seq::empty())
        }
    } else if p.state == PAD_STATE_HELD {
        (PadState { time: RELEASE_ARM_TICKS, state: PAD_STATE_RELEASING, adc_max: 0, ..p }, Seq::empty())
    } else if p.state == PAD_STATE_RELEASING {
        let t = sat_dec(p.time);
        if t == 0 {
            let at_events: Seq<GridEvent> = if p.last_aftertouch != 0 {
                seq![GridEvent::Aftertouch { index, value: 0 }]
            } else {
                Seq::empty()
            };
            let (q, ev) = velocity_report(PadState { time: 0, last_aftertouch: 0, ..p }, index, 0);
            (PadState { state: PAD_STATE_IDLE, adc_max: 0, ..q }, at_events + ev)
        } else {
            (PadState { time: t, adc_max: 0, ..p }, Seq::empty())
        }
    } else {
        (PadState { state: PAD_STATE_IDLE, ..p }, Seq::empty())
    }
}

/// One 200 Hz step of the pad state machine: thresholds with hysteresis and
/// a deadband, arm-confirm before a press (skipped by a saturated hit),
/// throttled aftertouch while held, and a release hold-off during which a
/// new hit goes back to held without a second press.
#[verifier::opaque]
pub open spec fn pad_step(p: PadState, index: u8) -> (PadState, Seq<GridEvent>) {
    let floor = if p.state != PAD_STATE_IDLE { CAL_FLOOR_ACTIVE } else { CAL_FLOOR_IDLE };
    if p.adc_max <= floor || p.adc_max - floor <= CAL_DEADBAND {
        pad_below_threshold(p, index)
    } else {
        let diff = (p.adc_max - floor) as u16;
        let velocity = spec_velocity_for_overshoot((diff - CAL_DEADBAND) as u16);
        if p.state == PAD_STATE_IDLE {
            if velocity == 0 {
                (p, Seq::empty())
            } else if velocity > FAST_FIRE_VELOCITY {
                let (q, ev) = velocity_report(PadState { time: AT_HOLDOFF_TICKS, ..p }, index, velocity);
                (PadState { state: PAD_STATE_HELD, ..q }, ev)
            } else {
                (PadState { state: PAD_STATE_ARMING, time: ARM_CONFIRM_TICKS, ..p }, Seq::empty())
            }
        } else if p.state == PAD_STATE_ARMING {
            if velocity <= FAST_FIRE_VELOCITY && sat_dec(p.time) != 0 {
                (PadState { time: sat_dec(p.time), ..p }, Seq::empty())
            } else {
                let (q, ev) = velocity_report(PadState { time: AT_HOLDOFF_TICKS, ..p }, index, velocity);
                (PadState { state: PAD_STATE_HELD, adc_max: 0, ..q }, ev)
            }
        } else if p.state == PAD_STATE_HELD {
            if velocity == 0 {
                (PadState { time: RELEASE_ARM_TICKS, state: PAD_STATE_RELEASING, adc_max: 0, ..p }, Seq::empty())
            } else if p.time != 0 {
                (PadState { time: (p.time - 1) as u8, adc_max: 0, ..p }, Seq::empty())
            } else {
                let at = spec_aftertouch_from_diff(diff);
                if p.last_aftertouch != at {
                    (PadState { last_aftertouch: at, adc_max: 0, ..p }, seq![GridEvent::Aftertouch { index, value: at }])
                } else {
                    (PadState { adc_max: 0, ..p }, Seq::empty())
                }
            }
        } else if p.state == PAD_STATE_RELEASING {
            (PadState { time: 0, state: PAD_STATE_HELD, adc_max: 0, ..p }, Seq::empty())
        } else {
            (PadState { state: PAD_STATE_IDLE, ..p }, Seq::empty())
        }
    }
}

/// Appending two runs of events one after the other appends their
/// concatenation.
pub proof fn lemma_push_all_bounded_append(items: Seq<GridEvent>, a: Seq<GridEvent>, b: Seq<GridEvent>)
    ensures
        push_all_bounded(push_all_bounded(items, a), b) == push_all_bounded(items, a + b),
    decreases a.len(),
{
    if a.len() > 0 {
        let next = if items.len() < 63 { items.push(a[0]) } else { items };
        assert((a + b).drop_first() =~= a.drop_first() + b);
        lemma_push_all_bounded_append(next, a.drop_first(), b);
    } else {
        assert(a + b =~= b);
    }
}

/// Pads and queued events after sensors `from..64` step in order.
pub open spec fn pads_from(pads: Seq<PadState>, items: Seq<GridEvent>, from: int) -> (Seq<PadState>, Seq<GridEvent>)
    decreases 64 - from,
{
    if from < 0 || from >= 64 {
        (pads, items)
    } else {
        let (p, ev) = pad_step(pads[from], PAD_SENSOR_TO_INDEX[from]);
        pads_from(pads.update(from, p), push_all_bounded(items, ev), from + 1)
    }
}

/// Switch debounce states and queued events after a switch entry reads
/// closed or open.
pub open spec fn switch_step(states: Seq<u8>, items: Seq<GridEvent>, entry: int, pressed: bool) -> (Seq<u8>, Seq<GridEvent>) {
    if entry < 0 || entry >= SWITCH_ENTRY_COUNT || SWITCH_TO_INDEX[entry] == NO_BUTTON {
        (states, items)
    } else if pressed {
        let (s, fired) = spec_debounce_pressed(states[entry], 2);
        (states.update(entry, s), if fired {
            push_all_bounded(items, seq![GridEvent::Press { index: SWITCH_TO_INDEX[entry], value: PRESS_VALUE }])
        } else {
            items
        })
    } else {
        let (s, fired) = spec_debounce_released(states[entry], SWITCH_RELEASE_DELAY);
        (states.update(entry, s), if fired {
            push_all_bounded(items, seq![GridEvent::Release { index: SWITCH_TO_INDEX[entry] }])
        } else {
            items
        })
    }
}

/// Switch states and queued events after entries `from..33` are debounced
/// in order against the raw readings.
pub open spec fn switches_from(states: Seq<u8>, items: Seq<GridEvent>, raw: Seq<u8>, from: int) -> (Seq<u8>, Seq<GridEvent>)
    decreases 33 - from,
{
    if from < 0 || from >= 33 {
        (states, items)
    } else {
        let (s, i) = switch_step(states, items, from, raw[from] != 0);
        switches_from(s, i, raw, from + 1)
    }
}

/// Pad and side-button input of the Launchpad Pro: ADC readings, the pad
/// state machines, switch debouncing, and the queue of input events.
pub struct Inputs {
    queue: Queue<GridEvent, 64>,
    adc_direct: [u16; 64],
    pads: Vec<PadState>,
    switches_raw: [u8; 33],
    switches_processed: [u8; 33],
}

impl Inputs {
    pub closed spec fn wf(&self) -> bool {
        self.pads@.len() == PAD_COUNT
    }

    /// Events waiting to be polled, oldest first.
    pub closed spec fn events(&self) -> Seq<GridEvent> {
        pro_event_items(self.queue)
    }

    /// The pad state machines, by sensor.
    pub closed spec fn pads(&self) -> Seq<PadState> {
        self.pads@
    }

    /// Latest readings of the 64 ADC channels.
    pub closed spec fn adc(&self) -> Seq<u16> {
        self.adc_direct@
    }

    /// Latest raw closed (non-zero) or open reading of each switch entry.
    pub closed spec fn switch_readings(&self) -> Seq<u8> {
        self.switches_raw@
    }

    /// Debounce state of each switch entry.
    pub closed spec fn switch_states(&self) -> Seq<u8> {
        self.switches_processed@
    }

    /// Nothing observable changed.
    pub open spec fn unchanged_from(&self, other: &Inputs) -> bool {
        &&& self.wf() == other.wf()
        &&& self.same_but_events(other)
        &&& self.events() == other.events()
    }

    /// Nothing but the event queue changed.
    pub open spec fn same_but_events(&self, other: &Inputs) -> bool {
        &&& self.pads() == other.pads()
        &&& self.adc() == other.adc()
        &&& self.switch_readings() == other.switch_readings()
        &&& self.switch_states() == other.switch_states()
    }

    pub fn new() -> (r: Self)
        ensures
            r.wf(),
            r.events() == Seq::<GridEvent>::empty(),
            r.pads() == Seq::new(64, |i: int| idle_pad()),
            r.adc() == Seq::new(64, |i: int| 0u16),
            r.switch_readings() == Seq::new(33, |i: int| 0u8),
            r.switch_states() == Seq::new(33, |i: int| 0u8),
    {
        let mut pads: Vec<PadState> = Vec::new();
        let mut i: usize = 0;
        while i < PAD_COUNT
            invariant
                i <= 64,
                pads@ == Seq::new(i as nat, |k: int| idle_pad()),
            decreases 64 - i,
        {
            pads.push(PadState { adc_max: 0, state: 0, time: 0, last_aftertouch: 0, pressed: false });
            i = i + 1;
            assert(pads@ =~= Seq::new(i as nat, |k: int| idle_pad()));
        }
        let r = Inputs {
            queue: event_queue_new(),
            adc_direct: [0; 64],
            pads,
            switches_raw: [0; 33],
            switches_processed: [0; 33],
        };
        assert(r.adc() =~= Seq::new(64, |i: int| 0u16));
        assert(r.switch_readings() =~= Seq::new(33, |i: int| 0u8));
        assert(r.switch_states() =~= Seq::new(33, |i: int| 0u8));
        r
    }

    pub fn poll_event(&mut self) -> (r: Option<GridEvent>)
        requires
            old(self).wf(),
        ensures
            final(self).wf(),
            final(self).same_but_events(old(self)),
            old(self).events().len() == 0 ==> r is None && final(self).events() == old(self).events(),
            old(self).events().len() > 0 ==> r == Some(old(self).events()[0])
                && final(self).events() == old(self).events().drop_first(),
    {
        event_queue_dequeue(&mut self.queue)
    }

    fn push_event(&mut self, event: GridEvent)
        ensures
            final(self).pads@ == old(self).pads@,
            final(self).adc_direct@ == old(self).adc_direct@,
            final(self).switches_raw@ == old(self).switches_raw@,
            final(self).switches_processed@ == old(self).switches_processed@,
            pro_event_items(final(self).queue) == push_all_bounded(pro_event_items(old(self).queue), seq![event]),
    {
        let _ = event_queue_enqueue(&mut self.queue, event);
        proof {
            let items = pro_event_items(old(self).queue);
            let next = if items.len() < 63 { items.push(event) } else { items };
            assert(seq![event].drop_first() =~= Seq::<GridEvent>::empty());
            assert(push_all_bounded(next, Seq::<GridEvent>::empty()) == next);
        }
    }

    /// Reports a velocity for a pad whose state is `p` (see
    /// `velocity_report`) and returns its new state.
    fn report_velocity(&mut self, p: PadState, index: u8, value: u8) -> (r: PadState)
        ensures
            final(self).pads@ == old(self).pads@,
            final(self).adc_direct@ == old(self).adc_direct@,
            final(self).switches_raw@ == old(self).switches_raw@,
            final(self).switches_processed@ == old(self).switches_processed@,
            ({
                let (q, ev) = velocity_report(p, index, value);
                &&& r == q
                &&& pro_event_items(final(self).queue) == push_all_bounded(pro_event_items(old(self).queue), ev)
            }),
    {
        let pressed = value != 0;
        if p.pressed == pressed {
            return p;
        }
        let event = if pressed {
            GridEvent::Press { index, value }
        } else {
            GridEvent::Release { index }
        };
        self.push_event(event);
        PadState { pressed, ..p }
    }

    /// Reports a pad's velocity (0 for a release), unless it repeats the
    /// last report; ignored for an unknown sensor.
    pub fn capture_pad_velocity(&mut self, sensor: usize, value: u8)
        requires
            old(self).wf(),
        ensures
            final(self).wf(),
            final(self).adc() == old(self).adc(),
            final(self).switch_readings() == old(self).switch_readings(),
            final(self).switch_states() == old(self).switch_states(),
            sensor >= PAD_COUNT ==> final(self).pads() == old(self).pads() && final(self).events() == old(self).events(),
            sensor < PAD_COUNT ==> {
                let (q, ev) = velocity_report(old(self).pads()[sensor as int], PAD_SENSOR_TO_INDEX[sensor as int], value);
                &&& final(self).pads() == old(self).pads().update(sensor as int, q)
                &&& final(self).events() == push_all_bounded(old(self).events(), ev)
            },
    {
        if sensor >= PAD_COUNT {
            return;
        }
        let index = PAD_SENSOR_TO_INDEX[sensor];
        let p = self.pads[sensor];
        let q = self.report_velocity(p, index, value);
        self.pads.set(sensor, q);
    }

    /// Reports a pad's aftertouch; ignored for an unknown sensor.
    pub fn capture_pad_aftertouch(&mut self, sensor: usize, value: u8)
        requires
            old(self).wf(),
        ensures
            final(self).wf(),
            final(self).same_but_events(old(self)),
            sensor >= PAD_COUNT ==> final(self).events() == old(self).events(),
            sensor < PAD_COUNT ==> final(self).events() == push_all_bounded(
                old(self).events(),
                seq![GridEvent::Aftertouch { index: PAD_SENSOR_TO_INDEX[sensor as int], value }],
            ),
    {
        if sensor >= PAD_COUNT {
            return;
        }
        let index = PAD_SENSOR_TO_INDEX[sensor];
        self.push_event(GridEvent::Aftertouch { index, value });
    }

    /// Debounces one side-button reading and reports the press or release
    /// it confirms.
    pub fn capture_switch_entry(&mut self, entry: usize, pressed: bool)
        requires
            old(self).wf(),
        ensures
            final(self).wf(),
            final(self).pads() == old(self).pads(),
            final(self).adc() == old(self).adc(),
            final(self).switch_readings() == old(self).switch_readings(),
            (final(self).switch_states(), final(self).events()) == switch_step(
                old(self).switch_states(),
                old(self).events(),
                entry as int,
                pressed,
            ),
    {
        if entry >= SWITCH_ENTRY_COUNT {
            return;
        }
        let index = SWITCH_TO_INDEX[entry];
        if index == NO_BUTTON {
            return;
        }
        let mut state = self.switches_processed[entry];
        if pressed {
            let fired = switch_is_on(&mut state);
            self.switches_processed[entry] = state;
            if fired {
                self.push_event(GridEvent::Press { index, value: PRESS_VALUE });
            }
        } else {
            let fired = switch_is_off(&mut state, SWITCH_RELEASE_DELAY);
            self.switches_processed[entry] = state;
            if fired {
                self.push_event(GridEvent::Release { index });
            }
        }
    }

    /// Records the raw reading of one switch entry; ignored past the last.
    pub fn set_switch_raw(&mut self, entry: usize, value: bool)
        requires
            old(self).wf(),
        ensures
            final(self).wf(),
            final(self).pads() == old(self).pads(),
            final(self).adc() == old(self).adc(),
            final(self).switch_states() == old(self).switch_states(),
            final(self).events() == old(self).events(),
            entry < SWITCH_ENTRY_COUNT ==> final(self).switch_readings() == old(self).switch_readings().update(
                entry as int,
                if value { 1u8 } else { 0u8 },
            ),
            entry >= SWITCH_ENTRY_COUNT ==> final(self).switch_readings() == old(self).switch_readings(),
    {
        if entry < SWITCH_ENTRY_COUNT {
            self.switches_raw[entry] = if value { 1 } else { 0 };
        }
    }

    /// Stores the 16 readings of one ADC bank (channels `16 * bank ..`).
    pub fn capture_adc_bank(&mut self, bank: usize, samples: &[u16; 16])
        requires
            old(self).wf(),
            bank < 4,
        ensures
            final(self).wf(),
            final(self).adc() == old(self).adc().take(bank * 16) + samples@ + old(self).adc().skip(bank * 16 + 16),
            forall|i: int| 0 <= i < 64 ==> #[trigger] final(self).adc()[i] == (if bank * 16 <= i < bank * 16 + 16 {
                samples@[i - bank * 16]
            } else {
                old(self).adc()[i]
            }),
            final(self).pads() == old(self).pads(),
            final(self).switch_readings() == old(self).switch_readings(),
            final(self).switch_states() == old(self).switch_states(),
            final(self).events() == old(self).events(),
    {
        let base = bank * ADC_BANK_SIZE;
        let mut i: usize = 0;
        while i < ADC_BANK_SIZE
            invariant
                base == bank * 16,
                bank < 4,
                i <= 16,
                self.pads@ == old(self).pads@,
                self.switches_raw@ == old(self).switches_raw@,
                self.switches_processed@ == old(self).switches_processed@,
                self.queue == old(self).queue,
                forall|k: int| 0 <= k < 64 && !(base <= k < base + i) ==> self.adc_direct@[k] == old(self).adc_direct@[k],
                forall|k: int| 0 <= k < i ==> self.adc_direct@[base + k] == samples@[k],
            decreases 16 - i,
        {
            self.adc_direct[base + i] = samples[i];
            i = i + 1;
        }
        assert(self.adc() =~= old(self).adc().take(bank * 16) + samples@ + old(self).adc().skip(bank * 16 + 16));
    }

    /// Peak hold: raises each pad's peak to its latest reading, taken to 10
    /// bits with rounding.
    pub fn accumulate_adc_max(&mut self)
        requires
            old(self).wf(),
            forall|i: int| 0 <= i < 64 ==> old(self).adc()[i] < 0xfffe,
        ensures
            final(self).wf(),
            forall|s: int| 0 <= s < 64 ==> {
                let v = ((old(self).adc()[PADADC[s] as int] + 2) / 4) as u16;
                let p = old(self).pads()[s];
                #[trigger] final(self).pads()[s] == (if p.adc_max < v { PadState { adc_max: v, ..p } } else { p })
            },
            final(self).adc() == old(self).adc(),
            final(self).switch_readings() == old(self).switch_readings(),
            final(self).switch_states() == old(self).switch_states(),
            final(self).events() == old(self).events(),
    {
        let mut sensor: usize = 0;
        while sensor < PAD_COUNT
            invariant
                sensor <= 64,
                self.pads@.len() == 64,
                forall|i: int| 0 <= i < 64 ==> old(self).adc()[i] < 0xfffe,
                self.adc_direct@ == old(self).adc_direct@,
                self.switches_raw@ == old(self).switches_raw@,
                self.switches_processed@ == old(self).switches_processed@,
                self.queue == old(self).queue,
                forall|s: int| 0 <= s < sensor ==> {
                    let v = ((old(self).adc_direct@[PADADC[s] as int] + 2) / 4) as u16;
                    let p = old(self).pads@[s];
                    #[trigger] self.pads@[s] == (if p.adc_max < v { PadState { adc_max: v, ..p } } else { p })
                },
                forall|s: int| sensor <= s < 64 ==> #[trigger] self.pads@[s] == old(self).pads@[s],
            decreases 64 - sensor,
        {
            let channel = PADADC[sensor] as usize;
            assert(channel < 64);
            assert(old(self).adc()[channel as int] < 0xfffe);
            let sum: u16 = self.adc_direct[channel] + 2;
            proof {
                crate::bits::lemma_u16_shifts(sum);
            }
            let value: u16 = sum >> 2;
            let p = self.pads[sensor];
            if p.adc_max < value {
                self.pads.set(sensor, PadState { adc_max: value, ..p });
            }
            sensor = sensor + 1;
        }
    }

    /// The 1 kHz task: debounces every side button against its latest
    /// reading.
    pub fn tick_1khz(&mut self)
        requires
            old(self).wf(),
        ensures
            final(self).wf(),
            final(self).pads() == old(self).pads(),
            final(self).adc() == old(self).adc(),
            final(self).switch_readings() == old(self).switch_readings(),
            (final(self).switch_states(), final(self).events()) == switches_from(
                old(self).switch_states(),
                old(self).events(),
                old(self).switch_readings(),
                0,
            ),
    {
        let mut entry: usize = 0;
        while entry < SWITCH_ENTRY_COUNT
            invariant
                entry <= 33,
                self.wf(),
                self.pads() == old(self).pads(),
                self.adc() == old(self).adc(),
                self.switch_readings() == old(self).switch_readings(),
                switches_from(self.switch_states(), self.events(), self.switch_readings(), entry as int)
                    == switches_from(old(self).switch_states(), old(self).events(), old(self).switch_readings(), 0),
            decreases 33 - entry,
        {
            let closed = self.switches_raw[entry] != 0;
            self.capture_switch_entry(entry, closed);
            entry = entry + 1;
        }
    }

    /// The 200 Hz task: steps every pad's state machine.
    pub fn tick_200hz(&mut self)
        requires
            old(self).wf(),
        ensures
            final(self).wf(),
            (final(self).pads(), final(self).events()) == pads_from(old(self).pads(), old(self).events(), 0),
            final(self).adc() == old(self).adc(),
            final(self).switch_readings() == old(self).switch_readings(),
            final(self).switch_states() == old(self).switch_states(),
    {
        let mut sensor: usize = 0;
        while sensor < PAD_COUNT
            invariant
                sensor <= 64,
                self.wf(),
                self.adc() == old(self).adc(),
                self.switch_readings() == old(self).switch_readings(),
                self.switch_states() == old(self).switch_states(),
                pads_from(self.pads(), self.events(), sensor as int) == pads_from(old(self).pads(), old(self).events(), 0),
            decreases 64 - sensor,
        {
            self.process_pad(sensor);
            sensor = sensor + 1;
        }
    }

    /// One 200 Hz step of one pad's state machine.
    fn process_pad(&mut self, sensor: usize)
        requires
            old(self).wf(),
            sensor < PAD_COUNT,
        ensures
            final(self).wf(),
            ({
                let (q, ev) = pad_step(old(self).pads()[sensor as int], PAD_SENSOR_TO_INDEX[sensor as int]);
                &&& final(self).pads() == old(self).pads().update(sensor as int, q)
                &&& final(self).events() == push_all_bounded(old(self).events(), ev)
            }),
            final(self).adc() == old(self).adc(),
            final(self).switch_readings() == old(self).switch_readings(),
            final(self).switch_states() == old(self).switch_states(),
    {
        reveal(pad_step);
        reveal(pad_below_threshold);
        let index = PAD_SENSOR_TO_INDEX[sensor];
        let p = self.pads[sensor];
        let floor = if p.state != PAD_STATE_IDLE { CAL_FLOOR_ACTIVE } else { CAL_FLOOR_IDLE };
        if p.adc_max <= floor || p.adc_max - floor <= CAL_DEADBAND {
            self.process_below_threshold(sensor);
            return;
        }
        let diff = p.adc_max - floor;
        let overshoot = diff - CAL_DEADBAND;
        let velocity = velocity_for_overshoot(overshoot);
        let mut q = p;
        if p.state == PAD_STATE_IDLE {
            if velocity != 0 {
                if velocity > FAST_FIRE_VELOCITY {
                    q.time = AT_HOLDOFF_TICKS;
                    q = self.report_velocity(q, index, velocity);
                    q.state = PAD_STATE_HELD;
                } else {
                    q.state = PAD_STATE_ARMING;
                    q.time = ARM_CONFIRM_TICKS;
                }
            }
        } else if p.state == PAD_STATE_ARMING {
            if velocity <= FAST_FIRE_VELOCITY {
                q.time = q.time.saturating_sub(1);
                if q.time == 0 {
                    q.time = AT_HOLDOFF_TICKS;
                    q = self.report_velocity(q, index, velocity);
                    q.state = PAD_STATE_HELD;
                    q.adc_max = 0;
                }
            } else {
                q.time = AT_HOLDOFF_TICKS;
                q = self.report_velocity(q, index, velocity);
                q.state = PAD_STATE_HELD;
                q.adc_max = 0;
            }
        } else if p.state == PAD_STATE_HELD {
            if velocity == 0 {
                q.time = RELEASE_ARM_TICKS;
                q.state = PAD_STATE_RELEASING;
                q.adc_max = 0;
            } else if q.time != 0 {
                q.time = q.time - 1;
                q.adc_max = 0;
            } else {
                let at = aftertouch_from_diff(diff);
                if q.last_aftertouch != at {
                    q.last_aftertouch = at;
                    self.push_event(GridEvent::Aftertouch { index, value: at });
                }
                q.adc_max = 0;
            }
        } else if p.state == PAD_STATE_RELEASING {
            q.time = 0;
            q.state = PAD_STATE_HELD;
            q.adc_max = 0;
        } else {
            q.state = PAD_STATE_IDLE;
        }
        self.pads.set(sensor, q);
    }

    /// One 200 Hz step of a pad whose reading does not clear its threshold.
    fn process_below_threshold(&mut self, sensor: usize)
        requires
            old(self).wf(),
            sensor < PAD_COUNT,
        ensures
            final(self).wf(),
            ({
                let (q, ev) = pad_below_threshold(old(self).pads()[sensor as int], PAD_SENSOR_TO_INDEX[sensor as int]);
                &&& final(self).pads() == old(self).pads().update(sensor as int, q)
                &&& final(self).events() == push_all_bounded(old(self).events(), ev)
            }),
            final(self).adc() == old(self).adc(),
            final(self).switch_readings() == old(self).switch_readings(),
            final(self).switch_states() == old(self).switch_states(),
    {
        reveal(pad_below_threshold);
        let index = PAD_SENSOR_TO_INDEX[sensor];
        let p = self.pads[sensor];
        let mut q = p;
        if p.state == PAD_STATE_IDLE {
        } else if p.state == PAD_STATE_ARMING {
            q.time = q.time.saturating_sub(1);
            if q.time == 0 {
                q.time = AT_HOLDOFF_TICKS;
                q = self.report_velocity(q, index, 0);
                q.state = PAD_STATE_HELD;
                q.adc_max = 0;
            }
        } else if p.state == PAD_STATE_HELD {
            q.time = RELEASE_ARM_TICKS;
            q.state = PAD_STATE_RELEASING;
            q.adc_max = 0;
        } else if p.state == PAD_STATE_RELEASING {
            q.time = q.time.saturating_sub(1);
            if q.time == 0 {
                let ghost before = pro_event_items(self.queue);
                if q.last_aftertouch != 0 {
                    q.last_aftertouch = 0;
                    self.push_event(GridEvent::Aftertouch { index, value: 0 });
                }
                let ghost mid = pro_event_items(self.queue);
                q = self.report_velocity(q, index, 0);
                q.state = PAD_STATE_IDLE;
                proof {
                    let at_events: Seq<GridEvent> = if p.last_aftertouch != 0 {
                        seq![GridEvent::Aftertouch { index, value: 0 }]
                    } else {
                        Seq::empty()
                    };
                    let ev = velocity_report(PadState { time: 0, last_aftertouch: 0, ..p }, index, 0).1;
                    lemma_push_all_bounded_append(before, at_events, ev);
                    assert(push_all_bounded(before, Seq::<GridEvent>::empty()) == before);
                }
            }
            q.adc_max = 0;
        } else {
            q.state = PAD_STATE_IDLE;
        }
        self.pads.set(sensor, q);
    }
}


/// A pad that is held, or in its release hold-off, never reports a new
/// press, whatever it reads: the guard against double triggering.
pub proof fn lemma_no_press_while_held(p: PadState, index: u8)
    requires
        p.state == PAD_STATE_HELD || p.state == PAD_STATE_RELEASING,
    ensures
        forall|i: int| 0 <= i < pad_step(p, index).1.len() ==> !(#[trigger] pad_step(p, index).1[i] is Press),
{
    reveal(pad_step);
    reveal(pad_below_threshold);
    let (q, ev) = pad_step(p, index);
    if ev.len() > 0 {
        assert(forall|i: int| 0 <= i < ev.len() ==> !(ev[i] is Press));
    }
}

/// Presses and releases of a pad alternate: a press is reported only by a
/// pad not marked pressed and marks it, a release only by a marked pad and
/// clears it; otherwise the mark stays.
pub proof fn lemma_press_release_alternate(p: PadState, index: u8)
    ensures
        ({
            let (q, ev) = pad_step(p, index);
            &&& forall|i: int| 0 <= i < ev.len() && #[trigger] ev[i] is Press ==> !p.pressed && q.pressed
            &&& forall|i: int| 0 <= i < ev.len() && #[trigger] ev[i] is Release ==> p.pressed && !q.pressed
            &&& (forall|i: int| 0 <= i < ev.len() ==> !(#[trigger] ev[i] is Press) && !(ev[i] is Release)) ==> q.pressed == p.pressed
        }),
{
    reveal(pad_step);
    reveal(pad_below_threshold);
    let (q, ev) = pad_step(p, index);
    assert forall|i: int| 0 <= i < ev.len() && #[trigger] ev[i] is Press implies !p.pressed && q.pressed by {
        lemma_report_marks(p, index);
    }
    assert forall|i: int| 0 <= i < ev.len() && #[trigger] ev[i] is Release implies p.pressed && !q.pressed by {
        lemma_report_marks(p, index);
    }
    lemma_report_marks(p, index);
    if q.pressed != p.pressed {
        assert(ev.len() >= 1);
        let j = ev.len() - 1;
        assert(ev[j] is Press || ev[j] is Release);
    }
}

/// A velocity report marks the pad as it reports it.
proof fn lemma_report_marks(p: PadState, index: u8)
    ensures
        forall|p2: PadState, v: u8| {
            let (q, ev) = #[trigger] velocity_report(p2, index, v);
            &&& ev.len() <= 1
            &&& ev.len() == 0 ==> q.pressed == p2.pressed
            &&& ev.len() == 1 && ev[0] is Press ==> !p2.pressed && q.pressed
            &&& ev.len() == 1 && ev[0] is Release ==> p2.pressed && !q.pressed
            &&& ev.len() == 1 ==> ev[0] is Press || ev[0] is Release
        },
{
}

} // verus!
