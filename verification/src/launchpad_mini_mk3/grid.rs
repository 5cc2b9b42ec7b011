use vstd::prelude::*;
use crate::events::SurfaceEvent;
use super::buttons::{spec_is_valid, spec_strength, Buttons};

verus! {

pub const SCAN_SLOTS: usize = 96;

/// Brightness phase (0..6) driven in each scan slot.
pub const SCAN_PHASE_LUT: [u8; 96] = [
    0, 3, 2, 4, 5, 0, 3, 2, 1, 5, 0, 3, 4, 1, 5, 0, 2, 4, 1, 5, 3, 2, 4, 1, 4, 0, 3, 2, 2, 5, 0, 3,
    3, 1, 5, 0, 0, 4, 1, 5, 5, 2, 4, 1, 1, 3, 2, 4, 2, 4, 0, 3, 3, 2, 5, 0, 0, 3, 1, 5, 5, 0, 4, 1,
    1, 5, 2, 4, 4, 1, 3, 2, 3, 2, 4, 0, 0, 3, 2, 5, 5, 0, 3, 1, 1, 5, 0, 4, 4, 1, 5, 2, 2, 4, 1, 3,
];

/// Matrix row (0..4) driven in each scan slot.
pub const SCAN_ROW_LUT: [u8; 96] = [
    0, 1, 2, 3, 0, 1, 2, 3, 0, 1, 2, 3, 0, 1, 2, 3, 0, 1, 2, 3, 0, 1, 2, 3, 3, 0, 1, 2, 3, 0, 1, 2,
    3, 0, 1, 2, 3, 0, 1, 2, 3, 0, 1, 2, 3, 0, 1, 2, 2, 3, 0, 1, 2, 3, 0, 1, 2, 3, 0, 1, 2, 3, 0, 1,
    2, 3, 0, 1, 2, 3, 0, 1, 1, 2, 3, 0, 1, 2, 3, 0, 1, 2, 3, 0, 1, 2, 3, 0, 1, 2, 3, 0, 1, 2, 3, 0,
];

/// Microseconds the prepare step lasts, per brightness step.
pub const BRIGHTNESS_BASE_LUT: [u64; 11] = [
    0x8c, 0x81, 0x77, 0x6d, 0x62, 0x58, 0x4d, 0x43, 0x38, 0x2d, 0x22,
];

/// Microseconds each brightness phase is driven, per brightness step.
pub const BRIGHTNESS_PHASE_LUT: [[u64; 6]; 11] = [
    [0x0003, 0x0004, 0x0006, 0x000a, 0x0012, 0x0022],
    [0x0004, 0x0006, 0x000a, 0x0012, 0x0022, 0x0042],
    [0x0005, 0x0008, 0x000e, 0x001a, 0x0032, 0x0062],
    [0x0006, 0x000a, 0x0012, 0x0022, 0x0042, 0x0082],
    [0x0007, 0x000c, 0x0016, 0x002a, 0x0052, 0x00a2],
    [0x0008, 0x000e, 0x001a, 0x0032, 0x0062, 0x00c2],
    [0x0009, 0x0010, 0x001e, 0x003a, 0x0072, 0x00e2],
    [0x000a, 0x0012, 0x0022, 0x0042, 0x0082, 0x0102],
    [0x000b, 0x0014, 0x0026, 0x004a, 0x0092, 0x0122],
    [0x000c, 0x0016, 0x002a, 0x0052, 0x00a2, 0x0142],
    [0x000d, 0x0018, 0x002e, 0x005a, 0x00b2, 0x0162],
];

/// Row-select pin of each matrix row: PB0, PB1, PB2, PB10.
pub const ROW_PIN: [u8; 4] = [0, 1, 2, 10];

/// The next scan slot, wrapping after the last.
pub fn advance_slot(slot: u8) -> (r: u8)
    requires
        (slot as int) < SCAN_SLOTS as int,
    ensures
        r == (if slot + 1 == SCAN_SLOTS { 0 } else { slot + 1 }),
        (r as int) < SCAN_SLOTS as int,
{
    let next = slot + 1;
    if next as usize >= SCAN_SLOTS {
        0
    } else {
        next
    }
}

/// A frame is complete when the scan is back at its first slot.
pub fn frame_complete(slot: u8) -> (r: bool)
    ensures
        r == (slot == 0),
{
    slot == 0
}

/// What the prepare step of a scan slot does: which 8 framebuffer bytes of
/// which phase it shifts out, and where the bytes shifted in are stored.
#[derive(Copy, Clone, PartialEq, Eq, Structural, Debug)]
pub struct PreparePlan {
    pub row: u8,
    pub phase: u8,
    pub start: usize,
    pub group: u8,
    pub capture_row: u8,
}

pub open spec fn spec_prepare_plan(slot: u8) -> PreparePlan {
    let row = SCAN_ROW_LUT[slot as int];
    PreparePlan {
        row,
        phase: SCAN_PHASE_LUT[slot as int],
        start: (row * 8) as usize,
        group: (slot / 4) % 4,
        capture_row: ((row + 3) % 4) as u8,
    }
}

pub fn prepare_plan(slot: u8) -> (r: PreparePlan)
    requires
        (slot as int) < SCAN_SLOTS as int,
    ensures
        r == spec_prepare_plan(slot),
        r.row < 4,
        r.phase < 6,
        r.group < 4,
        r.capture_row < 4,
{
    let row = SCAN_ROW_LUT[slot as usize];
    let phase = SCAN_PHASE_LUT[slot as usize];
    assert(row < 4 && phase < 6);
    let group = (slot >> 2) & 0x03;
    proof {
        crate::bits::lemma_u8_bits(slot);
    }
    let r3: u8 = row + 3;
    let capture_row = r3 & 0x03;
    proof {
        crate::bits::lemma_u8_bits(r3);
    }
    PreparePlan { row, phase, start: row as usize * 8, group, capture_row }
}

/// Captures the bytes shifted in during a prepare step into the button
/// scan images.
pub fn capture_prepare(buttons: &mut Buttons, slot: u8, rx: &[u8; 8])
    requires
        old(buttons).wf(),
        (slot as int) < SCAN_SLOTS as int,
    ensures
        final(buttons).wf(),
        ({
            let p = spec_prepare_plan(slot);
            let g = p.group as int;
            final(buttons)@ == old(buttons)@.update(
                g,
                old(buttons)@[g].take(p.capture_row * 8) + rx@ + old(buttons)@[g].skip(
                    p.capture_row * 8 + 8,
                ),
            )
        }),
{
    let plan = prepare_plan(slot);
    buttons.capture_scan(plan.group, plan.capture_row, rx.as_slice());
    assert(rx@.take(8) =~= rx@);
}

/// What the drive step of a scan slot does: which colour overlays sink
/// current (active low) and which row pin is pulled low.
#[derive(Copy, Clone, PartialEq, Eq, Structural, Debug)]
pub struct DrivePlan {
    pub blue_low: bool,
    pub green_low: bool,
    pub red_low: bool,
    pub row_pin: u8,
}

pub open spec fn spec_drive_plan(slot: u8, overlay_r: u8, overlay_g: u8, overlay_b: u8) -> DrivePlan {
    let mask = 1u8 << SCAN_PHASE_LUT[slot as int];
    DrivePlan {
        blue_low: overlay_b & mask != 0,
        green_low: overlay_g & mask != 0,
        red_low: overlay_r & mask != 0,
        row_pin: ROW_PIN[SCAN_ROW_LUT[slot as int] as int],
    }
}

pub fn drive_plan(slot: u8, overlay_r: u8, overlay_g: u8, overlay_b: u8) -> (r: DrivePlan)
    requires
        (slot as int) < SCAN_SLOTS as int,
    ensures
        r == spec_drive_plan(slot, overlay_r, overlay_g, overlay_b),
{
    let row = SCAN_ROW_LUT[slot as usize];
    let phase = SCAN_PHASE_LUT[slot as usize];
    assert(row < 4 && phase < 6);
    let mask: u8 = 1u8 << phase;
    DrivePlan {
        blue_low: overlay_b & mask != 0,
        green_low: overlay_g & mask != 0,
        red_low: overlay_r & mask != 0,
        row_pin: ROW_PIN[row as usize],
    }
}

/// Brightness step (0..=10) for a brightness level; levels above 7 count
/// as 7.
pub open spec fn spec_brightness_index(level: u8) -> int {
    let l = if level < 7 { level as int } else { 7 };
    let raw = (l * 32 + 14) / 2 * 2;
    (11 * raw) / 256
}

pub fn brightness_index(level: u8) -> (r: usize)
    ensures
        r == spec_brightness_index(level),
        r < 11,
{
    let l: u8 = if level < 7 { level } else { 7 };
    assert(l <= 7 ==> l << 5u8 == l * 32) by (bit_vector);
    let shifted: u8 = (l << 5) + 14;
    let raw: u8 = shifted & 0xfe;
    assert(shifted & 0xfeu8 == shifted / 2 * 2) by (bit_vector);
    let scaled: u16 = 11 * raw as u16;
    proof {
        crate::bits::lemma_u16_shifts(scaled);
    }
    (scaled >> 8) as usize
}

pub fn prepare_delay_us(level: u8) -> (r: u64)
    ensures
        r == BRIGHTNESS_BASE_LUT[spec_brightness_index(level)],
{
    BRIGHTNESS_BASE_LUT[brightness_index(level)]
}

pub fn drive_delay_us(level: u8, slot: u8) -> (r: u64)
    requires
        (slot as int) < SCAN_SLOTS as int,
    ensures
        r == BRIGHTNESS_PHASE_LUT[spec_brightness_index(level)][SCAN_PHASE_LUT[slot as int] as int],
{
    let phase = SCAN_PHASE_LUT[slot as usize] as usize;
    assert(phase < 6);
    BRIGHTNESS_PHASE_LUT[brightness_index(level)][phase]
}

/// Surface index of a matrix position: rows are numbered from the bottom.
pub open spec fn spec_flip_index(index: u8) -> u8 {
    (index % 10 + (9 - index / 10) * 10) as u8
}

pub fn flip_index(index: u8) -> (r: u8)
    requires
        index < 100,
    ensures
        r == spec_flip_index(index),
        r < 100,
{
    (index % 10) + (9 - (index / 10)) * 10
}

/// Reports each valid button whose pressed state changed since `prev`, in
/// index order, and records the new states in `prev`.
pub fn surface_events(buttons: &Buttons, prev: &mut Vec<bool>) -> (r: Vec<SurfaceEvent>)
    requires
        buttons.wf(),
        old(prev)@.len() == 100,
    ensures
        final(prev)@.len() == 100,
        forall|i: int| 0 <= i < 100 ==> #[trigger] final(prev)@[i] == (if spec_is_valid(i as u8) {
            spec_strength(buttons@, i as u8) >= 2
        } else {
            old(prev)@[i]
        }),
        r@ == changed_events(buttons@, old(prev)@, 0),
{
    let mut events: Vec<SurfaceEvent> = Vec::new();
    let mut index: u8 = 0;
    while index < 100
        invariant
            buttons.wf(),
            index <= 100,
            prev@.len() == 100,
            forall|i: int| 0 <= i < index ==> #[trigger] prev@[i] == (if spec_is_valid(i as u8) {
                spec_strength(buttons@, i as u8) >= 2
            } else {
                old(prev)@[i]
            }),
            forall|i: int| index <= i < 100 ==> #[trigger] prev@[i] == old(prev)@[i],
            changed_events(buttons@, old(prev)@, 0) == events@ + changed_events(buttons@, old(prev)@, index as int),
        decreases 100 - index,
    {
        if buttons.is_valid(index) {
            let pressed = buttons.is_pressed(index);
            if pressed != prev[index as usize] {
                prev.set(index as usize, pressed);
                events.push(SurfaceEvent {
                    pressed,
                    index: flip_index(index),
                    value: if pressed { 127 } else { 0 },
                });
            }
        }
        proof {
            assert(changed_events(buttons@, old(prev)@, index as int) =~= match changed_event(buttons@, old(prev)@, index as int) {
                Some(e) => seq![e] + changed_events(buttons@, old(prev)@, index + 1),
                None => changed_events(buttons@, old(prev)@, index + 1),
            });
        }
        index = index + 1;
    }
    assert(events@ + changed_events(buttons@, old(prev)@, 100) =~= events@);
    events
}

/// The event for button `i`, if its pressed state differs from `prev`.
pub open spec fn changed_event(hist: Seq<Seq<u8>>, prev: Seq<bool>, i: int) -> Option<SurfaceEvent> {
    let pressed = spec_strength(hist, i as u8) >= 2;
    if spec_is_valid(i as u8) && pressed != prev[i] {
        Some(SurfaceEvent { pressed, index: spec_flip_index(i as u8), value: if pressed { 127 } else { 0 } })
    } else {
        None
    }
}

/// The events for buttons `from..100`, in index order.
pub open spec fn changed_events(hist: Seq<Seq<u8>>, prev: Seq<bool>, from: int) -> Seq<SurfaceEvent>
    decreases 100 - from,
{
    if from >= 100 || from < 0 {
        Seq::empty()
    } else {
        match changed_event(hist, prev, from) {
            Some(e) => seq![e] + changed_events(hist, prev, from + 1),
            None => changed_events(hist, prev, from + 1),
        }
    }
}

} // verus!
