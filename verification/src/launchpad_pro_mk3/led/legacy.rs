use vstd::prelude::*;
use super::LED_COUNT;
use crate::launchpad_pro_mk3::map::LED_REMAP;

verus! {

pub const LED_COLOR_OFF: u32 = 0;
pub const LED_BATCH_SIZE: usize = 15;
pub const LED_HW_UNKNOWN: u32 = 0xffff_ffff;
pub const LED_COMMIT_INDEX: u8 = 0xff;

pub open spec fn min63(v: u8) -> u8 {
    if v < 0x3f { v } else { 0x3f }
}

/// A color as the co-processor's single-LED command carries it: 6-bit
/// channels in bits 18, 10 and 2.
pub open spec fn spec_legacy_rgb(r: u8, g: u8, b: u8) -> u32 {
    ((min63(r) as u32) << 18u32) | ((min63(g) as u32) << 10u32) | ((min63(b) as u32) << 2u32)
}

/// Slot `a` goes before slot `b` in a batch: changed more recently, or
/// changed together and lower.
pub open spec fn ranks_before(seq: Seq<u64>, a: int, b: int) -> bool {
    seq[a] > seq[b] || (seq[a] == seq[b] && a < b)
}

/// `picked` lists dirty slots, distinct, most recently changed first,
/// followed by no dirty slot that should have come before its last one.
pub open spec fn is_batch_prefix(seq: Seq<u64>, dirty: Seq<bool>, picked: Seq<usize>) -> bool {
    &&& forall|k: int| 0 <= k < picked.len() ==> (#[trigger] picked[k] as int) < LED_COUNT && dirty[picked[k] as int]
    &&& forall|j: int, k: int| 0 <= j < k < picked.len() ==> ranks_before(seq, #[trigger] picked[j] as int, #[trigger] picked[k] as int)
    &&& forall|i: int| 0 <= i < LED_COUNT && dirty[i] && !picked.contains(i as usize) ==> forall|k: int|
        0 <= k < picked.len() ==> ranks_before(seq, #[trigger] picked[k] as int, i)
}

/// The fixed-capacity vector of `heapless`.
#[verifier::external_type_specification]
#[verifier::external_body]
#[verifier::reject_recursive_types(T)]
pub struct ExHeaplessVec<T, const N: usize>(heapless::Vec<T, N>);

/// The slots a list of dirty slots holds, first pushed first.
pub uninterp spec fn dirty_list_items(v: heapless::Vec<usize, LED_COUNT>) -> Seq<usize>;

/// `heapless::Vec::new`: an empty list.
#[verifier::external_body]
fn dirty_list_new() -> (r: heapless::Vec<usize, LED_COUNT>)
    ensures
        dirty_list_items(r) == Seq::<usize>::empty(),
{
    heapless::Vec::new()
}

/// `heapless::Vec::push`: below the capacity (`LED_COUNT`) the slot is
/// appended and `Ok` returned; a full list is left as it was and the slot
/// handed back in `Err`.
#[verifier::external_body]
fn dirty_list_push(v: &mut heapless::Vec<usize, LED_COUNT>, slot: usize) -> (r: Result<(), usize>)
    ensures
        (r is Ok) == (dirty_list_items(*old(v)).len() < LED_COUNT),
        r is Ok ==> dirty_list_items(*final(v)) == dirty_list_items(*old(v)).push(slot),
        r matches Err(back) ==> back == slot && dirty_list_items(*final(v)) == dirty_list_items(*old(v)),
{
    v.push(slot)
}

/// The length of `heapless::Vec::as_slice`: how many slots the list holds.
#[verifier::external_body]
fn dirty_list_len(v: &heapless::Vec<usize, LED_COUNT>) -> (r: usize)
    ensures
        r == dirty_list_items(*v).len(),
{
    v.as_slice().len()
}

/// An element of `heapless::Vec::as_slice`: the slot at a position.
#[verifier::external_body]
fn dirty_list_get(v: &heapless::Vec<usize, LED_COUNT>, k: usize) -> (r: usize)
    requires
        k < dirty_list_items(*v).len(),
    ensures
        r == dirty_list_items(*v)[k as int],
{
    v.as_slice()[k]
}

/// The legacy LED state as values.
pub struct LegacyView {
    pub link_seen: bool,
    pub resync_pending: bool,
    pub target: Seq<u32>,
    pub hw: Seq<u32>,
    pub seq: Seq<u64>,
    pub global_seq: u64,
    pub dirty: Seq<bool>,
}

/// The state after the wanted color of a surface index's LED is set to
/// `rgb`: a change is stamped with the next sequence number and marks the
/// slot dirty when the co-processor shows something else or a resync is
/// pending; an index without an LED, or an unchanged color, changes nothing.
pub open spec fn legacy_set(v: LegacyView, index: u8, rgb: u32) -> LegacyView {
    let slot = LED_REMAP[index as int] as int;
    if (index as int) < 110 && LED_REMAP[index as int] != 0xff && slot < LED_COUNT && v.target[slot] != rgb {
        LegacyView {
            target: v.target.update(slot, rgb),
            seq: v.seq.update(slot, v.global_seq),
            global_seq: (if v.global_seq == u64::MAX { 0 } else { v.global_seq + 1 }) as u64,
            dirty: if rgb != v.hw[slot] || v.resync_pending { v.dirty.update(slot, true) } else { v.dirty },
            ..v
        }
    } else {
        v
    }
}

/// The state at power-up: every slot off and dirty, nothing known of what
/// the co-processor shows, and a resync pending.
pub open spec fn fresh_legacy_view() -> LegacyView {
    LegacyView {
        link_seen: false,
        resync_pending: true,
        target: Seq::new(108, |i: int| LED_COLOR_OFF),
        hw: Seq::new(108, |i: int| LED_HW_UNKNOWN),
        seq: Seq::new(108, |i: int| 0u64),
        global_seq: 0,
        dirty: Seq::new(108, |i: int| true),
    }
}

/// The state after the link is seen up or down: losing it makes a resync
/// pending; seeing it again with a resync pending forgets what the
/// co-processor shows and marks every slot dirty.
pub open spec fn link_synced(v: LegacyView, ready: bool) -> LegacyView {
    if !ready {
        LegacyView { link_seen: false, resync_pending: v.resync_pending || v.link_seen, ..v }
    } else if !v.link_seen && v.resync_pending {
        LegacyView {
            link_seen: true,
            resync_pending: false,
            hw: Seq::new(108, |i: int| LED_HW_UNKNOWN),
            dirty: Seq::new(108, |i: int| true),
            ..v
        }
    } else {
        LegacyView { link_seen: true, ..v }
    }
}

/// The state once a batch for the `picked` slots is planned: picked slots
/// the co-processor already shows are no longer dirty.
pub open spec fn batch_planned(v: LegacyView, picked: Seq<usize>) -> LegacyView {
    LegacyView {
        dirty: Seq::new(108, |i: int| if picked.contains(i as usize) && v.hw[i] == v.target[i] { false } else { v.dirty[i] }),
        ..v
    }
}

/// `picked` is the batch the LED task takes from `v`: dirty slots, most
/// recently changed first (ties by slot), 15 of them or every dirty slot.
pub open spec fn is_batch(v: LegacyView, picked: Seq<usize>) -> bool {
    &&& is_batch_prefix(v.seq, v.dirty, picked)
    &&& picked.len() <= LED_BATCH_SIZE
    &&& picked.len() < LED_BATCH_SIZE ==> forall|i: int| 0 <= i < LED_COUNT && v.dirty[i] ==> picked.contains(i as usize)
}

/// LEDs driven one command at a time: the color wanted for each slot, what
/// the co-processor is known to show, when each slot last changed, and which
/// slots still need sending.
pub struct Leds {
    pub link_seen: bool,
    pub resync_pending: bool,
    pub target: [u32; 108],
    pub hw: [u32; 108],
    pub seq: [u64; 108],
    pub global_seq: u64,
    pub dirty: [bool; 108],
}

impl View for Leds {
    type V = LegacyView;

    open spec fn view(&self) -> LegacyView {
        LegacyView {
            link_seen: self.link_seen,
            resync_pending: self.resync_pending,
            target: self.target@,
            hw: self.hw@,
            seq: self.seq@,
            global_seq: self.global_seq,
            dirty: self.dirty@,
        }
    }
}

impl Leds {
    pub fn new() -> (r: Self)
        ensures
            !r.link_seen,
            r.resync_pending,
            r.target@ == Seq::new(108, |i: int| LED_COLOR_OFF),
            r.hw@ == Seq::new(108, |i: int| LED_HW_UNKNOWN),
            r.seq@ == Seq::new(108, |i: int| 0u64),
            r.global_seq == 0,
            r.dirty@ == Seq::new(108, |i: int| true),
            r@ == fresh_legacy_view(),
    {
        let r = Leds {
            link_seen: false,
            resync_pending: true,
            target: [LED_COLOR_OFF; 108],
            hw: [LED_HW_UNKNOWN; 108],
            seq: [0; 108],
            global_seq: 0,
            dirty: [true; 108],
        };
        assert(r.target@ =~= Seq::new(108, |i: int| LED_COLOR_OFF));
        assert(r.hw@ =~= Seq::new(108, |i: int| LED_HW_UNKNOWN));
        assert(r.seq@ =~= Seq::new(108, |i: int| 0u64));
        assert(r.dirty@ =~= Seq::new(108, |i: int| true));
        r
    }

    /// Sets the wanted color of a surface index's LED. A change is stamped
    /// with the next sequence number and marks the slot dirty when the
    /// co-processor shows something else or a resync is pending.
    pub fn set_rgb_led(&mut self, index: u8, r: u8, g: u8, b: u8)
        ensures
            final(self)@ == legacy_set(old(self)@, index, spec_legacy_rgb(r, g, b)),
            final(self).link_seen == old(self).link_seen,
            final(self).resync_pending == old(self).resync_pending,
            final(self).hw@ == old(self).hw@,
            ({
                let rgb = spec_legacy_rgb(r, g, b);
                let slot = LED_REMAP[index as int] as int;
                if (index as int) < 110 && LED_REMAP[index as int] != 0xff && slot < LED_COUNT
                    && old(self).target@[slot] != rgb {
                    &&& final(self).target@ == old(self).target@.update(slot, rgb)
                    &&& final(self).seq@ == old(self).seq@.update(slot, old(self).global_seq)
                    &&& final(self).global_seq == (if old(self).global_seq == u64::MAX { 0 } else { old(self).global_seq + 1 })
                    &&& final(self).dirty@ == (if rgb != old(self).hw@[slot] || old(self).resync_pending {
                        old(self).dirty@.update(slot, true)
                    } else {
                        old(self).dirty@
                    })
                } else {
                    &&& final(self).target@ == old(self).target@
                    &&& final(self).seq@ == old(self).seq@
                    &&& final(self).global_seq == old(self).global_seq
                    &&& final(self).dirty@ == old(self).dirty@
                }
            }),
    {
        if index as usize >= 110 {
            return;
        }
        let mapped = LED_REMAP[index as usize] as usize;
        if mapped == 0xff || mapped >= LED_COUNT {
            return;
        }
        let rc: u8 = if r < 0x3f { r } else { 0x3f };
        let gc: u8 = if g < 0x3f { g } else { 0x3f };
        let bc: u8 = if b < 0x3f { b } else { 0x3f };
        let rgb: u32 = ((rc as u32) << 18) | ((gc as u32) << 10) | ((bc as u32) << 2);
        if self.target[mapped] != rgb {
            self.target[mapped] = rgb;
            self.seq[mapped] = self.global_seq;
            self.global_seq = self.global_seq.wrapping_add(1);
            if self.target[mapped] != self.hw[mapped] || self.resync_pending {
                self.dirty[mapped] = true;
            }
        }
    }

    /// Sets the wanted color of a surface index's LED from a packed 0xRRGGBB
    /// color.
    pub fn set_led(&mut self, index: u8, color: u32)
        ensures
            ({
                let (r, g, b) = crate::launchpad_mk2::leds::rgb_to_6bit(color);
                final(self)@ == legacy_set(old(self)@, index, spec_legacy_rgb(r, g, b))
            }),
            ({
                let (r, g, b) = crate::launchpad_mk2::leds::rgb_to_6bit(color);
                let rgb = spec_legacy_rgb(r, g, b);
                let slot = LED_REMAP[index as int] as int;
                if (index as int) < 110 && LED_REMAP[index as int] != 0xff && slot < LED_COUNT
                    && old(self).target@[slot] != rgb {
                    &&& final(self).target@ == old(self).target@.update(slot, rgb)
                    &&& final(self).seq@ == old(self).seq@.update(slot, old(self).global_seq)
                    &&& final(self).dirty@ == (if rgb != old(self).hw@[slot] || old(self).resync_pending {
                        old(self).dirty@.update(slot, true)
                    } else {
                        old(self).dirty@
                    })
                } else {
                    &&& final(self).target@ == old(self).target@
                    &&& final(self).dirty@ == old(self).dirty@
                }
            }),
            final(self).hw@ == old(self).hw@,
    {
        self.set_rgb_led(
            index,
            ((color >> 18) & 0x3f) as u8,
            ((color >> 10) & 0x3f) as u8,
            ((color >> 2) & 0x3f) as u8,
        );
    }

    /// The co-processor stopped acknowledging: resend everything once the
    /// link is back.
    pub fn mark_unsynced(&mut self)
        ensures
            final(self).resync_pending,
            !final(self).link_seen,
            final(self).target@ == old(self).target@,
            final(self).hw@ == old(self).hw@,
            final(self).seq@ == old(self).seq@,
            final(self).dirty@ == old(self).dirty@,
            final(self).global_seq == old(self).global_seq,
    {
        self.resync_pending = true;
        self.link_seen = false;
    }

    /// Tracks the link: losing it makes a resync pending; seeing it again
    /// with a resync pending forgets what the co-processor shows and marks
    /// every slot dirty. Returns whether the link is up.
    pub fn sync_link(&mut self, ready: bool) -> (r: bool)
        ensures
            r == ready,
            final(self)@ == link_synced(old(self)@, ready),
            final(self).target@ == old(self).target@,
            final(self).seq@ == old(self).seq@,
            final(self).global_seq == old(self).global_seq,
            !ready ==> {
                &&& !final(self).link_seen
                &&& final(self).resync_pending == (old(self).resync_pending || old(self).link_seen)
                &&& final(self).hw@ == old(self).hw@
                &&& final(self).dirty@ == old(self).dirty@
            },
            ready ==> final(self).link_seen,
            ready && !old(self).link_seen && old(self).resync_pending ==> {
                &&& !final(self).resync_pending
                &&& final(self).hw@ == Seq::new(108, |i: int| LED_HW_UNKNOWN)
                &&& final(self).dirty@ == Seq::new(108, |i: int| true)
            },
            ready && (old(self).link_seen || !old(self).resync_pending) ==> {
                &&& final(self).resync_pending == old(self).resync_pending
                &&& final(self).hw@ == old(self).hw@
                &&& final(self).dirty@ == old(self).dirty@
            },
    {
        if !ready {
            if self.link_seen {
                self.resync_pending = true;
            }
            self.link_seen = false;
            return false;
        }
        if !self.link_seen {
            self.link_seen = true;
            if self.resync_pending {
                self.hw = [LED_HW_UNKNOWN; 108];
                self.dirty = [true; 108];
                self.resync_pending = false;
                assert(self.hw@ =~= Seq::new(108, |i: int| LED_HW_UNKNOWN));
                assert(self.dirty@ =~= Seq::new(108, |i: int| true));
            }
        }
        true
    }

    /// Up to 15 dirty slots, most recently changed first (ties by slot):
    /// the dirty slots are listed, then picked from the list in that order.
    pub fn select_dirty(&self) -> (r: Vec<usize>)
        ensures
            is_batch_prefix(self.seq@, self.dirty@, r@),
            r@.len() <= LED_BATCH_SIZE,
            r@.len() < LED_BATCH_SIZE ==> forall|i: int| 0 <= i < LED_COUNT && self.dirty@[i] ==> r@.contains(i as usize),
    {
        let mut dirty_leds = dirty_list_new();
        let mut i: usize = 0;
        while i < LED_COUNT
            invariant
                i <= LED_COUNT,
                dirty_list_items(dirty_leds).len() <= i,
                forall|m: int| 0 <= m < dirty_list_items(dirty_leds).len() ==> (#[trigger] dirty_list_items(dirty_leds)[m] as int) < i
                    && self.dirty@[dirty_list_items(dirty_leds)[m] as int],
                forall|j: int| 0 <= j < i && self.dirty@[j] ==> dirty_list_items(dirty_leds).contains(j as usize),
            decreases LED_COUNT - i,
        {
            if self.dirty[i] {
                let ghost before = dirty_list_items(dirty_leds);
                let _ = dirty_list_push(&mut dirty_leds, i);
                proof {
                    let after = dirty_list_items(dirty_leds);
                    assert(after == before.push(i));
                    assert forall|j: int| 0 <= j < i + 1 && self.dirty@[j] implies after.contains(j as usize) by {
                        if j == i {
                            assert(after[before.len() as int] == i);
                        } else {
                            let m = choose|m: int| 0 <= m < before.len() && before[m] == j as usize;
                            assert(after[m] == j as usize);
                        }
                    }
                }
            }
            i = i + 1;
        }
        let ghost items = dirty_list_items(dirty_leds);
        let n = dirty_list_len(&dirty_leds);
        let mut picked: Vec<usize> = Vec::new();
        let mut done = false;
        while picked.len() < LED_BATCH_SIZE && !done
            invariant
                items == dirty_list_items(dirty_leds),
                n == items.len(),
                forall|m: int| 0 <= m < items.len() ==> (#[trigger] items[m] as int) < LED_COUNT && self.dirty@[items[m] as int],
                forall|j: int| 0 <= j < LED_COUNT && self.dirty@[j] ==> items.contains(j as usize),
                picked@.len() <= LED_BATCH_SIZE,
                is_batch_prefix(self.seq@, self.dirty@, picked@),
                done ==> forall|i: int| 0 <= i < LED_COUNT && self.dirty@[i] ==> picked@.contains(i as usize),
            decreases LED_BATCH_SIZE - picked@.len() + (if done { 0int } else { 1int }),
        {
            let mut best: Option<usize> = None;
            let mut k: usize = 0;
            while k < n
                invariant
                    k <= n,
                    items == dirty_list_items(dirty_leds),
                    n == items.len(),
                    forall|m: int| 0 <= m < items.len() ==> (#[trigger] items[m] as int) < LED_COUNT && self.dirty@[items[m] as int],
                    picked@.len() <= LED_BATCH_SIZE,
                    is_batch_prefix(self.seq@, self.dirty@, picked@),
                    best matches Some(b) ==> {
                        &&& (b as int) < LED_COUNT
                        &&& self.dirty@[b as int]
                        &&& !picked@.contains(b)
                        &&& picked@.len() > 0 ==> ranks_before(self.seq@, picked@.last() as int, b as int)
                    },
                    forall|m: int| 0 <= m < k && (picked@.len() == 0 || ranks_before(self.seq@, picked@.last() as int, #[trigger] items[m] as int)) ==> {
                        &&& best is Some
                        &&& (items[m] == best->Some_0 || ranks_before(self.seq@, best->Some_0 as int, items[m] as int))
                    },
                decreases n - k,
            {
                let i = dirty_list_get(&dirty_leds, k);
                assert(items[k as int] == i);
                let after_last = match picked.last() {
                    None => true,
                    Some(last) => {
                        let l = *last;
                        self.seq[i] < self.seq[l] || (self.seq[i] == self.seq[l] && l < i)
                    },
                };
                if after_last {
                    proof {
                        if picked@.len() > 0 {
                            assert(!picked@.contains(i)) by {
                                if picked@.contains(i) {
                                    let q = choose|q: int| 0 <= q < picked@.len() && picked@[q] == i;
                                    if q < picked@.len() - 1 {
                                        assert(ranks_before(self.seq@, picked@[q] as int, picked@[picked@.len() - 1] as int));
                                    }
                                }
                            }
                        }
                    }
                    let better = match best {
                        None => true,
                        Some(b) => self.seq[i] > self.seq[b] || (self.seq[i] == self.seq[b] && i < b),
                    };
                    if better {
                        best = Some(i);
                    }
                }
                k = k + 1;
            }
            proof {
                assert forall|j: int| 0 <= j < LED_COUNT && self.dirty@[j] && (picked@.len() == 0 || ranks_before(self.seq@, picked@.last() as int, j)) implies {
                    &&& best is Some
                    &&& (j == best->Some_0 || ranks_before(self.seq@, best->Some_0 as int, j))
                } by {
                    assert(items.contains(j as usize));
                    let m = choose|m: int| 0 <= m < items.len() && items[m] == j as usize;
                    assert(items[m] as int == j);
                }
            }
            match best {
                None => {
                    proof {
                        assert forall|j: int| 0 <= j < LED_COUNT && self.dirty@[j] implies picked@.contains(j as usize) by {
                            if !picked@.contains(j as usize) {
                                if picked@.len() > 0 {
                                    assert(ranks_before(self.seq@, picked@[picked@.len() - 1] as int, j));
                                }
                            }
                        }
                    }
                    done = true;
                },
                Some(b) => {
                    let ghost old_picked = picked@;
                    picked.push(b);
                    proof {
                        assert(picked@ == old_picked.push(b));
                        assert forall|j: int, k: int| 0 <= j < k < picked@.len() implies ranks_before(self.seq@, #[trigger] picked@[j] as int, #[trigger] picked@[k] as int) by {
                            if k == picked@.len() - 1 && j < k {
                                if j < old_picked.len() - 1 {
                                    assert(ranks_before(self.seq@, old_picked[j] as int, old_picked[old_picked.len() - 1] as int));
                                }
                            }
                        }
                        assert forall|x: int| 0 <= x < LED_COUNT && self.dirty@[x] && !picked@.contains(x as usize) implies forall|k: int|
                            0 <= k < picked@.len() ==> ranks_before(self.seq@, #[trigger] picked@[k] as int, x) by {
                            assert(!old_picked.contains(x as usize)) by {
                                if old_picked.contains(x as usize) {
                                    let k = choose|k: int| 0 <= k < old_picked.len() && old_picked[k] == x as usize;
                                    assert(picked@[k] == x as usize);
                                }
                            }
                            assert(x != b as int) by {
                                assert(picked@[picked@.len() - 1] == b);
                            }
                            assert(ranks_before(self.seq@, b as int, x));
                        }
                    }
                },
            }
        }
        picked
    }

    /// Of the picked slots, those the co-processor does not show yet, with
    /// their wanted colors; picked slots that already match are no longer
    /// dirty.
    pub fn plan_batch(&mut self, picked: &[usize]) -> (r: Vec<(u8, u32)>)
        requires
            forall|k: int| 0 <= k < picked@.len() ==> (#[trigger] picked@[k] as int) < LED_COUNT,
        ensures
            r@ == batch_commands(picked@, old(self).hw@, old(self).target@, picked@.len() as int),
            final(self).dirty@ == Seq::new(
                108,
                |i: int|
                    if picked@.contains(i as usize) && old(self).hw@[i] == old(self).target@[i] {
                        false
                    } else {
                        old(self).dirty@[i]
                    },
            ),
            final(self).hw@ == old(self).hw@,
            final(self).target@ == old(self).target@,
            final(self).seq@ == old(self).seq@,
            final(self).global_seq == old(self).global_seq,
            final(self).link_seen == old(self).link_seen,
            final(self).resync_pending == old(self).resync_pending,
    {
        let mut batch: Vec<(u8, u32)> = Vec::new();
        let mut k: usize = 0;
        while k < picked.len()
            invariant
                k <= picked@.len(),
                forall|j: int| 0 <= j < picked@.len() ==> (#[trigger] picked@[j] as int) < LED_COUNT,
                batch@ == batch_commands(picked@, old(self).hw@, old(self).target@, k as int),
                self.dirty@ == Seq::new(
                    108,
                    |i: int|
                        if picked@.take(k as int).contains(i as usize) && old(self).hw@[i] == old(self).target@[i] {
                            false
                        } else {
                            old(self).dirty@[i]
                        },
                ),
                self.hw@ == old(self).hw@,
                self.target@ == old(self).target@,
                self.seq@ == old(self).seq@,
                self.global_seq == old(self).global_seq,
                self.link_seen == old(self).link_seen,
                self.resync_pending == old(self).resync_pending,
            decreases picked@.len() - k,
        {
            let idx = picked[k];
            let ghost prefix = picked@.take(k as int);
            let ghost next = picked@.take(k + 1);
            assert(next == prefix.push(idx));
            if self.hw[idx] != self.target[idx] {
                batch.push((idx as u8, self.target[idx]));
            } else {
                self.dirty[idx] = false;
            }
            proof {
                assert forall|i: int| 0 <= i < 108 implies (#[trigger] next.contains(i as usize) <==> (prefix.contains(i as usize) || i == idx as int)) by {
                    if next.contains(i as usize) {
                        let j = choose|j: int| 0 <= j < next.len() && next[j] == i as usize;
                        if j < prefix.len() {
                            assert(prefix[j] == i as usize);
                        }
                    }
                    if prefix.contains(i as usize) {
                        let j = choose|j: int| 0 <= j < prefix.len() && prefix[j] == i as usize;
                        assert(next[j] == i as usize);
                    }
                    if i == idx as int {
                        assert(next[k as int] == idx);
                    }
                }
                assert(self.dirty@ =~= Seq::new(
                    108,
                    |i: int|
                        if next.contains(i as usize) && old(self).hw@[i] == old(self).target@[i] {
                            false
                        } else {
                            old(self).dirty@[i]
                        },
                ));
            }
            k = k + 1;
        }
        assert(picked@.take(picked@.len() as int) =~= picked@);
        batch
    }

    /// After a batch and its commit were acknowledged: the co-processor now
    /// shows those colors, and slots whose wanted color is what was sent are
    /// clean.
    pub fn commit_batch(&mut self, batch: &[(u8, u32)])
        ensures
            final(self).hw@ == committed_hw(old(self).hw@, batch@, batch@.len() as int),
            final(self).dirty@ == committed_dirty(old(self).dirty@, old(self).target@, batch@, batch@.len() as int),
            final(self).target@ == old(self).target@,
            final(self).seq@ == old(self).seq@,
            final(self).global_seq == old(self).global_seq,
            final(self).link_seen == old(self).link_seen,
            final(self).resync_pending == old(self).resync_pending,
    {
        let mut k: usize = 0;
        while k < batch.len()
            invariant
                k <= batch@.len(),
                self.hw@ == committed_hw(old(self).hw@, batch@, k as int),
                self.dirty@ == committed_dirty(old(self).dirty@, old(self).target@, batch@, k as int),
                self.target@ == old(self).target@,
                self.seq@ == old(self).seq@,
                self.global_seq == old(self).global_seq,
                self.link_seen == old(self).link_seen,
                self.resync_pending == old(self).resync_pending,
            decreases batch@.len() - k,
        {
            let (idx, rgb) = batch[k];
            let i = idx as usize;
            if i < LED_COUNT {
                self.hw[i] = rgb;
                if self.target[i] == rgb {
                    self.dirty[i] = false;
                }
            }
            k = k + 1;
        }
    }

    /// One pass of the LED task: tracks the link and, when it is up with at
    /// least two LED slots free, picks up to 15 dirty slots (most recently
    /// changed first) and returns the commands to send, each a slot and its
    /// color; empty when there is nothing to send.
    pub fn task(&mut self, link_ready: bool, led_tx_slots: u8) -> (r: Vec<(u8, u32)>)
        ensures
            !link_ready ==> r@.len() == 0 && !final(self).link_seen,
            link_ready && led_tx_slots < 2 ==> r@.len() == 0,
            link_ready ==> final(self).link_seen,
            final(self).target@ == old(self).target@,
            final(self).seq@ == old(self).seq@,
            r@.len() <= LED_BATCH_SIZE,
            forall|k: int| 0 <= k < r@.len() ==> {
                let (slot, rgb) = #[trigger] r@[k];
                &&& (slot as int) < LED_COUNT
                &&& rgb == old(self).target@[slot as int]
                &&& rgb != final(self).hw@[slot as int]
                &&& final(self).dirty@[slot as int]
            },
            !(link_ready && led_tx_slots >= 2) ==> final(self)@ == link_synced(old(self)@, link_ready),
            link_ready && led_tx_slots >= 2 ==> exists|picked: Seq<usize>|
                #[trigger] is_batch(link_synced(old(self)@, link_ready), picked) && {
                    let v = link_synced(old(self)@, link_ready);
                    &&& r@ == batch_commands(picked, v.hw, v.target, picked.len() as int)
                    &&& final(self)@ == batch_planned(v, picked)
                },
    {
        if !self.sync_link(link_ready) {
            return Vec::new();
        }
        if led_tx_slots < 2 {
            return Vec::new();
        }
        let picked = self.select_dirty();
        let ghost pre = *self;
        let r = self.plan_batch(picked.as_slice());
        proof {
            assert(is_batch(pre@, picked@));
            assert(self@ == batch_planned(pre@, picked@));
            lemma_batch_commands(picked@, pre.hw@, pre.target@, picked@.len() as int);
            assert forall|k: int| 0 <= k < r@.len() implies {
                let (slot, rgb) = #[trigger] r@[k];
                &&& (slot as int) < LED_COUNT
                &&& rgb == old(self).target@[slot as int]
                &&& rgb != self.hw@[slot as int]
                &&& self.dirty@[slot as int]
            } by {
                let j = choose|j: int| 0 <= j < picked@.len() && r@[k] == (picked@[j] as u8, pre.target@[picked@[j] as int])
                    && pre.hw@[picked@[j] as int] != pre.target@[picked@[j] as int];
                assert((picked@[j] as int) < LED_COUNT && pre.dirty@[picked@[j] as int]);
            }
        }
        r
    }
}

/// Commands for the first `n` picked slots: each slot the co-processor
/// does not show yet, with its wanted color, in pick order.
pub open spec fn batch_commands(picked: Seq<usize>, hw: Seq<u32>, target: Seq<u32>, n: int) -> Seq<(u8, u32)>
    decreases n,
{
    if n <= 0 {
        Seq::empty()
    } else {
        let prev = batch_commands(picked, hw, target, n - 1);
        let i = picked[n - 1] as int;
        if hw[i] != target[i] { prev.push((i as u8, target[i])) } else { prev }
    }
}

/// Every command of a batch comes from a picked slot that needs it, and
/// there are at most as many as slots picked.
pub proof fn lemma_batch_commands(picked: Seq<usize>, hw: Seq<u32>, target: Seq<u32>, n: int)
    requires
        0 <= n <= picked.len(),
    ensures
        batch_commands(picked, hw, target, n).len() <= n,
        forall|k: int| 0 <= k < batch_commands(picked, hw, target, n).len() ==> exists|j: int| 0 <= j < n
            && #[trigger] batch_commands(picked, hw, target, n)[k] == (picked[j] as u8, target[picked[j] as int])
            && hw[picked[j] as int] != target[picked[j] as int],
    decreases n,
{
    if n > 0 {
        lemma_batch_commands(picked, hw, target, n - 1);
        let prev = batch_commands(picked, hw, target, n - 1);
        let cur = batch_commands(picked, hw, target, n);
        assert forall|k: int| 0 <= k < cur.len() implies exists|j: int| 0 <= j < n
            && #[trigger] cur[k] == (picked[j] as u8, target[picked[j] as int])
            && hw[picked[j] as int] != target[picked[j] as int] by {
            if k < prev.len() {
                assert(cur[k] == prev[k]);
                let j = choose|j: int| 0 <= j < n - 1 && prev[k] == (picked[j] as u8, target[picked[j] as int])
                    && hw[picked[j] as int] != target[picked[j] as int];
            } else {
                assert(cur[k] == (picked[n - 1] as u8, target[picked[n - 1] as int]));
            }
        }
    }
}

/// What the co-processor shows after the first `n` commands of a batch.
pub open spec fn committed_hw(hw: Seq<u32>, batch: Seq<(u8, u32)>, n: int) -> Seq<u32>
    decreases n,
{
    if n <= 0 {
        hw
    } else {
        let prev = committed_hw(hw, batch, n - 1);
        let (slot, rgb) = batch[n - 1];
        if (slot as int) < LED_COUNT { prev.update(slot as int, rgb) } else { prev }
    }
}

/// Dirty flags after the first `n` commands of a batch were acknowledged.
pub open spec fn committed_dirty(dirty: Seq<bool>, target: Seq<u32>, batch: Seq<(u8, u32)>, n: int) -> Seq<bool>
    decreases n,
{
    if n <= 0 {
        dirty
    } else {
        let prev = committed_dirty(dirty, target, batch, n - 1);
        let (slot, rgb) = batch[n - 1];
        if (slot as int) < LED_COUNT && target[slot as int] == rgb { prev.update(slot as int, false) } else { prev }
    }
}

} // verus!
