use vstd::prelude::*;

verus! {

pub const PAD_COUNT: usize = 64;
pub const PAD_PRESS_THRESHOLD: u16 = 0x0081;
pub const PAD_RELEASE_THRESHOLD: u16 = 0x0008;
pub const PAD_RELEASE_CONFIRM_FRAMES: u8 = 3;

/// Rejects stale button frames from the co-processor and debounces pad releases.
pub struct M0InputFilter {
    last_frame_counter: Option<u16>,
    pad_release_count: Vec<u8>,
}

/// Forward distance from `previous` to `current` on a 16-bit wrapping counter.
pub open spec fn counter_delta(current: u16, previous: u16) -> int {
    if current >= previous {
        current - previous
    } else {
        current - previous + 0x10000
    }
}

/// A frame counter is fresh when it lies strictly ahead of the previous one,
/// less than half the counter range away.
pub open spec fn frame_is_fresh(previous: Option<u16>, current: u16) -> bool {
    match previous {
        None => true,
        Some(p) => 0 < counter_delta(current, p) < 0x8000,
    }
}

/// The new pressed state and release-count of one pad after one sample.
pub open spec fn pad_step(was_pressed: bool, count: u8, raw: u16) -> (bool, u8) {
    if !was_pressed {
        (raw >= PAD_PRESS_THRESHOLD, 0)
    } else if raw > PAD_RELEASE_THRESHOLD {
        (true, 0)
    } else {
        let c: int = if count == 255 { 255 } else { count + 1 };
        if c >= PAD_RELEASE_CONFIRM_FRAMES as int {
            (false, 0)
        } else {
            (true, c as u8)
        }
    }
}

impl M0InputFilter {
    pub closed spec fn wf(&self) -> bool {
        self.pad_release_count.len() == PAD_COUNT
    }

    /// The last accepted frame counter, if any frame was accepted since the last reset.
    pub closed spec fn last_counter(&self) -> Option<u16> {
        self.last_frame_counter
    }

    /// Number of consecutive low samples seen on each pad while it was held.
    pub closed spec fn release_counts(&self) -> Seq<u8> {
        self.pad_release_count@
    }

    /// A well-formed filter keeps one release count per pad.
    pub proof fn lemma_wf_counts(&self)
        requires
            self.wf(),
        ensures
            self.release_counts().len() == PAD_COUNT,
    {
    }

    pub fn new() -> (r: Self)
        ensures
            r.wf(),
            r.last_counter() is None,
            r.release_counts() == Seq::new(PAD_COUNT as nat, |i: int| 0u8),
    {
        let mut counts: Vec<u8> = Vec::new();
        let mut i: usize = 0;
        while i < PAD_COUNT
            invariant
                i <= PAD_COUNT,
                counts@ == Seq::new(i as nat, |k: int| 0u8),
            decreases PAD_COUNT - i,
        {
            counts.push(0);
            i = i + 1;
        }
        M0InputFilter { last_frame_counter: None, pad_release_count: counts }
    }

    pub fn reset_stream(&mut self)
        requires
            old(self).wf(),
        ensures
            final(self).wf(),
            final(self).last_counter() is None,
            final(self).release_counts() == Seq::new(PAD_COUNT as nat, |i: int| 0u8),
    {
        self.last_frame_counter = None;
        let mut i: usize = 0;
        while i < PAD_COUNT
            invariant
                i <= PAD_COUNT,
                self.pad_release_count.len() == PAD_COUNT,
                self.last_frame_counter is None,
                forall|k: int| 0 <= k < i ==> self.pad_release_count@[k] == 0u8,
            decreases PAD_COUNT - i,
        {
            self.pad_release_count.set(i, 0);
            i = i + 1;
        }
        assert(self.pad_release_count@ =~= Seq::new(PAD_COUNT as nat, |k: int| 0u8));
    }

    pub fn accept_frame(&mut self, frame_counter: u16) -> (r: bool)
        requires
            old(self).wf(),
        ensures
            final(self).wf(),
            r == frame_is_fresh(old(self).last_counter(), frame_counter),
            r ==> final(self).last_counter() == Some(frame_counter),
            !r ==> final(self).last_counter() == old(self).last_counter(),
            final(self).release_counts() == old(self).release_counts(),
    {
        let previous = match self.last_frame_counter {
            None => {
                self.last_frame_counter = Some(frame_counter);
                return true;
            },
            Some(p) => p,
        };
        let delta = frame_counter.wrapping_sub(previous);
        assert(delta as int == counter_delta(frame_counter, previous)) by (bit_vector)
            requires delta == frame_counter.wrapping_sub(previous);
        if delta == 0 || delta >= 0x8000 {
            return false;
        }
        self.last_frame_counter = Some(frame_counter);
        true
    }

    pub fn pad_state(&mut self, index: usize, was_pressed: bool, raw: u16) -> (r: bool)
        requires
            old(self).wf(),
            index < PAD_COUNT,
        ensures
            final(self).wf(),
            final(self).release_counts().len() == PAD_COUNT,
            final(self).last_counter() == old(self).last_counter(),
            (r, final(self).release_counts()[index as int]) == pad_step(
                was_pressed,
                old(self).release_counts()[index as int],
                raw,
            ),
            final(self).release_counts() == old(self).release_counts().update(
                index as int,
                final(self).release_counts()[index as int],
            ),
    {
        if !was_pressed {
            self.pad_release_count.set(index, 0);
            return raw >= PAD_PRESS_THRESHOLD;
        }
        if raw > PAD_RELEASE_THRESHOLD {
            self.pad_release_count.set(index, 0);
            return true;
        }
        let count = self.pad_release_count[index].saturating_add(1);
        if count >= PAD_RELEASE_CONFIRM_FRAMES {
            self.pad_release_count.set(index, 0);
            false
        } else {
            self.pad_release_count.set(index, count);
            true
        }
    }
}


/// A held pad is released only by a low sample (at most the release
/// threshold) that completes three in a row; a pad that is not held is
/// pressed exactly when a sample reaches the press threshold.
pub proof fn lemma_release_needs_three_low_samples(was_pressed: bool, count: u8, raw: u16)
    ensures
        was_pressed && !pad_step(was_pressed, count, raw).0 ==> raw <= PAD_RELEASE_THRESHOLD && count + 1 >= PAD_RELEASE_CONFIRM_FRAMES,
        was_pressed && raw > PAD_RELEASE_THRESHOLD ==> pad_step(was_pressed, count, raw) == (true, 0u8),
        !was_pressed ==> pad_step(was_pressed, count, raw) == (raw >= PAD_PRESS_THRESHOLD, 0u8),
{
}

/// An accepted frame counter moves strictly forward: the same counter is
/// never accepted twice in a row, nor one half the counter range behind.
pub proof fn lemma_fresh_frame_advances(previous: u16, current: u16)
    ensures
        frame_is_fresh(Some(previous), current) ==> current != previous,
        frame_is_fresh(Some(previous), current) ==> counter_delta(current, previous) < 0x8000,
        !frame_is_fresh(Some(previous), previous),
{
}

} // verus!
