use vstd::prelude::*;
use crate::events::{MidiEvent, MidiPort};
use crate::usb::midi::{SysexMessage, UsbMidiPacket};

verus! {

/// Fixed-size ring buffer holding at most `N - 1` items.
pub struct Ring<T, const N: usize> {
    buffer: Vec<T>,
    head: usize,
    tail: usize,
}

/// Physical slot of the `i`-th queued item, counted from the oldest one.
pub open spec fn ring_slot(tail: int, i: int, n: int) -> int {
    if tail + i < n { tail + i } else { tail + i - n }
}

/// Number of queued items for the given write and read positions.
pub open spec fn ring_count(head: int, tail: int, n: int) -> int {
    if head >= tail { head - tail } else { n - tail + head }
}

impl<T: Copy, const N: usize> Ring<T, N> {
    /// The ring is well formed: one buffer slot per position, cursors in range.
    pub closed spec fn wf(&self) -> bool {
        &&& N > 0
        &&& self.buffer.len() == N
        &&& self.head < N
        &&& self.tail < N
    }

    /// The queued items, oldest first.
    pub closed spec fn items(&self) -> Seq<T> {
        Seq::new(
            ring_count(self.head as int, self.tail as int, N as int) as nat,
            |i: int| self.buffer@[ring_slot(self.tail as int, i, N as int)],
        )
    }

    /// Largest number of items the ring can hold.
    pub open spec fn capacity() -> nat {
        (N - 1) as nat
    }

    pub fn new(init: T) -> (r: Self)
        requires
            N > 0,
        ensures
            r.wf(),
            r.items() == Seq::<T>::empty(),
    {
        let mut buffer: Vec<T> = Vec::new();
        let mut i: usize = 0;
        while i < N
            invariant
                i <= N,
                buffer.len() == i,
            decreases N - i,
        {
            buffer.push(init);
            i = i + 1;
        }
        let r = Ring { buffer, head: 0, tail: 0 };
        assert(r.items() =~= Seq::<T>::empty());
        r
    }

    fn next_index(index: usize) -> (r: usize)
        requires
            index < N,
        ensures
            r < N,
            r == (if index + 1 == N { 0 } else { index + 1 }),
    {
        let next = index + 1;
        if next == N {
            0
        } else {
            next
        }
    }

    /// A ring never holds more than its capacity, `N - 1` items.
    pub proof fn lemma_capacity(&self)
        requires
            self.wf(),
        ensures
            self.items().len() <= Self::capacity(),
    {
        self.lemma_items_len();
    }

    proof fn lemma_items_len(&self)
        requires
            self.wf(),
        ensures
            self.items().len() < N,
            self.items().len() == ring_count(self.head as int, self.tail as int, N as int),
    {
    }

    pub fn push(&mut self, item: T) -> (r: bool)
        requires
            old(self).wf(),
        ensures
            final(self).wf(),
            r == (old(self).items().len() < Self::capacity()),
            r ==> final(self).items() == old(self).items().push(item),
            !r ==> final(self).items() == old(self).items(),
    {
        proof {
            self.lemma_items_len();
        }
        let next = Self::next_index(self.head);
        if next == self.tail {
            return false;
        }
        let ghost before = self.items();
        self.buffer.set(self.head, item);
        self.head = next;
        proof {
            assert(self.items().len() == before.len() + 1);
            assert forall|i: int| 0 <= i < before.len() implies self.items()[i] == before[i] by {
                assert(ring_slot(self.tail as int, i, N as int) != old(self).head as int);
            }
            assert(self.items()[before.len() as int] == item);
            assert(self.items() =~= before.push(item));
        }
        true
    }

    pub fn pop(&mut self) -> (r: Option<T>)
        requires
            old(self).wf(),
        ensures
            final(self).wf(),
            old(self).items().len() == 0 ==> r is None && final(self).items() == old(self).items(),
            old(self).items().len() > 0 ==> r == Some(old(self).items()[0])
                && final(self).items() == old(self).items().drop_first(),
    {
        proof {
            self.lemma_items_len();
        }
        if self.head == self.tail {
            return None;
        }
        let ghost before = self.items();
        let item = self.buffer[self.tail];
        self.tail = Self::next_index(self.tail);
        proof {
            assert(self.items() =~= before.drop_first());
        }
        Some(item)
    }

    pub fn is_empty(&self) -> (r: bool)
        requires
            self.wf(),
        ensures
            r == (self.items().len() == 0),
    {
        self.head == self.tail
    }

    pub fn len(&self) -> (r: usize)
        requires
            self.wf(),
        ensures
            r == self.items().len(),
    {
        if self.head >= self.tail {
            self.head - self.tail
        } else {
            N - self.tail + self.head
        }
    }

    pub fn free_space(&self) -> (r: usize)
        requires
            self.wf(),
        ensures
            r == Self::capacity() - self.items().len(),
    {
        proof {
            self.lemma_items_len();
        }
        (N - 1) - self.len()
    }
}

pub const MIDI_RX_QUEUE_SIZE: usize = 1025;
pub const SYSEX_RX_QUEUE_SIZE: usize = 5;
pub const MIDI_TX_QUEUE_SIZE: usize = 64;

/// Queues between the USB interrupt and the application: received MIDI
/// events and system exclusive messages, and packets waiting to be sent.
pub struct UsbQueues {
    pub midi_rx: Ring<MidiEvent, 1025>,
    pub sysex_rx: Ring<SysexMessage, 5>,
    pub midi_tx: Ring<UsbMidiPacket, 64>,
}

impl UsbQueues {
    pub open spec fn wf(&self) -> bool {
        &&& self.midi_rx.wf()
        &&& self.sysex_rx.wf()
        &&& self.midi_tx.wf()
    }

    pub fn new() -> (r: Self)
        ensures
            r.wf(),
            r.midi_rx.items().len() == 0,
            r.sysex_rx.items().len() == 0,
            r.midi_tx.items().len() == 0,
    {
        UsbQueues {
            midi_rx: Ring::new(MidiEvent { port: MidiPort::Daw, status: 0, data1: 0, data2: 0 }),
            sysex_rx: Ring::new(SysexMessage::empty()),
            midi_tx: Ring::new(UsbMidiPacket::empty()),
        }
    }
}

} // verus!
