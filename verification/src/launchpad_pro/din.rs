use vstd::prelude::*;
use heapless::spsc::Queue;
use crate::events::{MidiEvent, MidiPort};

verus! {

pub const MIDI_QUEUE_SIZE: usize = 257;
pub const MIDI_TX_MAX_LEN: usize = 256;
pub const MIDI_TX_QUEUE_SIZE: usize = 17;

/// A message waiting to be sent on the DIN MIDI output.
pub struct MidiTxMessage {
    pub len: usize,
    pub data: Vec<u8>,
}

/// Which DIN MIDI jacks have a cable plugged in.
#[derive(Copy, Clone, PartialEq, Eq, Structural)]
pub struct DinCableState {
    pub midi_in_connected: bool,
    pub midi_out_connected: bool,
}

/// Events received on the DIN input, and messages waiting for the DIN output.
pub struct DinQueues {
    pub midi_rx: Queue<MidiEvent, 257>,
    pub midi_tx: Queue<MidiTxMessage, 17>,
}

/// The events held by the DIN receive queue, oldest first.
pub uninterp spec fn din_rx_items(q: Queue<MidiEvent, 257>) -> Seq<MidiEvent>;

/// The messages held by the DIN transmit queue, oldest first.
pub uninterp spec fn din_tx_items(q: Queue<MidiTxMessage, 17>) -> Seq<MidiTxMessage>;

/// `heapless::spsc::Queue::new`: an empty queue.
#[verifier::external_body]
fn rx_queue_new() -> (q: Queue<MidiEvent, 257>)
    ensures
        din_rx_items(q) == Seq::<MidiEvent>::empty(),
{
    Queue::new()
}

/// `heapless::spsc::Queue::new`: an empty queue.
#[verifier::external_body]
fn tx_queue_new() -> (q: Queue<MidiTxMessage, 17>)
    ensures
        din_tx_items(q) == Seq::<MidiTxMessage>::empty(),
{
    Queue::new()
}

/// `heapless::spsc::Queue::enqueue`: appends the item unless the queue already
/// holds `N - 1` items, in which case the item is handed back.
#[verifier::external_body]
fn rx_queue_enqueue(q: &mut Queue<MidiEvent, 257>, item: MidiEvent) -> (r: Result<(), MidiEvent>)
    ensures
        (r is Ok) == (din_rx_items(*old(q)).len() < 256),
        r is Ok ==> din_rx_items(*final(q)) == din_rx_items(*old(q)).push(item),
        r matches Err(e) ==> e == item && din_rx_items(*final(q)) == din_rx_items(*old(q)),
{
    q.enqueue(item)
}

/// `heapless::spsc::Queue::dequeue`: removes and returns the oldest item.
#[verifier::external_body]
fn rx_queue_dequeue(q: &mut Queue<MidiEvent, 257>) -> (r: Option<MidiEvent>)
    ensures
        din_rx_items(*old(q)).len() == 0 ==> r is None && din_rx_items(*final(q)) == din_rx_items(*old(q)),
        din_rx_items(*old(q)).len() > 0 ==> r == Some(din_rx_items(*old(q))[0])
            && din_rx_items(*final(q)) == din_rx_items(*old(q)).drop_first(),
{
    q.dequeue()
}

/// `heapless::spsc::Queue::enqueue`: appends the item unless the queue already
/// holds `N - 1` items, in which case the item is handed back.
#[verifier::external_body]
fn tx_queue_enqueue(q: &mut Queue<MidiTxMessage, 17>, item: MidiTxMessage) -> (r: Result<(), MidiTxMessage>)
    ensures
        (r is Ok) == (din_tx_items(*old(q)).len() < 16),
        r is Ok ==> din_tx_items(*final(q)) == din_tx_items(*old(q)).push(item),
        r is Err ==> din_tx_items(*final(q)) == din_tx_items(*old(q)),
{
    q.enqueue(item)
}

/// `heapless::spsc::Queue::dequeue`: removes and returns the oldest item.
#[verifier::external_body]
fn tx_queue_dequeue(q: &mut Queue<MidiTxMessage, 17>) -> (r: Option<MidiTxMessage>)
    ensures
        din_tx_items(*old(q)).len() == 0 ==> r is None && din_tx_items(*final(q)) == din_tx_items(*old(q)),
        din_tx_items(*old(q)).len() > 0 ==> r == Some(din_tx_items(*old(q))[0])
            && din_tx_items(*final(q)) == din_tx_items(*old(q)).drop_first(),
{
    q.dequeue()
}

impl DinQueues {
    pub fn new() -> (r: Self)
        ensures
            din_rx_items(r.midi_rx) == Seq::<MidiEvent>::empty(),
            din_tx_items(r.midi_tx) == Seq::<MidiTxMessage>::empty(),
    {
        DinQueues { midi_rx: rx_queue_new(), midi_tx: tx_queue_new() }
    }
}

/// Cable state decoded from the detect byte: bit 0 is MIDI in, bit 1 is MIDI out.
pub fn cable_state(state: u8) -> (r: DinCableState)
    ensures
        r.midi_in_connected == (state & 0x01 != 0),
        r.midi_out_connected == (state & 0x02 != 0),
{
    DinCableState { midi_in_connected: (state & 0x01) != 0, midi_out_connected: (state & 0x02) != 0 }
}

/// Takes the oldest event received on the DIN input.
pub fn dequeue_midi_event(queues: &mut DinQueues) -> (r: Option<MidiEvent>)
    ensures
        din_rx_items(old(queues).midi_rx).len() == 0 ==> r is None
            && din_rx_items(final(queues).midi_rx) == din_rx_items(old(queues).midi_rx),
        din_rx_items(old(queues).midi_rx).len() > 0 ==> r == Some(din_rx_items(old(queues).midi_rx)[0])
            && din_rx_items(final(queues).midi_rx) == din_rx_items(old(queues).midi_rx).drop_first(),
        din_tx_items(final(queues).midi_tx) == din_tx_items(old(queues).midi_tx),
{
    rx_queue_dequeue(&mut queues.midi_rx)
}

/// Queues `data` for the DIN output. Fails on an empty or oversized message and
/// when the queue is full.
pub fn enqueue_tx_message(queues: &mut DinQueues, data: &[u8]) -> (r: Result<(), ()>)
    ensures
        (r is Ok) == (0 < data@.len() <= MIDI_TX_MAX_LEN && din_tx_items(old(queues).midi_tx).len() < 16),
        r is Ok ==> ({
            let items = din_tx_items(final(queues).midi_tx);
            let old_items = din_tx_items(old(queues).midi_tx);
            &&& items.len() == old_items.len() + 1
            &&& items.take(old_items.len() as int) == old_items
            &&& items.last().len == data@.len()
            &&& items.last().data@.len() == MIDI_TX_MAX_LEN
            &&& items.last().data@.take(data@.len() as int) == data@
        }),
        r is Err ==> din_tx_items(final(queues).midi_tx) == din_tx_items(old(queues).midi_tx),
        din_rx_items(final(queues).midi_rx) == din_rx_items(old(queues).midi_rx),
{
    if data.len() == 0 || data.len() > MIDI_TX_MAX_LEN {
        return Err(());
    }
    let mut buf: Vec<u8> = Vec::new();
    let mut i: usize = 0;
    while i < MIDI_TX_MAX_LEN
        invariant
            i <= MIDI_TX_MAX_LEN,
            data@.len() <= MIDI_TX_MAX_LEN,
            buf@.len() == i,
            forall|k: int| 0 <= k < i && k < data@.len() ==> buf@[k] == data@[k],
        decreases MIDI_TX_MAX_LEN - i,
    {
        if i < data.len() {
            buf.push(data[i]);
        } else {
            buf.push(0);
        }
        i = i + 1;
    }
    assert(buf@.take(data@.len() as int) =~= data@);
    let message = MidiTxMessage { len: data.len(), data: buf };
    let ghost old_items = din_tx_items(queues.midi_tx);
    match tx_queue_enqueue(&mut queues.midi_tx, message) {
        Ok(()) => {
            assert(din_tx_items(queues.midi_tx).take(old_items.len() as int) =~= old_items);
            Ok(())
        },
        Err(_) => Err(()),
    }
}

/// Number of bytes (status included) of the message a status byte starts, for
/// the short messages the parser handles.
pub open spec fn spec_short_message_len(status: u8) -> Option<usize> {
    if 0x80 <= status <= 0xbf {
        Some(3)
    } else if 0xc0 <= status <= 0xdf {
        Some(2)
    } else if 0xe0 <= status <= 0xef {
        Some(3)
    } else if status == 0xf1 || status == 0xf3 {
        Some(2)
    } else if status == 0xf2 {
        Some(3)
    } else if status == 0xf6 || status >= 0xf8 {
        Some(1)
    } else {
        None
    }
}

pub fn short_message_len(status: u8) -> (r: Option<usize>)
    ensures
        r == spec_short_message_len(status),
{
    if 0x80 <= status && status <= 0xbf {
        Some(3)
    } else if 0xc0 <= status && status <= 0xdf {
        Some(2)
    } else if 0xe0 <= status && status <= 0xef {
        Some(3)
    } else if status == 0xf1 || status == 0xf3 {
        Some(2)
    } else if status == 0xf2 {
        Some(3)
    } else if status == 0xf6 || status >= 0xf8 {
        Some(1)
    } else {
        None
    }
}

/// Running-status parser for the DIN MIDI byte stream.
pub struct MidiParser {
    status: u8,
    data: Vec<u8>,
    len: usize,
}

pub open spec fn din_event(status: u8, data1: u8, data2: u8) -> MidiEvent {
    MidiEvent { port: MidiPort::Din, status, data1, data2 }
}

/// One byte through the running-status parser, from its running status and
/// pending data bytes: the new running status, the new pending bytes, and
/// the event completed, if any. A status byte restarts the message (and is
/// an event by itself when the message has no data); a data byte completes
/// a two-byte message, or the second data byte a three-byte one; data bytes
/// with no usable running status are dropped.
pub open spec fn parse_step(status: u8, pending: Seq<u8>, byte: u8) -> (u8, Seq<u8>, Option<MidiEvent>) {
    if byte >= 0x80 {
        (byte, Seq::empty(), if spec_short_message_len(byte) == Some(1usize) { Some(din_event(byte, 0, 0)) } else { None })
    } else if spec_short_message_len(status) == Some(2usize) {
        (status, Seq::empty(), Some(din_event(status, byte, 0)))
    } else if spec_short_message_len(status) == Some(3usize) {
        if pending.len() == 0 {
            (status, seq![byte], None)
        } else {
            (status, Seq::empty(), Some(din_event(status, pending[0], byte)))
        }
    } else {
        (status, pending, None)
    }
}

impl MidiParser {
    pub closed spec fn wf(&self) -> bool {
        &&& self.data.len() == 2
        &&& self.len <= 1
        &&& self.len == 1 ==> spec_short_message_len(self.status) == Some(3usize)
    }

    /// The running status byte.
    pub closed spec fn running_status(&self) -> u8 {
        self.status
    }

    /// Data bytes of the message in progress.
    pub closed spec fn pending(&self) -> Seq<u8> {
        self.data@.take(self.len as int)
    }

    pub fn new() -> (r: Self)
        ensures
            r.wf(),
            r.running_status() == 0,
            r.pending() == Seq::<u8>::empty(),
    {
        let r = MidiParser { status: 0, data: vec![0, 0], len: 0 };
        assert(r.pending() =~= Seq::<u8>::empty());
        r
    }

    pub fn push(&mut self, byte: u8) -> (r: Option<MidiEvent>)
        requires
            old(self).wf(),
        ensures
            final(self).wf(),
            byte >= 0x80 ==> {
                &&& final(self).running_status() == byte
                &&& final(self).pending() == Seq::<u8>::empty()
                &&& r == (if spec_short_message_len(byte) == Some(1usize) {
                    Some(din_event(byte, 0, 0))
                } else {
                    None
                })
            },
            byte < 0x80 ==> final(self).running_status() == old(self).running_status(),
            byte < 0x80 && (spec_short_message_len(old(self).running_status()) is None
                || spec_short_message_len(old(self).running_status()) == Some(1usize)) ==> {
                &&& r is None
                &&& final(self).pending() == old(self).pending()
            },
            byte < 0x80 && spec_short_message_len(old(self).running_status()) == Some(2usize) ==> {
                &&& r == Some(din_event(old(self).running_status(), byte, 0))
                &&& final(self).pending() == Seq::<u8>::empty()
            },
            byte < 0x80 && spec_short_message_len(old(self).running_status()) == Some(3usize)
                && old(self).pending().len() == 0 ==> {
                &&& r is None
                &&& final(self).pending() == seq![byte]
            },
            byte < 0x80 && spec_short_message_len(old(self).running_status()) == Some(3usize)
                && old(self).pending().len() == 1 ==> {
                &&& r == Some(din_event(old(self).running_status(), old(self).pending()[0], byte))
                &&& final(self).pending() == Seq::<u8>::empty()
            },
            (final(self).running_status(), final(self).pending(), r) == parse_step(old(self).running_status(), old(self).pending(), byte),
    {
        if byte & 0x80 != 0 {
            assert(byte >= 0x80) by (bit_vector) requires byte & 0x80 != 0;
            self.status = byte;
            self.len = 0;
            assert(self.pending() =~= Seq::<u8>::empty());
            if short_message_len(byte) == Some(1usize) {
                return Some(MidiEvent { port: MidiPort::Din, status: byte, data1: 0, data2: 0 });
            }
            return None;
        }
        assert(byte < 0x80) by (bit_vector) requires byte & 0x80 == 0;
        let needed = match short_message_len(self.status) {
            Some(n) => n,
            None => return None,
        };
        if needed == 1 {
            return None;
        }
        self.data.set(self.len, byte);
        self.len = self.len + 1;
        if self.len + 1 < needed {
            assert(self.pending() =~= seq![byte]);
            return None;
        }
        let event = MidiEvent {
            port: MidiPort::Din,
            status: self.status,
            data1: self.data[0],
            data2: if needed > 2 { self.data[1] } else { 0 },
        };
        self.len = 0;
        assert(self.pending() =~= Seq::<u8>::empty());
        Some(event)
    }
}

/// Feeds one received byte to the parser and queues the event it completes.
pub fn ingest_rx_byte(queues: &mut DinQueues, parser: &mut MidiParser, byte: u8) -> (r: Option<MidiEvent>)
    requires
        old(parser).wf(),
    ensures
        final(parser).wf(),
        (final(parser).running_status(), final(parser).pending(), r) == parse_step(old(parser).running_status(), old(parser).pending(), byte),
        r is None ==> din_rx_items(final(queues).midi_rx) == din_rx_items(old(queues).midi_rx),
        r matches Some(e) ==> din_rx_items(final(queues).midi_rx) == (
            if din_rx_items(old(queues).midi_rx).len() < 256 {
                din_rx_items(old(queues).midi_rx).push(e)
            } else {
                din_rx_items(old(queues).midi_rx)
            }
        ),
        din_tx_items(final(queues).midi_tx) == din_tx_items(old(queues).midi_tx),
{
    let event = parser.push(byte);
    if let Some(e) = event {
        let _ = rx_queue_enqueue(&mut queues.midi_rx, e);
    }
    event
}


/// The DIN queues in their power-up state: both empty.
pub fn init_event_queues() -> (r: DinQueues)
    ensures
        din_rx_items(r.midi_rx) == Seq::<MidiEvent>::empty(),
        din_tx_items(r.midi_tx) == Seq::<MidiTxMessage>::empty(),
{
    DinQueues::new()
}

/// Takes the oldest message waiting for the DIN output and returns its
/// bytes (`len` of them, at most the buffer).
pub fn next_tx_bytes(queues: &mut DinQueues) -> (r: Option<Vec<u8>>)
    ensures
        din_rx_items(final(queues).midi_rx) == din_rx_items(old(queues).midi_rx),
        din_tx_items(old(queues).midi_tx).len() == 0 ==> r is None
            && din_tx_items(final(queues).midi_tx) == din_tx_items(old(queues).midi_tx),
        din_tx_items(old(queues).midi_tx).len() > 0 ==> {
            let m = din_tx_items(old(queues).midi_tx)[0];
            let n: int = if m.len < m.data@.len() { m.len as int } else { m.data@.len() as int };
            &&& din_tx_items(final(queues).midi_tx) == din_tx_items(old(queues).midi_tx).drop_first()
            &&& r matches Some(bytes) && bytes@ == m.data@.take(n)
        },
{
    match tx_queue_dequeue(&mut queues.midi_tx) {
        None => None,
        Some(message) => {
            let n = if message.len < message.data.len() { message.len } else { message.data.len() };
            let mut bytes: Vec<u8> = Vec::new();
            let mut i: usize = 0;
            while i < n
                invariant
                    i <= n,
                    n <= message.data@.len(),
                    bytes@ == message.data@.take(i as int),
                decreases n - i,
            {
                bytes.push(message.data[i]);
                i = i + 1;
                assert(bytes@ =~= message.data@.take(i as int));
            }
            Some(bytes)
        },
    }
}

/// The cable-detect byte from the GPIO input register: bit 0 when pin 9
/// (MIDI in) is pulled low, bit 1 when pin 8 (MIDI out) is.
pub fn cable_state_from_idr(idr: u32) -> (r: u8)
    ensures
        r == (if idr & 0x200 == 0 { 1u8 } else { 0u8 }) + (if idr & 0x100 == 0 { 2u8 } else { 0u8 }),
{
    let midi_in_connected = (idr & 0x200) == 0;
    let midi_out_connected = (idr & 0x100) == 0;
    (if midi_in_connected { 1u8 } else { 0u8 }) + (if midi_out_connected { 2u8 } else { 0u8 })
}

/// Message lengths by MIDI status class: note off, note on, polyphonic
/// pressure, control change and pitch bend (high nibble 8, 9, A, B, E)
/// carry two data bytes; program change and channel pressure (C, D) one;
/// of the system common messages, the time-code quarter frame (F1) and
/// song select (F3) one, the song position (F2) two, the tune request
/// (F6) none; real-time messages (F8..=FF) none; data bytes, the start
/// and end of system exclusive (F0, F7) and the undefined F4, F5 start
/// no short message.
pub proof fn lemma_message_lengths(status: u8)
    ensures
        ({
            let class = status / 16;
            let len = spec_short_message_len(status);
            &&& (class == 8 || class == 9 || class == 10 || class == 11 || class == 14) ==> len == Some(3usize)
            &&& (class == 12 || class == 13) ==> len == Some(2usize)
            &&& (status == 0xf1 || status == 0xf3) ==> len == Some(2usize)
            &&& status == 0xf2 ==> len == Some(3usize)
            &&& status == 0xf6 ==> len == Some(1usize)
            &&& status >= 0xf8 ==> len == Some(1usize)
            &&& (status < 0x80 || status == 0xf0 || status == 0xf4 || status == 0xf5 || status == 0xf7) ==> len is None
        }),
{
}

} // verus!
