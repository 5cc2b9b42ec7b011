use vstd::prelude::*;

verus! {

pub const EP_MAX_PACKET: usize = 64;

/// Byte `i` of `data`, or 0 past its end.
pub open spec fn byte_at(data: Seq<u8>, i: int) -> int {
    if 0 <= i < data.len() { data[i] as int } else { 0 }
}

/// The 32-bit FIFO words that carry `data`, little-endian, the last one
/// padded with zero bytes.
pub open spec fn spec_fifo_words(data: Seq<u8>) -> Seq<u32> {
    Seq::new(
        ((data.len() + 3) / 4) as nat,
        |k: int| (byte_at(data, 4 * k) + 256 * byte_at(data, 4 * k + 1) + 65536 * byte_at(data, 4 * k + 2)
            + 16777216 * byte_at(data, 4 * k + 3)) as u32,
    )
}

/// Byte `i` of the bytes carried by FIFO words, little-endian.
pub open spec fn spec_fifo_byte(words: Seq<u32>, i: int) -> u8 {
    let w = words[i / 4] as int;
    let shift = i % 4;
    (if shift == 0 { w % 256 } else if shift == 1 { (w / 256) % 256 } else if shift == 2 { (w / 65536) % 256 } else { w / 16777216 }) as u8
}

/// Packs bytes into FIFO words, four per word, first byte lowest.
pub fn fifo_words(data: &[u8]) -> (r: Vec<u32>)
    ensures
        r@ == spec_fifo_words(data@),
{
    let len = data.len();
    let n: usize = len / 4 + (if len % 4 == 0 { 0 } else { 1 });
    let mut words: Vec<u32> = Vec::new();
    let mut k: usize = 0;
    while k < n
        invariant
            len == data@.len(),
            n == (data@.len() + 3) / 4,
            k <= n,
            words@.len() == k,
            forall|j: int| 0 <= j < k ==> #[trigger] words@[j] == spec_fifo_words(data@)[j],
        decreases n - k,
    {
        assert(4 * k < len);
        let b0 = data[4 * k] as u32;
        let b1: u32 = if 4 * k + 1 < len { data[4 * k + 1] as u32 } else { 0 };
        let b2: u32 = if 4 * k + 2 < len { data[4 * k + 2] as u32 } else { 0 };
        let b3: u32 = if 4 * k + 3 < len { data[4 * k + 3] as u32 } else { 0 };
        words.push(b0 + b1 * 256 + b2 * 65536 + b3 * 16777216);
        k = k + 1;
    }
    assert(words@ =~= spec_fifo_words(data@));
    words
}

/// Unpacks `len` bytes from FIFO words, first byte lowest.
pub fn fifo_bytes(words: &[u32], len: usize) -> (r: Vec<u8>)
    requires
        len <= 4 * words@.len(),
    ensures
        r@.len() == len,
        forall|i: int| 0 <= i < len ==> #[trigger] r@[i] == spec_fifo_byte(words@, i),
{
    let mut bytes: Vec<u8> = Vec::new();
    let mut i: usize = 0;
    while i < len
        invariant
            i <= len,
            len <= 4 * words@.len(),
            bytes@.len() == i,
            forall|k: int| 0 <= k < i ==> #[trigger] bytes@[k] == spec_fifo_byte(words@, k),
        decreases len - i,
    {
        let w = words[i / 4];
        let shift = i % 4;
        let b: u8 = if shift == 0 {
            (w % 256) as u8
        } else if shift == 1 {
            ((w / 256) % 256) as u8
        } else if shift == 2 {
            ((w / 65536) % 256) as u8
        } else {
            (w / 16777216) as u8
        };
        bytes.push(b);
        i = i + 1;
    }
    bytes
}

/// Bytes packed into FIFO words unpack to the same bytes.
pub proof fn lemma_fifo_round_trip(data: Seq<u8>)
    ensures
        forall|i: int| 0 <= i < data.len() ==> #[trigger] spec_fifo_byte(spec_fifo_words(data), i) == data[i],
{
    assert forall|i: int| 0 <= i < data.len() implies #[trigger] spec_fifo_byte(spec_fifo_words(data), i) == data[i] by {
        let k = i / 4;
        let b0 = byte_at(data, 4 * k);
        let b1 = byte_at(data, 4 * k + 1);
        let b2 = byte_at(data, 4 * k + 2);
        let b3 = byte_at(data, 4 * k + 3);
        assert(0 <= b0 < 256 && 0 <= b1 < 256 && 0 <= b2 < 256 && 0 <= b3 < 256);
        let w = b0 + 256 * b1 + 65536 * b2 + 16777216 * b3;
        assert(w % 256 == b0 && (w / 256) % 256 == b1 && (w / 65536) % 256 == b2 && w / 16777216 == b3 && w < 0x1_0000_0000) by (nonlinear_arith)
            requires
                w == b0 + 256 * b1 + 65536 * b2 + 16777216 * b3,
                0 <= b0 < 256,
                0 <= b1 < 256,
                0 <= b2 < 256,
                0 <= b3 < 256,
        ;
        assert(spec_fifo_words(data)[k] as int == w);
    }
}

/// A SETUP packet from the two FIFO words it arrives in.
pub fn setup_packet(w0: u32, w1: u32) -> (r: [u8; 8])
    ensures
        forall|i: int| 0 <= i < 8 ==> #[trigger] r@[i] == spec_fifo_byte(seq![w0, w1], i),
{
    let words: [u32; 2] = [w0, w1];
    let bytes = fifo_bytes(words.as_slice(), 8);
    assert(words@ =~= seq![w0, w1]);
    let mut r: [u8; 8] = [0; 8];
    let mut i: usize = 0;
    while i < 8
        invariant
            i <= 8,
            bytes@.len() == 8,
            words@ == seq![w0, w1],
            forall|k: int| 0 <= k < 8 ==> #[trigger] bytes@[k] == spec_fifo_byte(seq![w0, w1], k),
            forall|k: int| 0 <= k < i ==> #[trigger] r@[k] == spec_fifo_byte(seq![w0, w1], k),
        decreases 8 - i,
    {
        r[i] = bytes[i];
        i = i + 1;
    }
    r
}

/// Bytes of a received OUT packet that are kept: at most one packet.
pub fn out_packet_len(bcnt: usize) -> (r: usize)
    ensures
        r == (if bcnt < EP_MAX_PACKET { bcnt } else { EP_MAX_PACKET }),
{
    if bcnt < EP_MAX_PACKET {
        bcnt
    } else {
        EP_MAX_PACKET
    }
}

/// FIFO words a packet of `bcnt` bytes occupies.
pub fn fifo_word_count(bcnt: usize) -> (r: usize)
    requires
        bcnt <= 0x7ff,
    ensures
        r == (bcnt + 3) / 4,
{
    (bcnt + 3) / 4
}

/// Packet status of a popped receive-FIFO entry: SETUP data received.
pub const PKTSTS_SETUP_DATA_RX: u8 = 6;
/// Packet status: OUT data received.
pub const PKTSTS_OUT_DATA_RX: u8 = 2;
/// Packet status: OUT transfer completed.
pub const PKTSTS_OUT_DATA_DONE: u8 = 3;
/// Packet status: SETUP stage completed.
pub const PKTSTS_SETUP_DATA_DONE: u8 = 4;

/// What to do with one popped receive-FIFO entry.
#[derive(Copy, Clone, PartialEq, Eq, Structural, Debug)]
pub enum RxFifoAction {
    /// Read the 8 setup bytes, re-arm endpoint 0 for the next setup, and
    /// handle the request.
    Setup,
    /// Read the OUT packet; on endpoint 1 its USB-MIDI packets are parsed.
    OutData { parse_midi: bool },
    /// Re-arm endpoint 1 for the next 64-byte packet.
    RearmEp1,
    /// Re-arm endpoint 0 for the next 64-byte transfer and setups.
    RearmEp0,
    /// Acknowledge the completed setup stage on endpoint 0.
    AckSetupDone,
    /// Nothing for this endpoint.
    Ignore,
    /// Read and drop the entry's words.
    Drain,
}

pub open spec fn spec_rx_fifo_action(pktsts: u8, ep_num: usize) -> RxFifoAction {
    if pktsts == PKTSTS_SETUP_DATA_RX {
        RxFifoAction::Setup
    } else if pktsts == PKTSTS_OUT_DATA_RX {
        RxFifoAction::OutData { parse_midi: ep_num == 1 }
    } else if pktsts == PKTSTS_OUT_DATA_DONE {
        if ep_num == 1 {
            RxFifoAction::RearmEp1
        } else if ep_num == 0 {
            RxFifoAction::RearmEp0
        } else {
            RxFifoAction::Ignore
        }
    } else if pktsts == PKTSTS_SETUP_DATA_DONE {
        RxFifoAction::AckSetupDone
    } else {
        RxFifoAction::Drain
    }
}

/// The receive-FIFO dispatch: by packet status and endpoint.
pub fn rx_fifo_action(pktsts: u8, ep_num: usize) -> (r: RxFifoAction)
    ensures
        r == spec_rx_fifo_action(pktsts, ep_num),
{
    if pktsts == PKTSTS_SETUP_DATA_RX {
        RxFifoAction::Setup
    } else if pktsts == PKTSTS_OUT_DATA_RX {
        RxFifoAction::OutData { parse_midi: ep_num == 1 }
    } else if pktsts == PKTSTS_OUT_DATA_DONE {
        if ep_num == 1 {
            RxFifoAction::RearmEp1
        } else if ep_num == 0 {
            RxFifoAction::RearmEp0
        } else {
            RxFifoAction::Ignore
        }
    } else if pktsts == PKTSTS_SETUP_DATA_DONE {
        RxFifoAction::AckSetupDone
    } else {
        RxFifoAction::Drain
    }
}

} // verus!
