use vstd::prelude::*;
use crate::usb::UsbDeviceConfig;

verus! {

/// Packet memory addresses of the endpoint buffers, in order: EP0 RX,
/// EP0 TX, EP1 TX, EP1 RX, EP2 RX.
pub fn pma_layout(cfg: &UsbDeviceConfig) -> (r: (u16, u16, u16, u16, u16))
    ensures
        cfg.use_ep2_for_out ==> r == (0x40u16, 0x80u16, 0xc0u16, 0x00u16, 0x100u16),
        !cfg.use_ep2_for_out ==> r == (0x40u16, 0x48u16, 0x90u16, 0x50u16, 0x00u16),
{
    if cfg.use_ep2_for_out {
        (0x40, 0x80, 0xc0, 0x00, 0x100)
    } else {
        (0x40, 0x48, 0x90, 0x50, 0x00)
    }
}

/// The buffer-table count word for an RX buffer of `size` bytes: up to 62
/// bytes in 2-byte blocks, above that in 32-byte blocks with the block-size
/// bit set.
pub open spec fn spec_rx_count(size: int) -> u16 {
    if size <= 62 {
        ((((size + 1) / 2) as u16) << 10u16) & 0x7c00u16
    } else {
        0x8000u16 | ((((size + 31) / 32 - 1) as u16) << 10u16)
    }
}

pub fn rx_count(size: usize) -> (r: u16)
    requires
        size <= 0xffe0,
    ensures
        r == spec_rx_count(size as int),
{
    if size <= 62 {
        (((size as u16 + 1) / 2) << 10) & 0x7c00
    } else {
        0x8000 | ((((size as u16 + 31) / 32) - 1) << 10)
    }
}

/// Byte `i` of `data`, or 0 past its end.
pub open spec fn byte_or_zero(data: Seq<u8>, i: int) -> u16 {
    if 0 <= i < data.len() { data[i] as u16 } else { 0 }
}

/// The little-endian 16-bit words that hold `data` in packet memory, the
/// last one padded with a zero byte.
pub open spec fn spec_pma_words(data: Seq<u8>) -> Seq<u16> {
    Seq::new(
        ((data.len() + 1) / 2) as nat,
        |k: int| (byte_or_zero(data, 2 * k) + 256 * byte_or_zero(data, 2 * k + 1)) as u16,
    )
}

/// Packs bytes into packet-memory words, two per word, low byte first.
pub fn pma_words(data: &[u8]) -> (r: Vec<u16>)
    ensures
        r@ == spec_pma_words(data@),
{
    let mut words: Vec<u16> = Vec::new();
    let len = data.len();
    let n: usize = len / 2 + len % 2;
    let mut k: usize = 0;
    while k < n
        invariant
            len == data@.len(),
            n == (data@.len() + 1) / 2,
            k <= n,
            words@.len() == k,
            forall|j: int| 0 <= j < k ==> #[trigger] words@[j] == spec_pma_words(data@)[j],
        decreases n - k,
    {
        assert(2 * k < data@.len());
        let lo = data[2 * k] as u16;
        let hi: u16 = if 2 * k + 1 < data.len() { data[2 * k + 1] as u16 } else { 0 };
        words.push(lo + hi * 256);
        k = k + 1;
    }
    assert(words@ =~= spec_pma_words(data@));
    words
}

/// Byte `i` of the bytes held in packet-memory words, low byte first.
pub open spec fn spec_pma_byte(words: Seq<u16>, i: int) -> u8 {
    if i % 2 == 0 {
        (words[i / 2] % 256) as u8
    } else {
        (words[i / 2] / 256) as u8
    }
}

/// Bytes packed into packet-memory words unpack to the same bytes.
pub proof fn lemma_pma_round_trip(data: Seq<u8>)
    ensures
        forall|i: int| 0 <= i < data.len() ==> #[trigger] spec_pma_byte(spec_pma_words(data), i) == data[i],
{
    assert forall|i: int| 0 <= i < data.len() implies #[trigger] spec_pma_byte(spec_pma_words(data), i) == data[i] by {
        let k = i / 2;
        let lo = byte_or_zero(data, 2 * k);
        let hi = byte_or_zero(data, 2 * k + 1);
        assert(lo < 256 && hi < 256);
        let w: int = lo + 256 * hi;
        assert(w % 256 == lo && w / 256 == hi) by (nonlinear_arith)
            requires
                w == lo + 256 * hi,
                0 <= lo < 256,
                0 <= hi < 256,
        ;
    }
}

/// Unpacks `len` bytes from packet-memory words, low byte first.
pub fn pma_bytes(words: &[u16], len: usize) -> (r: Vec<u8>)
    requires
        len <= 2 * words@.len(),
    ensures
        r@.len() == len,
        forall|i: int| 0 <= i < len ==> #[trigger] r@[i] == spec_pma_byte(words@, i),
{
    let mut bytes: Vec<u8> = Vec::new();
    let mut i: usize = 0;
    while i < len
        invariant
            i <= len,
            len <= 2 * words@.len(),
            bytes@.len() == i,
            forall|k: int| 0 <= k < i ==> #[trigger] bytes@[k] == spec_pma_byte(words@, k),
        decreases len - i,
    {
        let word = words[i / 2];
        if i % 2 == 0 {
            bytes.push((word % 256) as u8);
        } else {
            bytes.push((word / 256) as u8);
        }
        i = i + 1;
    }
    bytes
}


/// Endpoint register bits a write keeps as they are: the transfer-complete
/// flags (writing 1 leaves them), type, kind and address.
pub const EP_KEEP_MASK: u16 = 0x878f;
pub const EP_STAT_TX: u16 = 0x0030;
pub const EP_STAT_RX: u16 = 0x3000;
pub const EP_TOGGLE_MASK: u16 = 0x7070;
pub const EP_CTR_RX: u16 = 0x8000;
pub const EP_CTR_TX: u16 = 0x0080;

/// The value written to an endpoint register to set its TX status: the
/// status bits toggle on a 1, so the written bits are the current status
/// XOR the wanted one.
pub fn tx_stat_write(reg: u16, stat: u16) -> (r: u16)
    requires
        stat < 4,
    ensures
        r == (reg & EP_KEEP_MASK) | ((reg & EP_STAT_TX) ^ (stat << 4u16)),
{
    (reg & EP_KEEP_MASK) | ((reg & EP_STAT_TX) ^ (stat << 4))
}

/// The value written to an endpoint register to set its RX status.
pub fn rx_stat_write(reg: u16, stat: u16) -> (r: u16)
    requires
        stat < 4,
    ensures
        r == (reg & EP_KEEP_MASK) | ((reg & EP_STAT_RX) ^ (stat << 12u16)),
{
    (reg & EP_KEEP_MASK) | ((reg & EP_STAT_RX) ^ (stat << 12))
}

/// The value written to an endpoint register to acknowledge its RX and/or
/// TX completion: no toggle bit is touched, and a completion flag is
/// cleared by writing 0.
pub fn clear_ctr_write(reg: u16, rx: bool, tx: bool) -> (r: u16)
    ensures
        r == (reg & !EP_TOGGLE_MASK) & (if rx { !EP_CTR_RX } else { 0xffffu16 }) & (if tx { !EP_CTR_TX } else { 0xffffu16 }),
{
    let mut value = reg & !EP_TOGGLE_MASK;
    if rx {
        value = value & !EP_CTR_RX;
    } else {
        let v0 = value;
        assert(v0 & 0xffffu16 == v0) by (bit_vector);
    }
    if tx {
        value = value & !EP_CTR_TX;
    } else {
        let v1 = value;
        assert(v1 & 0xffffu16 == v1) by (bit_vector);
    }
    value
}

/// Setting a status lands exactly: toggling the current status bits by the
/// written ones gives the wanted status, and no other toggle bit and no
/// completion flag changes.
pub proof fn lemma_stat_writes_land(reg: u16, stat: u16)
    requires
        stat < 4,
    ensures
        (reg & EP_STAT_TX) ^ (((reg & EP_KEEP_MASK) | ((reg & EP_STAT_TX) ^ (stat << 4u16))) & EP_STAT_TX) == stat << 4u16,
        (reg & EP_STAT_RX) ^ (((reg & EP_KEEP_MASK) | ((reg & EP_STAT_RX) ^ (stat << 12u16))) & EP_STAT_RX) == stat << 12u16,
        ((reg & EP_KEEP_MASK) | ((reg & EP_STAT_TX) ^ (stat << 4u16))) & (EP_TOGGLE_MASK & !EP_STAT_TX) == 0,
        ((reg & EP_KEEP_MASK) | ((reg & EP_STAT_RX) ^ (stat << 12u16))) & (EP_TOGGLE_MASK & !EP_STAT_RX) == 0,
{
    assert((reg & 0x0030u16) ^ (((reg & 0x878fu16) | ((reg & 0x0030u16) ^ (stat << 4u16))) & 0x0030u16) == stat << 4u16
        && (reg & 0x3000u16) ^ (((reg & 0x878fu16) | ((reg & 0x3000u16) ^ (stat << 12u16))) & 0x3000u16) == stat << 12u16
        && ((reg & 0x878fu16) | ((reg & 0x0030u16) ^ (stat << 4u16))) & (0x7070u16 & !0x0030u16) == 0
        && ((reg & 0x878fu16) | ((reg & 0x3000u16) ^ (stat << 12u16))) & (0x7070u16 & !0x3000u16) == 0) by (bit_vector)
        requires
            stat < 4,
    ;
}

/// The SETUP bit of an endpoint register.
pub const EP_SETUP: u16 = 0x0800;

/// What a completed reception on an endpoint asks for.
#[derive(Copy, Clone, PartialEq, Eq, Structural, Debug)]
pub enum EpRxAction {
    /// Nothing was received.
    Idle,
    /// Read the setup packet on endpoint 0 and handle it.
    Setup,
    /// A data stage packet on endpoint 0: accept the next one.
    RearmEp0,
    /// The MIDI OUT endpoint's packet: read it, re-arm, parse it.
    MidiOut,
    /// An endpoint with no receive role.
    Ignore,
}

/// What a completed transmission on an endpoint asks for.
#[derive(Copy, Clone, PartialEq, Eq, Structural, Debug)]
pub enum EpTxAction {
    /// Nothing was sent.
    Idle,
    /// Endpoint 0: apply a pending address, or send the next chunk, or NAK.
    Ep0Next,
    /// Endpoint 1: send the next queued MIDI packet.
    PumpMidi,
    /// An endpoint with no transmit role: only the flag is cleared.
    Ignore,
}

pub open spec fn spec_ep_rx_action(ep: usize, reg: u16, use_ep2_for_out: bool) -> EpRxAction {
    if reg & EP_CTR_RX == 0 {
        EpRxAction::Idle
    } else if ep == 0 {
        if reg & EP_SETUP != 0 { EpRxAction::Setup } else { EpRxAction::RearmEp0 }
    } else if (ep == 1 && !use_ep2_for_out) || (ep == 2 && use_ep2_for_out) {
        EpRxAction::MidiOut
    } else {
        EpRxAction::Ignore
    }
}

pub open spec fn spec_ep_tx_action(ep: usize, reg: u16) -> EpTxAction {
    if reg & EP_CTR_TX == 0 {
        EpTxAction::Idle
    } else if ep == 0 {
        EpTxAction::Ep0Next
    } else if ep == 1 {
        EpTxAction::PumpMidi
    } else {
        EpTxAction::Ignore
    }
}

/// The endpoint service dispatch: what its register says was received and
/// sent, given which endpoint carries MIDI OUT.
pub fn ep_actions(ep: usize, reg: u16, use_ep2_for_out: bool) -> (r: (EpRxAction, EpTxAction))
    ensures
        r == (spec_ep_rx_action(ep, reg, use_ep2_for_out), spec_ep_tx_action(ep, reg)),
{
    let rx = if reg & EP_CTR_RX == 0 {
        EpRxAction::Idle
    } else if ep == 0 {
        if reg & EP_SETUP != 0 { EpRxAction::Setup } else { EpRxAction::RearmEp0 }
    } else if (ep == 1 && !use_ep2_for_out) || (ep == 2 && use_ep2_for_out) {
        EpRxAction::MidiOut
    } else {
        EpRxAction::Ignore
    };
    let tx = if reg & EP_CTR_TX == 0 {
        EpTxAction::Idle
    } else if ep == 0 {
        EpTxAction::Ep0Next
    } else if ep == 1 {
        EpTxAction::PumpMidi
    } else {
        EpTxAction::Ignore
    };
    (rx, tx)
}

} // verus!
