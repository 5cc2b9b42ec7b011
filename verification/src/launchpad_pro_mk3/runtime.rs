use vstd::prelude::*;
use crate::events::SurfaceEvent;
use super::input_filter::{frame_is_fresh, pad_step, M0InputFilter, PAD_PRESS_THRESHOLD};
use super::map::{control_index, control_is_mapped, BUTTON_REMAP, BUTTON_REMAP_SIZE, LED_REMAP_SIZE};
use super::led::{system_fill, system_set, system_set_rgb, LedSystem, LedSystemView};
use super::led::legacy::fresh_legacy_view;
use super::led::highspeed::fresh_fast_view;

verus! {

pub const M0_PAD_MAX_VALUE: u16 = 0x0c40;
pub const M0_ROM_NACK: u8 = 0x1f;
pub const M0_ROM_STATUS_OK: u8 = 0;
pub const M0_ROM_STATUS_SYNC: u8 = 2;
pub const M0_ROM_STATUS_CMD: u8 = 3;
pub const M0_ROM_STATUS_NACK: u8 = 4;
pub const M0_ROM_STATUS_RX: u8 = 5;
pub const M0_ROM_STATUS_ARG: u8 = 6;
pub const M0_FW_LEGACY: u8 = 0;
pub const M0_FW_ROADRUNNER: u8 = 1;
pub const M0_FW_UNKNOWN: u8 = 2;
pub const M0_FW_ERROR: u8 = 0x7f;
pub const UART5_PCLK_HZ: u32 = 54_000_000;

/// State of the serial link to the co-processor that scans the surface.
#[derive(Clone, Copy)]
pub struct M0LinkStatus {
    pub mode: u8,
    pub ready: bool,
    pub stream_synced: bool,
    pub ever_synced: bool,
    pub active_baud: u32,
}

/// Velocity for a raw pad pressure: 1 at or below the press threshold, 127 at
/// or above full scale, linear in between.
pub open spec fn spec_raw_to_velocity(raw: u16) -> u8 {
    if raw <= PAD_PRESS_THRESHOLD {
        1
    } else if raw >= M0_PAD_MAX_VALUE {
        127
    } else {
        (1 + ((raw - PAD_PRESS_THRESHOLD) * 126) / ((M0_PAD_MAX_VALUE - PAD_PRESS_THRESHOLD) as int)) as u8
    }
}

pub fn raw_to_velocity(raw: u16) -> (r: u8)
    ensures
        r == spec_raw_to_velocity(raw),
        1 <= r <= 127,
{
    if raw <= PAD_PRESS_THRESHOLD {
        return 1;
    }
    if raw >= M0_PAD_MAX_VALUE {
        return 127;
    }
    let span: u32 = (M0_PAD_MAX_VALUE - PAD_PRESS_THRESHOLD) as u32;
    let num: u32 = (raw - PAD_PRESS_THRESHOLD) as u32 * 126;
    let scaled: u32 = num / span;
    assert(scaled <= 125) by (nonlinear_arith)
        requires
            scaled == num / span,
            span == 0x0c40 - 0x81,
            num <= (0x0c3f - 0x81) * 126,
    ;
    1 + scaled as u8
}

/// Surface event for a physical control of the co-processor frame, if that
/// control is mapped.
pub open spec fn spec_map_control(control: u8, pressed: bool, raw: u16) -> Option<SurfaceEvent> {
    if control as int >= BUTTON_REMAP_SIZE as int {
        None
    } else if BUTTON_REMAP[control as int] == 0 && control != 78 {
        None
    } else {
        Some(SurfaceEvent {
            pressed,
            index: BUTTON_REMAP[control as int],
            value: if pressed { spec_raw_to_velocity(raw) } else { 0 },
        })
    }
}

pub fn map_control(control: u8, pressed: bool, raw: u16) -> (r: Option<SurfaceEvent>)
    ensures
        r == spec_map_control(control, pressed, raw),
{
    if control as usize >= BUTTON_REMAP_SIZE {
        return None;
    }
    let note = BUTTON_REMAP[control as usize];
    if note == 0 && control != 78 {
        return None;
    }
    Some(SurfaceEvent { pressed, index: note, value: if pressed { raw_to_velocity(raw) } else { 0 } })
}

/// A control reports an event exactly when it is mapped, with its own
/// surface index, its press state, and a velocity of 1..=127 when pressed
/// (0 when released); by `lemma_controls_map_one_to_one` no two controls
/// share an index.
pub proof fn lemma_map_control_covers_surface(control: u8, pressed: bool, raw: u16)
    ensures
        (spec_map_control(control, pressed, raw) is Some) == control_is_mapped(control as int),
        spec_map_control(control, pressed, raw) matches Some(e) ==> {
            &&& e.index as int == control_index(control as int)
            &&& e.pressed == pressed
            &&& !pressed ==> e.value == 0
            &&& pressed ==> 1 <= e.value <= 127
        },
{
    if pressed {
        if raw > PAD_PRESS_THRESHOLD && raw < M0_PAD_MAX_VALUE {
            assert(((raw - PAD_PRESS_THRESHOLD) * 126) / ((M0_PAD_MAX_VALUE - PAD_PRESS_THRESHOLD) as int) <= 125) by (nonlinear_arith)
                requires
                    raw < 0x0c40,
                    raw > 0x81,
            ;
        }
    }
}

/// Checksum byte of a bootloader address: the XOR of its four bytes.
pub open spec fn spec_rom_addr_xor(addr: u32) -> u8 {
    ((addr >> 24) ^ (addr >> 16) ^ (addr >> 8) ^ addr) as u8
}

pub fn rom_addr_xor(addr: u32) -> (r: u8)
    ensures
        r == spec_rom_addr_xor(addr),
{
    ((addr >> 24) ^ (addr >> 16) ^ (addr >> 8) ^ addr) as u8
}

pub fn ack_status(ack: u8, fallback: u8) -> (r: u8)
    ensures
        r == (if ack == M0_ROM_NACK { M0_ROM_STATUS_NACK } else { fallback }),
{
    if ack == M0_ROM_NACK {
        M0_ROM_STATUS_NACK
    } else {
        fallback
    }
}

/// Baud-rate register value for 16x oversampling: the clock over the baud
/// rate, rounded to nearest.
pub fn uart_brr_oversampling16(baud: u32) -> (r: u16)
    requires
        baud > 0,
    ensures
        r == ((UART5_PCLK_HZ + baud / 2) / baud as int) as u16,
{
    ((UART5_PCLK_HZ + (baud / 2)) / baud) as u16
}

pub const M0_BTN_FRAME_SIZE: usize = 140;
pub const M0_BTN_FRAME_SYNC: u8 = 0xAA;
pub const M0_BTN_STREAM_ACK_VALUE: u16 = 0x0001;
pub const M0_STREAM_WARMUP_FRAMES: u8 = 2;
pub const M0_STREAM_MISS_TOLERANCE: u8 = 2;
pub const M0_LED_TX_WARMUP_SLOTS: u8 = 16;
pub const M0_LED_TX_WINDOW_SLOTS: u8 = 32;
pub const M0_BTN_STALL_RESTART_MS: u64 = 300;
pub const M0_BTN_RX_TIMEOUT_FAST_MS: u64 = 5;
pub const M0_BTN_RX_TIMEOUT_SLOW_MS: u64 = 20;
pub const M0_PAD_COUNT: usize = 64;
pub const M0_SIDE_COUNT: usize = 64;
pub const M0_BTN_DATA_OFFSET: usize = 4;
pub const M0_BTN_DIGITAL_OFFSET: usize = 0x84;
pub const M0_SIDE_AUX_BYTE_INDEX: usize = 1;
pub const M0_SIDE_SETUP_BIT: u8 = 0x40;
pub const M0_SIDE_SHIFT_BIT: u8 = 0x80;
pub const M0_TX_FAIL_RESET_THRESHOLD: u8 = 4;
pub const M0_LED_BOOST_MIN_LEVEL: u8 = 7;
pub const M0_RETRY_INTERVAL_COLD_MS: u64 = 300;
pub const M0_RETRY_INTERVAL_RUNTIME_MS: u64 = 25;
pub const M0_MODE_HELD_RESET: u8 = 0;
pub const M0_MODE_ROM: u8 = 1;
pub const M0_MODE_FIRMWARE: u8 = 2;

/// Raw LED brightness sent to the co-processor for each level 0..=7.
pub const M0_LED_BRIGHTNESS_RAW: [u8; 8] = [0, 36, 72, 109, 145, 182, 218, 255];

/// A 5-byte command: opcode 0xaa, command, 16-bit value little-endian, 0.
pub fn cmd_aa_frame(cmd: u8, value: u16) -> (r: [u8; 5])
    ensures
        r@ == seq![0xaau8, cmd, (value % 256) as u8, (value / 256) as u8, 0u8],
{
    let r: [u8; 5] = [0xaa, cmd, (value % 256) as u8, (value / 256) as u8, 0];
    assert(r@ =~= seq![0xaau8, cmd, (value % 256) as u8, (value / 256) as u8, 0u8]);
    r
}

/// A 5-byte LED command: opcode 0x55, command (an LED or the commit
/// marker), then the color's bytes 2, 1 and 0.
pub fn cmd_55_frame(cmd: u8, rgb: u32) -> (r: [u8; 5])
    ensures
        r@ == seq![0x55u8, cmd, ((rgb / 0x10000) % 256) as u8, ((rgb / 0x100) % 256) as u8, (rgb % 256) as u8],
{
    let r: [u8; 5] = [0x55, cmd, ((rgb / 0x10000) % 256) as u8, ((rgb / 0x100) % 256) as u8, (rgb % 256) as u8];
    assert(r@ =~= seq![0x55u8, cmd, ((rgb / 0x10000) % 256) as u8, ((rgb / 0x100) % 256) as u8, (rgb % 256) as u8]);
    r
}

/// The LED brightness command: opcode 0x66 and the raw brightness over 32.
pub fn cmd_66_frame(value: u8) -> (r: [u8; 5])
    ensures
        r@ == seq![0x66u8, value / 32, 0u8, 0u8, 0u8],
{
    let r: [u8; 5] = [0x66, value / 32, 0, 0, 0];
    assert(r@ =~= seq![0x66u8, value / 32, 0u8, 0u8, 0u8]);
    r
}

/// The LED boost command: opcode 0x77 and the flag.
pub fn cmd_77_frame(value: u8) -> (r: [u8; 5])
    ensures
        r@ == seq![0x77u8, value, 0u8, 0u8, 0u8],
{
    let r: [u8; 5] = [0x77, value, 0, 0, 0];
    assert(r@ =~= seq![0x77u8, value, 0u8, 0u8, 0u8]);
    r
}

/// A whole LED frame for the fast protocol: opcode 0x88, then the 264
/// framebuffer bytes.
pub fn led_frame(fb: &[u8; 264]) -> (r: Vec<u8>)
    ensures
        r@ == seq![0x88u8] + fb@,
{
    let mut frame: Vec<u8> = Vec::new();
    frame.push(0x88);
    let mut i: usize = 0;
    while i < 264
        invariant
            i <= 264,
            frame@ == seq![0x88u8] + fb@.take(i as int),
        decreases 264 - i,
    {
        frame.push(fb[i]);
        i = i + 1;
        assert(frame@ =~= seq![0x88u8] + fb@.take(i as int));
    }
    assert(fb@.take(264) =~= fb@);
    frame
}

/// Raw brightness and boost flag for an LED brightness level (capped at 7);
/// boost is on at the top level.
pub fn led_brightness_config(level: u8) -> (r: (u8, u8))
    ensures
        ({
            let l = if level < 7 { level } else { 7u8 };
            r == (M0_LED_BRIGHTNESS_RAW[l as int], if l >= M0_LED_BOOST_MIN_LEVEL { 1u8 } else { 0u8 })
        }),
{
    let level = if level < 7 { level } else { 7 };
    let boost: u8 = if level >= M0_LED_BOOST_MIN_LEVEL { 1 } else { 0 };
    (M0_LED_BRIGHTNESS_RAW[level as usize], boost)
}

/// The setup and shift inputs as bits of the second side-button byte.
pub fn side_aux_bits(setup_high: bool, shift_high: bool) -> (r: u8)
    ensures
        r == (if setup_high { M0_SIDE_SETUP_BIT } else { 0u8 }) + (if shift_high { M0_SIDE_SHIFT_BIT } else { 0u8 }),
{
    let mut bits: u8 = 0;
    if setup_high {
        bits = bits | M0_SIDE_SETUP_BIT;
        assert(0u8 | 0x40u8 == 0x40u8) by (bit_vector);
    }
    if shift_high {
        let before = bits;
        assert((before == 0u8 || before == 0x40u8) ==> before | 0x80u8 == before + 0x80u8) by (bit_vector);
        bits = bits | M0_SIDE_SHIFT_BIT;
    }
    bits
}

/// Pad `i`'s 16-bit reading in a button frame, little-endian.
pub open spec fn frame_pad_raw(frame: Seq<u8>, i: int) -> u16 {
    (frame[M0_BTN_DATA_OFFSET + 2 * i] + 256 * frame[M0_BTN_DATA_OFFSET + 2 * i + 1]) as u16
}

/// Side button `i` reads pressed in a button frame; the setup and shift bits
/// come from `aux_bits` instead of the frame.
pub open spec fn frame_side_pressed(frame: Seq<u8>, aux_bits: u8, i: int) -> bool {
    let byte = frame[M0_BTN_DIGITAL_OFFSET + i / 8];
    let b = if i / 8 == M0_SIDE_AUX_BYTE_INDEX as int { (byte & !0xc0u8) | aux_bits } else { byte };
    b & (1u8 << ((i % 8) as u8)) != 0
}

/// Scanning a frame's pads from `i`: release counts and pad states after
/// the scan, and the event of the first pad whose filtered state changed,
/// where the scan stops.
pub open spec fn scan_pads(counts: Seq<u8>, pressed: Seq<bool>, frame: Seq<u8>, i: int) -> (Seq<u8>, Seq<bool>, Option<Option<SurfaceEvent>>)
    decreases 64 - i,
{
    if i < 0 || i >= 64 {
        (counts, pressed, None)
    } else {
        let raw = frame_pad_raw(frame, i);
        let (is, c) = pad_step(pressed[i], counts[i], raw);
        let counts2 = counts.update(i, c);
        if is != pressed[i] {
            (counts2, pressed.update(i, is), Some(spec_map_control(i as u8, is, raw)))
        } else {
            scan_pads(counts2, pressed, frame, i + 1)
        }
    }
}

/// Scanning a frame's side buttons from `i`: states after the scan and
/// the event of the first one that changed.
pub open spec fn scan_sides(pressed: Seq<bool>, frame: Seq<u8>, aux_bits: u8, i: int) -> (Seq<bool>, Option<SurfaceEvent>)
    decreases 64 - i,
{
    if i < 0 || i >= 64 {
        (pressed, None)
    } else {
        let is = frame_side_pressed(frame, aux_bits, i);
        if is != pressed[i] {
            (pressed.update(i, is), spec_map_control((64 + i) as u8, is, M0_PAD_MAX_VALUE))
        } else {
            scan_sides(pressed, frame, aux_bits, i + 1)
        }
    }
}

/// The event a fresh button frame produces: the first pad change, else the
/// first side-button change.
pub open spec fn frame_event(counts: Seq<u8>, pads: Seq<bool>, sides: Seq<bool>, frame: Seq<u8>, aux_bits: u8) -> Option<SurfaceEvent> {
    match scan_pads(counts, pads, frame, 0).2 {
        Some(e) => e,
        None => scan_sides(sides, frame, aux_bits, 0).1,
    }
}

/// What the caller does after a button poll.
#[derive(Copy, Clone, PartialEq, Eq, Structural, Debug)]
pub struct PollOutcome {
    /// A surface event the frame produced.
    pub event: Option<SurfaceEvent>,
    /// Discard what is left in the receive buffer.
    pub drain_rx: bool,
    /// The link stalled: schedule a reconnection.
    pub restart: bool,
}


pub const ROADRUNNER_INQUIRY_OPCODE: u8 = 0xCC;
pub const ROADRUNNER_INQUIRY_SCHEMA: u8 = 0x01;
pub const ROADRUNNER_STATS_OPCODE: u8 = 0xDD;
pub const ROADRUNNER_STATS_SCHEMA: u8 = 0x01;
pub const ROADRUNNER_STATS_RESPONSE_LEN: usize = 14;
pub const M0_HANDSHAKE_SETTLE_COLD_MS: u64 = 100;
pub const M0_HANDSHAKE_SETTLE_RETRY_MS: u64 = 5;
pub const M0_UART_BAUD_FIRMWARE: u32 = 0x005B_3EF5;
pub const M0_UART_BAUD_BOOTLOADER: u32 = 0x005A_CA30;

/// Baud rates tried in turn for the handshake.
pub const HANDSHAKE_VARIANTS: [u32; 4] = [0x005B_3EF5, 0x005A_CA30, 0x005A_CA30, 0x005B_3EF5];

/// The next handshake variant, cycling through the four.
pub fn next_variant(variant_idx: usize) -> (r: usize)
    requires
        variant_idx < 4,
    ensures
        r == (variant_idx + 1) % 4,
        r < 4,
{
    (variant_idx + 1) % 4
}

/// How long to let the link settle after a handshake step.
pub fn handshake_settle_ms(link_ever_synced: bool) -> (r: u64)
    ensures
        r == (if link_ever_synced { M0_HANDSHAKE_SETTLE_RETRY_MS } else { M0_HANDSHAKE_SETTLE_COLD_MS }),
{
    if link_ever_synced {
        M0_HANDSHAKE_SETTLE_RETRY_MS
    } else {
        M0_HANDSHAKE_SETTLE_COLD_MS
    }
}

/// A bootloader command: the command byte and its complement.
pub fn rom_command_packet(cmd: u8) -> (r: [u8; 2])
    ensures
        r@ == seq![cmd, cmd ^ 0xffu8],
{
    let r: [u8; 2] = [cmd, cmd ^ 0xff];
    assert(r@ =~= seq![cmd, cmd ^ 0xffu8]);
    r
}

/// A bootloader address: big-endian bytes and their XOR checksum.
pub fn rom_address_packet(addr: u32) -> (r: [u8; 5])
    ensures
        r@ == seq![
            (addr / 0x100_0000) as u8,
            ((addr / 0x1_0000) % 256) as u8,
            ((addr / 0x100) % 256) as u8,
            (addr % 256) as u8,
            spec_rom_addr_xor(addr)
        ],
{
    let r: [u8; 5] = [
        (addr / 0x100_0000) as u8,
        ((addr / 0x1_0000) % 256) as u8,
        ((addr / 0x100) % 256) as u8,
        (addr % 256) as u8,
        rom_addr_xor(addr),
    ];
    assert(r@ =~= seq![
        (addr / 0x100_0000) as u8,
        ((addr / 0x1_0000) % 256) as u8,
        ((addr / 0x100) % 256) as u8,
        (addr % 256) as u8,
        spec_rom_addr_xor(addr)
    ]);
    r
}

/// A bootloader read length: the length less one and its complement.
pub fn rom_length_packet(len: usize) -> (r: [u8; 2])
    requires
        1 <= len <= 256,
    ensures
        r@ == seq![(len - 1) as u8, !((len - 1) as u8)],
{
    let n = (len - 1) as u8;
    let r: [u8; 2] = [n, !n];
    assert(r@ =~= seq![(len - 1) as u8, !((len - 1) as u8)]);
    r
}

/// A response of a fixed length being read byte by byte: bytes before the
/// expected opcode are skipped.
pub struct ResponseScanner {
    pub opcode: u8,
    pub expected: usize,
    pub bytes: Vec<u8>,
}

impl ResponseScanner {
    pub open spec fn wf(&self) -> bool {
        &&& 0 < self.expected
        &&& self.bytes@.len() < self.expected
        &&& self.bytes@.len() > 0 ==> self.bytes@[0] == self.opcode
    }

    pub fn new(opcode: u8, expected: usize) -> (r: Self)
        requires
            expected > 0,
        ensures
            r.wf(),
            r.opcode == opcode,
            r.expected == expected,
            r.bytes@.len() == 0,
    {
        ResponseScanner { opcode, expected, bytes: Vec::new() }
    }

    /// Takes one received byte; returns the whole response once it is
    /// complete, after which the scanner starts over.
    pub fn push(&mut self, byte: u8) -> (r: Option<Vec<u8>>)
        requires
            old(self).wf(),
        ensures
            final(self).wf(),
            final(self).opcode == old(self).opcode,
            final(self).expected == old(self).expected,
            old(self).bytes@.len() == 0 && byte != old(self).opcode ==> r is None && final(self).bytes@ == old(self).bytes@,
            !(old(self).bytes@.len() == 0 && byte != old(self).opcode) ==> {
                let got = old(self).bytes@.push(byte);
                &&& got.len() == old(self).expected ==> (r matches Some(v) && v@ == got) && final(self).bytes@.len() == 0
                &&& got.len() < old(self).expected ==> r is None && final(self).bytes@ == got
            },
    {
        if self.bytes.len() == 0 && byte != self.opcode {
            return None;
        }
        self.bytes.push(byte);
        if self.bytes.len() == self.expected {
            let mut done: Vec<u8> = Vec::new();
            core::mem::swap(&mut done, &mut self.bytes);
            return Some(done);
        }
        None
    }
}

/// The firmware version in a version response: major, minor, patch, when
/// the response carries the inquiry's opcode and schema.
pub fn parse_version_response(response: &[u8]) -> (r: Option<(u8, u8, u8)>)
    requires
        response@.len() == 5,
    ensures
        r == (if response@[0] == ROADRUNNER_INQUIRY_OPCODE && response@[1] == ROADRUNNER_INQUIRY_SCHEMA {
            Some((response@[2], response@[3], response@[4]))
        } else {
            None
        }),
{
    if response[0] == ROADRUNNER_INQUIRY_OPCODE && response[1] == ROADRUNNER_INQUIRY_SCHEMA {
        Some((response[2], response[3], response[4]))
    } else {
        None
    }
}

/// The 32-bit little-endian value at `at`.
pub open spec fn le_u32(bytes: Seq<u8>, at: int) -> u32 {
    (bytes[at] + 256 * bytes[at + 1] + 65536 * bytes[at + 2] + 16777216 * bytes[at + 3]) as u32
}

fn read_le_u32(bytes: &[u8], at: usize) -> (r: u32)
    requires
        at + 4 <= bytes@.len(),
    ensures
        r == le_u32(bytes@, at as int),
{
    bytes[at] as u32 + (bytes[at + 1] as u32) * 256 + (bytes[at + 2] as u32) * 65536 + (bytes[at + 3] as u32) * 16777216
}

/// Counters of the fast co-processor firmware.
#[derive(Copy, Clone, PartialEq, Eq, Structural, Debug)]
pub struct RoadrunnerStats {
    pub fast_frames: u32,
    pub commits: u32,
    pub rx_overruns: u32,
}

/// The counters in a stats response, when it carries the stats opcode and
/// schema: three 32-bit little-endian values.
pub fn parse_stats_response(response: &[u8]) -> (r: Option<RoadrunnerStats>)
    requires
        response@.len() == ROADRUNNER_STATS_RESPONSE_LEN,
    ensures
        r == (if response@[0] == ROADRUNNER_STATS_OPCODE && response@[1] == ROADRUNNER_STATS_SCHEMA {
            Some(RoadrunnerStats {
                fast_frames: le_u32(response@, 2),
                commits: le_u32(response@, 6),
                rx_overruns: le_u32(response@, 10),
            })
        } else {
            None
        }),
{
    if response[0] != ROADRUNNER_STATS_OPCODE || response[1] != ROADRUNNER_STATS_SCHEMA {
        return None;
    }
    Some(RoadrunnerStats {
        fast_frames: read_le_u32(response, 2),
        commits: read_le_u32(response, 6),
        rx_overruns: read_le_u32(response, 10),
    })
}

/// State of the button stream from the co-processor: link readiness and
/// synchronisation, how many LED writes the current window allows, the
/// frame filter and the last reported state of every control.
pub struct M0Stream {
    pub ready: bool,
    pub stream_synced: bool,
    pub link_ever_synced: bool,
    pub stream_miss_streak: u8,
    pub stream_warmup_frames: u8,
    pub led_tx_slots: u8,
    pub tx_fail_streak: u8,
    pub last_frame_ms: u64,
    pub input_filter: M0InputFilter,
    pub pad_pressed: Vec<bool>,
    pub side_pressed: Vec<bool>,
    pub mode: u8,
    pub active_baud: u32,
    pub last_retry_ms: u64,
}

impl M0Stream {
    pub open spec fn wf(&self) -> bool {
        &&& self.input_filter.wf()
        &&& self.pad_pressed@.len() == M0_PAD_COUNT
        &&& self.side_pressed@.len() == M0_SIDE_COUNT
    }

    pub fn new() -> (r: Self)
        ensures
            r.wf(),
            !r.ready,
            !r.stream_synced,
            !r.link_ever_synced,
            r.led_tx_slots == 0,
            r.stream_warmup_frames == M0_STREAM_WARMUP_FRAMES,
            r.pad_pressed@ == Seq::new(64, |i: int| false),
            r.side_pressed@ == Seq::new(64, |i: int| false),
    {
        let mut pads: Vec<bool> = Vec::new();
        let mut sides: Vec<bool> = Vec::new();
        let mut i: usize = 0;
        while i < 64
            invariant
                i <= 64,
                pads@ == Seq::new(i as nat, |k: int| false),
                sides@ == Seq::new(i as nat, |k: int| false),
            decreases 64 - i,
        {
            pads.push(false);
            sides.push(false);
            i = i + 1;
            assert(pads@ =~= Seq::new(i as nat, |k: int| false));
            assert(sides@ =~= Seq::new(i as nat, |k: int| false));
        }
        M0Stream {
            ready: false,
            stream_synced: false,
            link_ever_synced: false,
            stream_miss_streak: 0,
            stream_warmup_frames: M0_STREAM_WARMUP_FRAMES,
            led_tx_slots: 0,
            tx_fail_streak: 0,
            last_frame_ms: 0,
            input_filter: M0InputFilter::new(),
            pad_pressed: pads,
            side_pressed: sides,
            mode: M0_MODE_HELD_RESET,
            active_baud: M0_UART_BAUD_FIRMWARE,
            last_retry_ms: 0,
        }
    }

    /// The link is up and its button stream synchronised.
    pub fn is_ready(&self) -> (r: bool)
        ensures
            r == (self.ready && self.stream_synced),
    {
        self.ready && self.stream_synced
    }

    /// How long to wait between reconnection attempts.
    pub fn retry_interval_ms(&self) -> (r: u64)
        ensures
            r == (if self.link_ever_synced { M0_RETRY_INTERVAL_RUNTIME_MS } else { M0_RETRY_INTERVAL_COLD_MS }),
    {
        if self.link_ever_synced {
            M0_RETRY_INTERVAL_RUNTIME_MS
        } else {
            M0_RETRY_INTERVAL_COLD_MS
        }
    }

    /// How long to wait for a button frame at a baud rate.
    pub fn rx_timeout_ms(active_baud: u32) -> (r: u64)
        ensures
            r == (if active_baud <= 200_000 { M0_BTN_RX_TIMEOUT_SLOW_MS } else { M0_BTN_RX_TIMEOUT_FAST_MS }),
    {
        if active_baud <= 200_000 {
            M0_BTN_RX_TIMEOUT_SLOW_MS
        } else {
            M0_BTN_RX_TIMEOUT_FAST_MS
        }
    }

    /// Accounts for the outcome of a write to the co-processor: a success
    /// clears the failure streak; a failure loses sync, asks for the
    /// receive buffer to be drained, and after four in a row takes the link
    /// down for a reconnection.
    pub fn on_send_result(&mut self, ok: bool) -> (r: PollOutcome)
        requires
            old(self).wf(),
        ensures
            final(self).wf(),
            r.event is None,
            ok ==> final(self).tx_fail_streak == 0 && final(self).stream_synced == old(self).stream_synced
                && final(self).ready == old(self).ready && !r.drain_rx && !r.restart,
            !ok ==> {
                let streak: u8 = if old(self).tx_fail_streak == 255 { 255u8 } else { (old(self).tx_fail_streak + 1) as u8 };
                &&& final(self).tx_fail_streak == streak
                &&& !final(self).stream_synced
                &&& r.drain_rx
                &&& r.restart == (streak >= M0_TX_FAIL_RESET_THRESHOLD)
                &&& final(self).ready == (old(self).ready && streak < M0_TX_FAIL_RESET_THRESHOLD)
            },
            final(self).led_tx_slots == old(self).led_tx_slots,
            final(self).pad_pressed@ == old(self).pad_pressed@,
            final(self).side_pressed@ == old(self).side_pressed@,
    {
        if ok {
            self.tx_fail_streak = 0;
            return PollOutcome { event: None, drain_rx: false, restart: false };
        }
        self.tx_fail_streak = self.tx_fail_streak.saturating_add(1);
        self.stream_synced = false;
        let mut restart = false;
        if self.tx_fail_streak >= M0_TX_FAIL_RESET_THRESHOLD {
            self.ready = false;
            self.stream_synced = false;
            restart = true;
        }
        PollOutcome { event: None, drain_rx: true, restart }
    }

    /// The link's status as reported to the host.
    pub fn status(&self) -> (r: M0LinkStatus)
        ensures
            r.mode == self.mode,
            r.ready == self.ready,
            r.stream_synced == self.stream_synced,
            r.ever_synced == self.link_ever_synced,
            r.active_baud == self.active_baud,
    {
        M0LinkStatus {
            mode: self.mode,
            ready: self.ready,
            stream_synced: self.stream_synced,
            ever_synced: self.link_ever_synced,
            active_baud: self.active_baud,
        }
    }

    /// Switches the co-processor's mode (held in reset, bootloader,
    /// firmware): the stream starts over, LED writes stop, and entering the
    /// firmware makes a reconnection due at once. Returns the status: OK,
    /// or a bad-argument status for an unknown mode, which changes nothing
    /// but the stream reset.
    pub fn set_mode(&mut self, mode: u8, now_ms: u64) -> (r: u8)
        requires
            old(self).wf(),
        ensures
            final(self).wf(),
            !final(self).ready,
            !final(self).stream_synced,
            final(self).led_tx_slots == 0,
            final(self).tx_fail_streak == 0,
            final(self).stream_miss_streak == 0,
            final(self).stream_warmup_frames == M0_STREAM_WARMUP_FRAMES,
            final(self).input_filter.last_counter() is None,
            mode <= M0_MODE_FIRMWARE ==> r == M0_ROM_STATUS_OK && final(self).mode == mode,
            mode > M0_MODE_FIRMWARE ==> r == M0_ROM_STATUS_ARG && final(self).mode == old(self).mode,
            mode == M0_MODE_FIRMWARE ==> final(self).last_retry_ms == (if now_ms >= (if old(self).link_ever_synced {
                M0_RETRY_INTERVAL_RUNTIME_MS
            } else {
                M0_RETRY_INTERVAL_COLD_MS
            }) {
                now_ms - (if old(self).link_ever_synced { M0_RETRY_INTERVAL_RUNTIME_MS } else { M0_RETRY_INTERVAL_COLD_MS })
            } else {
                0
            }),
            mode != M0_MODE_FIRMWARE ==> final(self).last_retry_ms == old(self).last_retry_ms,
    {
        self.ready = false;
        self.stream_synced = false;
        self.led_tx_slots = 0;
        self.tx_fail_streak = 0;
        self.stream_miss_streak = 0;
        self.stream_warmup_frames = M0_STREAM_WARMUP_FRAMES;
        self.input_filter.reset_stream();
        if mode == M0_MODE_HELD_RESET || mode == M0_MODE_ROM {
            self.mode = mode;
            M0_ROM_STATUS_OK
        } else if mode == M0_MODE_FIRMWARE {
            self.mode = mode;
            self.last_retry_ms = now_ms.saturating_sub(self.retry_interval_ms());
            M0_ROM_STATUS_OK
        } else {
            M0_ROM_STATUS_ARG
        }
    }

    /// Whether a link that is down should try a handshake now; when it
    /// should, the attempt is recorded.
    pub fn retry_due(&mut self, now_ms: u64) -> (r: bool)
        ensures
            r == (!old(self).ready && now_ms >= old(self).last_retry_ms && now_ms - old(self).last_retry_ms >= (if old(self).link_ever_synced {
                M0_RETRY_INTERVAL_RUNTIME_MS
            } else {
                M0_RETRY_INTERVAL_COLD_MS
            })),
            r ==> final(self).last_retry_ms == now_ms,
            !r ==> final(self).last_retry_ms == old(self).last_retry_ms,
            final(self).ready == old(self).ready,
            final(self).stream_synced == old(self).stream_synced,
            final(self).led_tx_slots == old(self).led_tx_slots,
    {
        if self.ready {
            return false;
        }
        if now_ms.saturating_sub(self.last_retry_ms) >= self.retry_interval_ms() {
            self.last_retry_ms = now_ms;
            return true;
        }
        false
    }

    /// Whether a whole LED frame may be sent: only on a ready link with a
    /// free LED slot.
    pub fn can_send_led_frame(&self) -> (r: bool)
        ensures
            r == (self.ready && self.stream_synced && self.led_tx_slots != 0),
    {
        self.is_ready() && self.led_tx_slots != 0
    }

    /// An LED write went out: one slot of the window is used.
    pub fn led_slot_used(&mut self)
        ensures
            final(self).led_tx_slots == (if old(self).led_tx_slots == 0 { 0 } else { (old(self).led_tx_slots - 1) as u8 }),
            final(self).ready == old(self).ready,
            final(self).stream_synced == old(self).stream_synced,
    {
        self.led_tx_slots = self.led_tx_slots.saturating_sub(1);
    }

    /// Start of a button poll: no LED writes until a frame opens a window.
    pub fn begin_poll(&mut self)
        ensures
            final(self).led_tx_slots == 0,
            final(self).ready == old(self).ready,
            final(self).stream_synced == old(self).stream_synced,
            final(self).stream_miss_streak == old(self).stream_miss_streak,
            final(self).stream_warmup_frames == old(self).stream_warmup_frames,
            final(self).input_filter == old(self).input_filter,
            final(self).pad_pressed == old(self).pad_pressed,
            final(self).side_pressed == old(self).side_pressed,
    {
        self.led_tx_slots = 0;
    }

    /// The request for a frame could not be sent: a synced stream tolerates
    /// two misses, then falls back to warm-up.
    pub fn on_request_failed(&mut self)
        requires
            old(self).wf(),
        ensures
            final(self).wf(),
            old(self).stream_synced && old(self).stream_miss_streak < M0_STREAM_MISS_TOLERANCE ==> {
                &&& final(self).stream_miss_streak == old(self).stream_miss_streak + 1
                &&& final(self).stream_synced
                &&& final(self).stream_warmup_frames == old(self).stream_warmup_frames
            },
            !(old(self).stream_synced && old(self).stream_miss_streak < M0_STREAM_MISS_TOLERANCE) ==> {
                &&& final(self).stream_miss_streak == old(self).stream_miss_streak
                &&& !final(self).stream_synced
                &&& final(self).stream_warmup_frames == M0_STREAM_WARMUP_FRAMES
            },
            final(self).ready == old(self).ready,
            final(self).led_tx_slots == old(self).led_tx_slots,
            final(self).pad_pressed@ == old(self).pad_pressed@,
            final(self).side_pressed@ == old(self).side_pressed@,
    {
        if self.stream_synced && self.stream_miss_streak < M0_STREAM_MISS_TOLERANCE {
            self.stream_miss_streak = self.stream_miss_streak + 1;
        } else {
            self.stream_synced = false;
            self.stream_warmup_frames = M0_STREAM_WARMUP_FRAMES;
        }
    }
    /// Reports the first control whose state changed in a button frame:
    /// pads in order through the release filter, then the side buttons.
    pub fn process_frame(&mut self, frame: &[u8], aux_bits: u8) -> (r: Option<SurfaceEvent>)
        requires
            old(self).wf(),
            frame@.len() >= M0_BTN_FRAME_SIZE,
        ensures
            final(self).wf(),
            final(self).input_filter.last_counter() == old(self).input_filter.last_counter(),
            ({
                let (counts, pads, pad_event) = scan_pads(
                    old(self).input_filter.release_counts(),
                    old(self).pad_pressed@,
                    frame@,
                    0,
                );
                &&& final(self).input_filter.release_counts() == counts
                &&& final(self).pad_pressed@ == pads
                &&& match pad_event {
                    Some(e) => r == e && final(self).side_pressed@ == old(self).side_pressed@,
                    None => {
                        let (sides, side_event) = scan_sides(old(self).side_pressed@, frame@, aux_bits, 0);
                        &&& final(self).side_pressed@ == sides
                        &&& r == side_event
                    },
                }
            }),
            final(self).ready == old(self).ready,
            final(self).stream_synced == old(self).stream_synced,
            final(self).led_tx_slots == old(self).led_tx_slots,
            final(self).stream_miss_streak == old(self).stream_miss_streak,
            final(self).stream_warmup_frames == old(self).stream_warmup_frames,
            final(self).last_frame_ms == old(self).last_frame_ms,
            final(self).link_ever_synced == old(self).link_ever_synced,
            final(self).tx_fail_streak == old(self).tx_fail_streak,
    {
        let mut i: usize = 0;
        while i < M0_PAD_COUNT
            invariant
                i <= 64,
                frame@.len() >= M0_BTN_FRAME_SIZE,
                self.wf(),
                self.pad_pressed@ == old(self).pad_pressed@,
                self.side_pressed@ == old(self).side_pressed@,
                self.input_filter.last_counter() == old(self).input_filter.last_counter(),
                scan_pads(self.input_filter.release_counts(), self.pad_pressed@, frame@, i as int) == scan_pads(
                    old(self).input_filter.release_counts(),
                    old(self).pad_pressed@,
                    frame@,
                    0,
                ),
                self.ready == old(self).ready,
                self.stream_synced == old(self).stream_synced,
                self.led_tx_slots == old(self).led_tx_slots,
                self.stream_miss_streak == old(self).stream_miss_streak,
                self.stream_warmup_frames == old(self).stream_warmup_frames,
                self.last_frame_ms == old(self).last_frame_ms,
                self.link_ever_synced == old(self).link_ever_synced,
                self.tx_fail_streak == old(self).tx_fail_streak,
            decreases 64 - i,
        {
            let off = M0_BTN_DATA_OFFSET + 2 * i;
            let raw: u16 = frame[off] as u16 + (frame[off + 1] as u16) * 256;
            let was = self.pad_pressed[i];
            let ghost counts0 = self.input_filter.release_counts();
            let is = self.input_filter.pad_state(i, was, raw);
            proof {
                let c = self.input_filter.release_counts()[i as int];
                assert(self.input_filter.release_counts() =~= counts0.update(i as int, c));
            }
            if is != was {
                self.pad_pressed.set(i, is);
                return map_control(i as u8, is, raw);
            }
            i = i + 1;
        }
        let mut k: usize = 0;
        while k < M0_SIDE_COUNT
            invariant
                k <= 64,
                frame@.len() >= M0_BTN_FRAME_SIZE,
                self.wf(),
                self.side_pressed@.len() == 64,
                scan_sides(self.side_pressed@, frame@, aux_bits, k as int) == scan_sides(
                    old(self).side_pressed@,
                    frame@,
                    aux_bits,
                    0,
                ),
                self.side_pressed@ == old(self).side_pressed@,
                scan_pads(old(self).input_filter.release_counts(), old(self).pad_pressed@, frame@, 0) == (
                    self.input_filter.release_counts(),
                    self.pad_pressed@,
                    None::<Option<SurfaceEvent>>,
                ),
                self.input_filter.last_counter() == old(self).input_filter.last_counter(),
                self.ready == old(self).ready,
                self.stream_synced == old(self).stream_synced,
                self.led_tx_slots == old(self).led_tx_slots,
                self.stream_miss_streak == old(self).stream_miss_streak,
                self.stream_warmup_frames == old(self).stream_warmup_frames,
                self.last_frame_ms == old(self).last_frame_ms,
                self.link_ever_synced == old(self).link_ever_synced,
                self.tx_fail_streak == old(self).tx_fail_streak,
            decreases 64 - k,
        {
            let byte_off = M0_BTN_DIGITAL_OFFSET + k / 8;
            let bit: u8 = (k % 8) as u8;
            let bit_mask: u8 = 1u8 << bit;
            let mut side_byte = frame[byte_off];
            if k / 8 == M0_SIDE_AUX_BYTE_INDEX {
                side_byte = side_byte & !(M0_SIDE_SETUP_BIT | M0_SIDE_SHIFT_BIT);
                side_byte = side_byte | aux_bits;
                assert(M0_SIDE_SETUP_BIT | M0_SIDE_SHIFT_BIT == 0xc0u8) by (bit_vector);
            }
            let is = (side_byte & bit_mask) != 0;
            let was = self.side_pressed[k];
            if is != was {
                self.side_pressed.set(k, is);
                return map_control((M0_PAD_COUNT + k) as u8, is, M0_PAD_MAX_VALUE);
            }
            k = k + 1;
        }
        None
    }

    /// Handles the result of waiting for a button frame. A synchronised
    /// frame opens an LED window (smaller during warm-up) and, if its
    /// counter is fresh, is scanned for a change. Anything else counts as a
    /// miss: a synced stream tolerates two, the receive buffer is drained,
    /// and after 300 ms without a frame the link is restarted.
    pub fn on_poll_result(&mut self, received: bool, frame: &[u8], now_ms: u64, aux_bits: u8) -> (r: PollOutcome)
        requires
            old(self).wf(),
            frame@.len() >= M0_BTN_FRAME_SIZE,
        ensures
            final(self).wf(),
            ({
                let synced_frame = received && frame@[0] == M0_BTN_FRAME_SYNC && frame@[1] == M0_BTN_FRAME_SYNC;
                &&& synced_frame ==> {
                    &&& final(self).stream_synced
                    &&& final(self).link_ever_synced
                    &&& final(self).stream_miss_streak == 0
                    &&& final(self).last_frame_ms == now_ms
                    &&& final(self).ready == old(self).ready
                    &&& final(self).led_tx_slots == (if old(self).stream_warmup_frames != 0 {
                        M0_LED_TX_WARMUP_SLOTS
                    } else {
                        M0_LED_TX_WINDOW_SLOTS
                    })
                    &&& final(self).stream_warmup_frames == (if old(self).stream_warmup_frames != 0 {
                        (old(self).stream_warmup_frames - 1) as u8
                    } else {
                        0u8
                    })
                    &&& !r.drain_rx
                    &&& !r.restart
                    &&& {
                        let previous = if old(self).stream_synced { old(self).input_filter.last_counter() } else { None };
                        let counter = (frame@[2] + 256 * frame@[3]) as u16;
                        let counts = if old(self).stream_synced {
                            old(self).input_filter.release_counts()
                        } else {
                            Seq::new(64, |i: int| 0u8)
                        };
                        &&& !frame_is_fresh(previous, counter) ==> r.event is None
                            && final(self).pad_pressed@ == old(self).pad_pressed@
                            && final(self).side_pressed@ == old(self).side_pressed@
                        &&& frame_is_fresh(previous, counter) ==> r.event == frame_event(
                            counts,
                            old(self).pad_pressed@,
                            old(self).side_pressed@,
                            frame@,
                            aux_bits,
                        )
                    }
                }
                &&& !synced_frame ==> {
                    &&& r.event is None
                    &&& r.drain_rx
                    &&& final(self).led_tx_slots == 0
                    &&& final(self).last_frame_ms == old(self).last_frame_ms
                    &&& final(self).pad_pressed@ == old(self).pad_pressed@
                    &&& final(self).side_pressed@ == old(self).side_pressed@
                    &&& r.restart == (now_ms >= old(self).last_frame_ms && now_ms - old(self).last_frame_ms >= M0_BTN_STALL_RESTART_MS)
                    &&& final(self).ready == (old(self).ready && !r.restart)
                    &&& (old(self).stream_synced && old(self).stream_miss_streak < M0_STREAM_MISS_TOLERANCE) ==> {
                        &&& final(self).stream_synced == !r.restart
                        &&& final(self).stream_miss_streak == old(self).stream_miss_streak + 1
                        &&& final(self).stream_warmup_frames == old(self).stream_warmup_frames
                    }
                    &&& !(old(self).stream_synced && old(self).stream_miss_streak < M0_STREAM_MISS_TOLERANCE) ==> {
                        &&& !final(self).stream_synced
                        &&& final(self).stream_miss_streak == 0
                        &&& final(self).stream_warmup_frames == M0_STREAM_WARMUP_FRAMES
                    }
                }
            }),
    {
        if received && frame[0] == M0_BTN_FRAME_SYNC && frame[1] == M0_BTN_FRAME_SYNC {
            if !self.stream_synced {
                self.input_filter.reset_stream();
            }
            self.stream_synced = true;
            self.link_ever_synced = true;
            self.stream_miss_streak = 0;
            self.last_frame_ms = now_ms;
            if self.stream_warmup_frames != 0 {
                self.led_tx_slots = M0_LED_TX_WARMUP_SLOTS;
                self.stream_warmup_frames = self.stream_warmup_frames - 1;
            } else {
                self.led_tx_slots = M0_LED_TX_WINDOW_SLOTS;
            }
            let frame_counter: u16 = frame[2] as u16 + (frame[3] as u16) * 256;
            let event = if self.input_filter.accept_frame(frame_counter) {
                self.process_frame(frame, aux_bits)
            } else {
                None
            };
            return PollOutcome { event, drain_rx: false, restart: false };
        }
        if self.stream_synced && self.stream_miss_streak < M0_STREAM_MISS_TOLERANCE {
            self.stream_miss_streak = self.stream_miss_streak + 1;
        } else {
            self.stream_synced = false;
            self.stream_warmup_frames = M0_STREAM_WARMUP_FRAMES;
            self.stream_miss_streak = 0;
        }
        self.led_tx_slots = 0;
        let mut restart = false;
        if now_ms.saturating_sub(self.last_frame_ms) >= M0_BTN_STALL_RESTART_MS {
            self.ready = false;
            self.stream_synced = false;
            restart = true;
        }
        PollOutcome { event: None, drain_rx: true, restart }
    }
}


/// What was learned of the co-processor's firmware: a ROM status, the kind
/// found, and the fast firmware's version.
#[derive(Copy, Clone, PartialEq, Eq, Structural, Debug)]
pub struct M0FirmwareStatus {
    pub status: u8,
    pub kind: u8,
    pub version_major: u8,
    pub version_minor: u8,
    pub version_patch: u8,
}

impl M0FirmwareStatus {
    /// Nothing learned yet: firmware of unknown kind, no version.
    pub fn unknown() -> (r: Self)
        ensures
            r == (M0FirmwareStatus { status: M0_ROM_STATUS_OK, kind: M0_FW_UNKNOWN, version_major: 0, version_minor: 0, version_patch: 0 }),
    {
        M0FirmwareStatus { status: M0_ROM_STATUS_OK, kind: M0_FW_UNKNOWN, version_major: 0, version_minor: 0, version_patch: 0 }
    }
}

/// The device's LED and firmware-kind state: which LED driver runs, chosen
/// by the co-processor firmware found, the last firmware status, and the
/// brightness level.
pub struct RuntimeDriver {
    pub leds: LedSystem,
    pub brightness: u8,
    pub m0_firmware_kind: u8,
    pub m0_firmware_status: M0FirmwareStatus,
}

impl RuntimeDriver {
    pub open spec fn wf(&self) -> bool {
        self.leds.wf()
    }

    pub fn new() -> (r: Self)
        ensures
            r.wf(),
            r.leds is Legacy,
            r.brightness == 7,
            r.m0_firmware_kind == M0_FW_UNKNOWN,
            r.leds@ == LedSystemView::Legacy(fresh_legacy_view()),
            r.m0_firmware_status.kind == M0_FW_UNKNOWN,
    {
        RuntimeDriver {
            leds: LedSystem::new_legacy(),
            brightness: 7,
            m0_firmware_kind: M0_FW_UNKNOWN,
            m0_firmware_status: M0FirmwareStatus::unknown(),
        }
    }

    /// The last firmware status applied.
    pub fn cached_m0_firmware_status(&self) -> (r: Option<M0FirmwareStatus>)
        ensures
            r == Some(self.m0_firmware_status),
    {
        Some(self.m0_firmware_status)
    }

    /// Picks the LED driver for the firmware found: whole frames for the
    /// fast firmware, single commands for the stock one; an unknown result
    /// keeps a known firmware's driver and otherwise starts over with single
    /// commands.
    pub fn apply_m0_firmware_status(&mut self, status: M0FirmwareStatus)
        requires
            old(self).wf(),
        ensures
            final(self).wf(),
            final(self).brightness == old(self).brightness,
            final(self).m0_firmware_status == status,
            status.kind == M0_FW_ROADRUNNER ==> final(self).m0_firmware_kind == M0_FW_ROADRUNNER && final(self).leds is Highspeed
                && final(self).leds@ == LedSystemView::Highspeed(fresh_fast_view()),
            status.kind == M0_FW_LEGACY ==> final(self).m0_firmware_kind == M0_FW_LEGACY && final(self).leds is Legacy
                && final(self).leds@ == LedSystemView::Legacy(fresh_legacy_view()),
            status.kind != M0_FW_ROADRUNNER && status.kind != M0_FW_LEGACY ==> {
                &&& final(self).m0_firmware_kind == old(self).m0_firmware_kind
                &&& old(self).m0_firmware_kind == M0_FW_UNKNOWN ==> final(self).leds is Legacy
                    && final(self).leds@ == LedSystemView::Legacy(fresh_legacy_view())
                &&& old(self).m0_firmware_kind != M0_FW_UNKNOWN ==> final(self).leds == old(self).leds
            },
    {
        self.m0_firmware_status = status;
        let kind = status.kind;
        if kind == M0_FW_ROADRUNNER {
            self.m0_firmware_kind = M0_FW_ROADRUNNER;
            self.leds = LedSystem::new_highspeed();
        } else if kind == M0_FW_LEGACY {
            self.m0_firmware_kind = M0_FW_LEGACY;
            self.leds = LedSystem::new_legacy();
        } else if self.m0_firmware_kind == M0_FW_UNKNOWN {
            self.leds = LedSystem::new_legacy();
        }
    }

    /// After the power-up wait: when the link came up (`link_ready`) and
    /// the fast firmware had not answered (`initial_kind`), the stock
    /// firmware's single-LED commands are used; otherwise nothing changes.
    pub fn finish_startup(&mut self, link_ready: bool, initial_kind: u8)
        requires
            old(self).wf(),
        ensures
            final(self).wf(),
            link_ready && initial_kind != M0_FW_ROADRUNNER ==> {
                &&& final(self).m0_firmware_kind == M0_FW_LEGACY
                &&& final(self).leds is Legacy
            },
            !(link_ready && initial_kind != M0_FW_ROADRUNNER) ==> *final(self) == *old(self),
    {
        if link_ready && initial_kind != M0_FW_ROADRUNNER {
            self.confirm_legacy_m0_firmware();
        }
    }

    /// The stock firmware answered: single-LED commands from now on.
    pub fn confirm_legacy_m0_firmware(&mut self)
        requires
            old(self).wf(),
        ensures
            final(self).wf(),
            final(self).m0_firmware_kind == M0_FW_LEGACY,
            final(self).leds is Legacy,
            final(self).leds@ == LedSystemView::Legacy(fresh_legacy_view()),
            final(self).m0_firmware_status == (M0FirmwareStatus {
                status: M0_ROM_STATUS_OK,
                kind: M0_FW_LEGACY,
                version_major: 0,
                version_minor: 0,
                version_patch: 0,
            }),
            final(self).brightness == old(self).brightness,
    {
        self.apply_m0_firmware_status(M0FirmwareStatus {
            status: M0_ROM_STATUS_OK,
            kind: M0_FW_LEGACY,
            version_major: 0,
            version_minor: 0,
            version_patch: 0,
        });
    }

    pub fn set_rgb_led(&mut self, index: u8, r: u8, g: u8, b: u8)
        requires
            old(self).wf(),
        ensures
            final(self).wf(),
            final(self).leds@ == system_set_rgb(old(self).leds@, index, r, g, b),
            (final(self).leds is Legacy) == (old(self).leds is Legacy),
            final(self).m0_firmware_kind == old(self).m0_firmware_kind,
            final(self).brightness == old(self).brightness,
    {
        self.leds.set_rgb_led(index, r, g, b);
    }

    pub fn set_led(&mut self, index: u8, color: u32)
        requires
            old(self).wf(),
        ensures
            final(self).wf(),
            final(self).leds@ == system_set(old(self).leds@, index, color),
            (final(self).leds is Legacy) == (old(self).leds is Legacy),
            final(self).m0_firmware_kind == old(self).m0_firmware_kind,
            final(self).brightness == old(self).brightness,
    {
        self.leds.set_led(index, color);
    }

    /// Sets every surface index to one color.
    pub fn fill(&mut self, color: u32)
        requires
            old(self).wf(),
        ensures
            final(self).wf(),
            final(self).leds@ == system_fill(old(self).leds@, color, LED_REMAP_SIZE as int),
            (final(self).leds is Legacy) == (old(self).leds is Legacy),
            final(self).m0_firmware_kind == old(self).m0_firmware_kind,
            final(self).brightness == old(self).brightness,
    {
        let mut led: u8 = 0;
        while (led as usize) < LED_REMAP_SIZE
            invariant
                self.wf(),
                led <= 110,
                self.leds@ == system_fill(old(self).leds@, color, led as int),
                (self.leds is Legacy) == (old(self).leds is Legacy),
                self.m0_firmware_kind == old(self).m0_firmware_kind,
                self.brightness == old(self).brightness,
            decreases LED_REMAP_SIZE - led,
        {
            self.leds.set_led(led, color);
            led = led + 1;
        }
    }

    pub fn brightness(&self) -> (r: u8)
        ensures
            r == self.brightness,
    {
        self.brightness
    }

    /// Sets the brightness level (capped at 7) and returns it, for the
    /// co-processor's LED configuration.
    pub fn set_brightness(&mut self, brightness: u8) -> (r: u8)
        ensures
            r == (if brightness < 7 { brightness } else { 7 }),
            final(self).brightness == r,
            final(self).m0_firmware_kind == old(self).m0_firmware_kind,
    {
        self.brightness = if brightness < 7 { brightness } else { 7 };
        self.brightness
    }

    /// The fast LED protocol runs when the fast firmware was found.
    pub fn highspeed_leds_enabled(&self) -> (r: bool)
        ensures
            r == (self.m0_firmware_kind == M0_FW_ROADRUNNER),
    {
        self.m0_firmware_kind == M0_FW_ROADRUNNER
    }

    pub fn device_id(&self) -> (r: u8)
        ensures
            r == 35,
    {
        35
    }
}

/// Whether to keep waiting for the co-processor link at power-up: until it
/// is up (`link_ready`), for at most 1500 ms.
pub fn keep_waiting_for_link(link_ready: bool, elapsed_ms: u64) -> (r: bool)
    ensures
        r == (!link_ready && elapsed_ms < 1500),
{
    !link_ready && elapsed_ms < 1500
}

/// A harder press never plays softer: velocity rises with pressure, from 1
/// at or below the press threshold to 127 at or above full scale; in
/// between, velocity minus one counts the whole 126ths of the press range
/// the pressure covers.
pub proof fn lemma_velocity_rises_with_pressure(raw1: u16, raw2: u16)
    requires
        raw1 <= raw2,
    ensures
        spec_raw_to_velocity(raw1) <= spec_raw_to_velocity(raw2),
        1 <= spec_raw_to_velocity(raw1) <= 127,
        raw1 <= PAD_PRESS_THRESHOLD ==> spec_raw_to_velocity(raw1) == 1,
        raw1 >= M0_PAD_MAX_VALUE ==> spec_raw_to_velocity(raw1) == 127,
        PAD_PRESS_THRESHOLD < raw1 < M0_PAD_MAX_VALUE ==> ({
            let steps = spec_raw_to_velocity(raw1) - 1;
            &&& steps * (M0_PAD_MAX_VALUE - PAD_PRESS_THRESHOLD) <= (raw1 - PAD_PRESS_THRESHOLD) * 126
            &&& (raw1 - PAD_PRESS_THRESHOLD) * 126 < (steps + 1) * (M0_PAD_MAX_VALUE - PAD_PRESS_THRESHOLD)
        }),
{
    let span: int = (M0_PAD_MAX_VALUE - PAD_PRESS_THRESHOLD) as int;
    assert(span == 3007);
    if PAD_PRESS_THRESHOLD < raw1 < M0_PAD_MAX_VALUE {
        let x1: int = (raw1 - PAD_PRESS_THRESHOLD) * 126;
        assert(0 <= x1 / span <= 125) by (nonlinear_arith)
            requires
                x1 == (raw1 - 0x81) * 126,
                0x81 < raw1 < 0x0c40,
                span == 3007,
        ;
        assert((x1 / span) * span <= x1 < (x1 / span + 1) * span) by (nonlinear_arith)
            requires
                x1 >= 0,
                span == 3007,
        ;
    }
    if PAD_PRESS_THRESHOLD < raw2 < M0_PAD_MAX_VALUE {
        let x2: int = (raw2 - PAD_PRESS_THRESHOLD) * 126;
        assert(0 <= x2 / span <= 125) by (nonlinear_arith)
            requires
                x2 == (raw2 - 0x81) * 126,
                0x81 < raw2 < 0x0c40,
                span == 3007,
        ;
        if PAD_PRESS_THRESHOLD < raw1 {
            let x1: int = (raw1 - PAD_PRESS_THRESHOLD) * 126;
            assert(x1 / span <= x2 / span) by (nonlinear_arith)
                requires
                    x1 == (raw1 - 0x81) * 126,
                    x2 == (raw2 - 0x81) * 126,
                    raw1 <= raw2,
                    span == 3007,
            ;
        }
    }
}

} // verus!
