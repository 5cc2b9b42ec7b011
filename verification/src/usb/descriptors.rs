use vstd::prelude::*;
use crate::usb::UsbDeviceConfig;
use vstd::string::StringSliceAdditionalSpecFns;

verus! {

pub const DESC_DEVICE: u8 = 0x01;
pub const DESC_CONFIGURATION: u8 = 0x02;
pub const DESC_STRING: u8 = 0x03;
pub const DESC_INTERFACE: u8 = 0x04;
pub const DESC_ENDPOINT: u8 = 0x05;

pub const CS_INTERFACE: u8 = 0x24;
pub const CS_ENDPOINT: u8 = 0x25;

/// String descriptor zero: the one supported language, US English.
pub const STRING_LANG_ID: [u8; 4] = [4, 3, 0x09, 0x04];

pub const CONFIG_DESCRIPTOR_LEN: usize = 129;
pub const MS_HEADER_TOTAL_LEN: u16 = 93;

pub open spec fn lo(v: u16) -> u8 {
    (v & 0xff) as u8
}

pub open spec fn hi(v: u16) -> u8 {
    ((v >> 8u16) & 0xff) as u8
}

/// The device descriptor: USB 2.0, class defined per interface, one
/// configuration, strings 1..=3 for manufacturer, product and serial number.
pub open spec fn device_descriptor(cfg: UsbDeviceConfig) -> Seq<u8> {
    seq![
        18u8, DESC_DEVICE, 0x00, 0x02, 0x00, 0x00, 0x00, cfg.ep0_max_packet_size,
        lo(cfg.vendor_id), hi(cfg.vendor_id), lo(cfg.product_id), hi(cfg.product_id),
        lo(cfg.bcd_device), hi(cfg.bcd_device), 1, 2, 3, 1,
    ]
}

/// `bMaxPower` in 2 mA units, saturated to one byte.
pub open spec fn max_power_units(cfg: UsbDeviceConfig) -> u8 {
    let units = cfg.max_power_ma / 2;
    if units < 255 { units as u8 } else { 255 }
}

/// Address of the OUT endpoint: EP2 or EP1.
pub open spec fn out_endpoint_address(cfg: UsbDeviceConfig) -> u8 {
    if cfg.use_ep2_for_out { 0x02 } else { 0x01 }
}

/// Transfer type of both MIDI endpoints: interrupt with EP2 OUT, else bulk.
pub open spec fn endpoint_attributes(cfg: UsbDeviceConfig) -> u8 {
    if cfg.use_ep2_for_out { 0x03 } else { 0x02 }
}

/// Configuration descriptor header: two interfaces, bus powered.
pub open spec fn configuration_header(cfg: UsbDeviceConfig) -> Seq<u8> {
    seq![9u8, DESC_CONFIGURATION, 129, 0, 2, 1, 0, 0x80, max_power_units(cfg)]
}

/// Audio control interface, with its class-specific header naming the
/// MIDI streaming interface 1.
pub open spec fn audio_control_interface() -> Seq<u8> {
    seq![9u8, DESC_INTERFACE, 0, 0, 0, 1, 1, 0, 0]
        + seq![9u8, CS_INTERFACE, 1, 0x00, 0x01, 9, 0, 1, 1]
}

/// MIDI streaming interface with two endpoints and its class header.
pub open spec fn midi_streaming_interface() -> Seq<u8> {
    seq![9u8, DESC_INTERFACE, 1, 0, 2, 1, 3, 0, 0]
        + seq![7u8, CS_INTERFACE, 1, 0x00, 0x01, 93, 0]
}

/// A MIDI IN jack: `kind` 1 external, 2 embedded.
pub open spec fn in_jack(kind: u8, id: u8, string: u8) -> Seq<u8> {
    seq![6u8, CS_INTERFACE, 2, kind, id, string]
}

/// A MIDI OUT jack with a single source.
pub open spec fn out_jack(kind: u8, id: u8, source: u8, string: u8) -> Seq<u8> {
    seq![9u8, CS_INTERFACE, 3, kind, id, 1, source, 1, string]
}

/// Jacks 1, 2 external IN; 3, 4 embedded IN (strings 4, 5); 5, 6 external
/// OUT fed by 3, 4; 7, 8 embedded OUT fed by 1, 2.
pub open spec fn jacks() -> Seq<u8> {
    in_jack(1, 1, 0) + in_jack(1, 2, 0) + in_jack(2, 3, 4) + in_jack(2, 4, 5)
        + out_jack(1, 5, 3, 0) + out_jack(1, 6, 4, 0) + out_jack(2, 7, 1, 4) + out_jack(2, 8, 2, 5)
}

/// A 64-byte endpoint followed by its class-specific descriptor that lists
/// two embedded jacks.
pub open spec fn midi_endpoint(address: u8, attributes: u8, jack1: u8, jack2: u8) -> Seq<u8> {
    seq![7u8, DESC_ENDPOINT, address, attributes, 64, 0, 0]
        + seq![6u8, CS_ENDPOINT, 1, 2, jack1, jack2]
}

/// The full configuration descriptor of the two-port USB MIDI function.
pub open spec fn config_descriptor(cfg: UsbDeviceConfig) -> Seq<u8> {
    configuration_header(cfg) + audio_control_interface() + midi_streaming_interface() + jacks()
        + midi_endpoint(out_endpoint_address(cfg), endpoint_attributes(cfg), 3, 4)
        + midi_endpoint(0x81, endpoint_attributes(cfg), 7, 8)
}

/// A string descriptor holding the given bytes as UTF-16 code units with a
/// zero high byte.
pub open spec fn string_descriptor(s: Seq<u8>) -> Seq<u8> {
    seq![(2 + 2 * s.len()) as u8, DESC_STRING]
        + Seq::new(2 * s.len(), |k: int| if k % 2 == 0 { s[k / 2] } else { 0u8 })
}

pub fn build_device_descriptor(cfg: &UsbDeviceConfig, out: &mut [u8; 18])
    ensures
        final(out)@ == device_descriptor(*cfg),
{
    let desc: [u8; 18] = [
        18,
        DESC_DEVICE,
        0x00,
        0x02,
        0x00,
        0x00,
        0x00,
        cfg.ep0_max_packet_size,
        (cfg.vendor_id & 0xff) as u8,
        ((cfg.vendor_id >> 8) & 0xff) as u8,
        (cfg.product_id & 0xff) as u8,
        ((cfg.product_id >> 8) & 0xff) as u8,
        (cfg.bcd_device & 0xff) as u8,
        ((cfg.bcd_device >> 8) & 0xff) as u8,
        1,
        2,
        3,
        1,
    ];
    *out = desc;
    assert(out@ =~= device_descriptor(*cfg));
}

fn min_u16(a: u16, b: u16) -> (r: u16)
    ensures
        r == (if a < b { a } else { b }),
{
    if a < b { a } else { b }
}

pub fn build_config_descriptor(cfg: &UsbDeviceConfig, out: &mut [u8; 129])
    ensures
        final(out)@ == config_descriptor(*cfg),
{
    let ep_out_addr: u8 = if cfg.use_ep2_for_out { 0x02 } else { 0x01 };
    let ep_attr: u8 = if cfg.use_ep2_for_out { 0x03 } else { 0x02 };
    let max_power = min_u16(cfg.max_power_ma / 2, 255) as u8;
    let desc: [u8; 129] = [
        // configuration
        9, DESC_CONFIGURATION, 129, 0, 2, 1, 0, 0x80, max_power,
        // audio control interface and its class header
        9, DESC_INTERFACE, 0, 0, 0, 1, 1, 0, 0,
        9, CS_INTERFACE, 1, 0x00, 0x01, 9, 0, 1, 1,
        // MIDI streaming interface and its class header
        9, DESC_INTERFACE, 1, 0, 2, 1, 3, 0, 0,
        7, CS_INTERFACE, 1, 0x00, 0x01, 93, 0,
        // IN jacks
        6, CS_INTERFACE, 2, 1, 1, 0,
        6, CS_INTERFACE, 2, 1, 2, 0,
        6, CS_INTERFACE, 2, 2, 3, 4,
        6, CS_INTERFACE, 2, 2, 4, 5,
        // OUT jacks
        9, CS_INTERFACE, 3, 1, 5, 1, 3, 1, 0,
        9, CS_INTERFACE, 3, 1, 6, 1, 4, 1, 0,
        9, CS_INTERFACE, 3, 2, 7, 1, 1, 1, 4,
        9, CS_INTERFACE, 3, 2, 8, 1, 2, 1, 5,
        // OUT endpoint
        7, DESC_ENDPOINT, ep_out_addr, ep_attr, 64, 0, 0,
        6, CS_ENDPOINT, 1, 2, 3, 4,
        // IN endpoint
        7, DESC_ENDPOINT, 0x81, ep_attr, 64, 0, 0,
        6, CS_ENDPOINT, 1, 2, 7, 8,
    ];
    *out = desc;
    assert(out@ =~= config_descriptor(*cfg));
}

/// Writes `s` as a string descriptor at the start of `out` and returns its
/// length; returns 0 and leaves `out` alone when it does not fit.
pub fn encode_string_descriptor(s: &str, out: &mut [u8]) -> (r: usize)
    ensures
        2 + 2 * s.spec_bytes().len() > old(out)@.len() ==> r == 0 && final(out)@ == old(out)@,
        2 + 2 * s.spec_bytes().len() <= old(out)@.len() ==> {
            &&& r == 2 + 2 * s.spec_bytes().len()
            &&& final(out)@ == string_descriptor(s.spec_bytes()) + old(out)@.skip(r as int)
        },
{
    let bytes = s.as_bytes();
    let len = bytes.len();
    if out.len() < 2 || len > (out.len() - 2) / 2 {
        return 0;
    }
    let total_len = 2 + len * 2;
    out[0] = #[verifier::truncate] (total_len as u8);
    out[1] = DESC_STRING;
    let mut i: usize = 0;
    while i < len
        invariant
            bytes@ == s.spec_bytes(),
            len == bytes@.len(),
            total_len == 2 + 2 * len,
            total_len <= out@.len(),
            i <= len,
            out@.len() == old(out)@.len(),
            out@[0] == (2 + 2 * len) as u8,
            out@[1] == DESC_STRING,
            forall|k: int| 0 <= k < 2 * i ==> #[trigger] out@[2 + k] == (if k % 2 == 0 {
                bytes@[k / 2]
            } else {
                0u8
            }),
            forall|k: int| total_len <= k < out@.len() ==> out@[k] == old(out)@[k],
        decreases len - i,
    {
        out[2 + i * 2] = bytes[i];
        out[3 + i * 2] = 0;
        i = i + 1;
    }
    let ghost expected = string_descriptor(s.spec_bytes()) + old(out)@.skip(total_len as int);
    assert forall|k: int| 0 <= k < out@.len() implies out@[k] == expected[k] by {
        if k >= 2 && k < total_len {
            assert(out@[2 + (k - 2)] == out@[k]);
        }
    }
    assert(out@ =~= expected);
    total_len
}


/// The descriptors have the lengths they declare: 18 bytes for the device
/// descriptor, and the configuration descriptor's total length (129) in
/// its bytes 2 and 3.
pub proof fn lemma_descriptor_lengths(cfg: UsbDeviceConfig)
    ensures
        device_descriptor(cfg).len() == 18,
        device_descriptor(cfg)[0] == 18,
        config_descriptor(cfg).len() == CONFIG_DESCRIPTOR_LEN,
        config_descriptor(cfg)[2] == 129,
        config_descriptor(cfg)[3] == 0,
{
    assert(config_descriptor(cfg).len() == 129);
}

/// A string descriptor declares its own length: two header bytes and two
/// bytes per character.
pub proof fn lemma_string_descriptor_length(s: Seq<u8>)
    requires
        2 + 2 * s.len() <= 255,
    ensures
        string_descriptor(s).len() == 2 + 2 * s.len(),
        string_descriptor(s)[0] == 2 + 2 * s.len(),
        string_descriptor(s)[1] == DESC_STRING,
{
}

} // verus!
