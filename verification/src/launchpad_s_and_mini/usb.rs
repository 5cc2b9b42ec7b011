use vstd::prelude::*;
use crate::usb::UsbDeviceConfig;
use crate::usb::control::ControlState;

verus! {

/// The two devices that share this hardware.
#[derive(Copy, Clone, PartialEq, Eq, Structural, Debug)]
pub enum Model {
    LaunchpadS,
    LaunchpadMiniMk1,
}

/// USB identity of the Launchpad S.
pub open spec fn launchpad_s_config() -> UsbDeviceConfig {
    UsbDeviceConfig {
        vendor_id: 0x1235,
        product_id: 0x0020,
        bcd_device: 0x0001,
        ep0_max_packet_size: 64,
        max_power_ma: 60,
        manufacturer: "Focusrite A.E. Ltd",
        product: "Launchpad S",
        serial_number: "COREFW-LPS",
        port1_name: "LPS (DAW)",
        port2_name: "LPS (MIDI)",
        use_ep2_for_out: true,
    }
}

pub fn usb_config_launchpad_s() -> (r: UsbDeviceConfig)
    ensures
        r == launchpad_s_config(),
{
    UsbDeviceConfig {
        vendor_id: 0x1235,
        product_id: 0x0020,
        bcd_device: 0x0001,
        ep0_max_packet_size: 64,
        max_power_ma: 60,
        manufacturer: "Focusrite A.E. Ltd",
        product: "Launchpad S",
        serial_number: "COREFW-LPS",
        port1_name: "LPS (DAW)",
        port2_name: "LPS (MIDI)",
        use_ep2_for_out: true,
    }
}

/// USB identity of the Launchpad Mini (first generation).
pub open spec fn mini_mk1_config() -> UsbDeviceConfig {
    UsbDeviceConfig {
        vendor_id: 0x1235,
        product_id: 0x0036,
        bcd_device: 0x0001,
        ep0_max_packet_size: 64,
        max_power_ma: 60,
        manufacturer: "Focusrite A.E. Ltd",
        product: "Launchpad Mini",
        serial_number: "COREFW-MINI",
        port1_name: "MINI (DAW)",
        port2_name: "MINI (MIDI)",
        use_ep2_for_out: true,
    }
}

pub fn usb_config_mini_mk1() -> (r: UsbDeviceConfig)
    ensures
        r == mini_mk1_config(),
{
    UsbDeviceConfig {
        vendor_id: 0x1235,
        product_id: 0x0036,
        bcd_device: 0x0001,
        ep0_max_packet_size: 64,
        max_power_ma: 60,
        manufacturer: "Focusrite A.E. Ltd",
        product: "Launchpad Mini",
        serial_number: "COREFW-MINI",
        port1_name: "MINI (DAW)",
        port2_name: "MINI (MIDI)",
        use_ep2_for_out: true,
    }
}

/// USB identity of a model.
pub open spec fn model_config(model: Model) -> UsbDeviceConfig {
    match model {
        Model::LaunchpadS => launchpad_s_config(),
        Model::LaunchpadMiniMk1 => mini_mk1_config(),
    }
}

pub fn usb_config(model: Model) -> (r: UsbDeviceConfig)
    ensures
        r == model_config(model),
{
    match model {
        Model::LaunchpadS => usb_config_launchpad_s(),
        Model::LaunchpadMiniMk1 => usb_config_mini_mk1(),
    }
}

/// Brings endpoint 0 up with the model's identity.
pub fn init(control: &mut ControlState, model: Model)
    ensures
        final(control).initialised_from(old(control), model_config(model)),
{
    let cfg = usb_config(model);
    control.init(&cfg);
}

} // verus!
