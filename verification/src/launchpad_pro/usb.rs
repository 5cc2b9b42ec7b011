use vstd::prelude::*;
use crate::usb::UsbDeviceConfig;
use crate::usb::control::ControlState;

verus! {

/// USB identity of this device.
pub open spec fn device_config() -> UsbDeviceConfig {
    UsbDeviceConfig {
        vendor_id: 0x1235,
        product_id: 0x0051,
        bcd_device: 0x0200,
        ep0_max_packet_size: 8,
        max_power_ma: 500,
        manufacturer: "Focusrite A.E. Ltd",
        product: "Launchpad Pro",
        serial_number: "COREFW-PRO",
        port1_name: "PRO (DAW)",
        port2_name: "PRO (MIDI)",
        use_ep2_for_out: false,
    }
}

pub fn usb_config() -> (r: UsbDeviceConfig)
    ensures
        r == device_config(),
{
    UsbDeviceConfig {
        vendor_id: 0x1235,
        product_id: 0x0051,
        bcd_device: 0x0200,
        ep0_max_packet_size: 8,
        max_power_ma: 500,
        manufacturer: "Focusrite A.E. Ltd",
        product: "Launchpad Pro",
        serial_number: "COREFW-PRO",
        port1_name: "PRO (DAW)",
        port2_name: "PRO (MIDI)",
        use_ep2_for_out: false,
    }
}

/// Brings endpoint 0 up with this device's identity.
pub fn init(control: &mut ControlState)
    ensures
        final(control).initialised_from(old(control), device_config()),
{
    let cfg = usb_config();
    control.init(&cfg);
}

} // verus!
