pub mod usb;
pub mod hw;
