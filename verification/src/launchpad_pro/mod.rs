pub mod din;
pub mod usb;
pub mod inputs;
pub mod leds;
pub mod grid;
