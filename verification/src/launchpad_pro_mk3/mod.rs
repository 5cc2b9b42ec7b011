pub mod input_filter;
pub mod map;
pub mod runtime;
pub mod usb;
pub mod led;
