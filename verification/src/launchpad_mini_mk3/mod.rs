pub mod buttons;
pub mod grid;
