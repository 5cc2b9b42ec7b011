use vstd::prelude::*;

verus! {

/// The port a MIDI message came from or goes to.
#[derive(Copy, Clone, PartialEq, Eq, Structural, Debug)]
pub enum MidiPort {
    Daw,
    Midi,
    Din,
}

/// A button or pad changed state on the surface.
#[derive(Copy, Clone, PartialEq, Eq, Structural, Debug)]
pub struct SurfaceEvent {
    pub pressed: bool,
    pub index: u8,
    pub value: u8,
}

/// A short (channel or system) MIDI message.
#[derive(Copy, Clone, PartialEq, Eq, Structural, Debug)]
pub struct MidiEvent {
    pub port: MidiPort,
    pub status: u8,
    pub data1: u8,
    pub data2: u8,
}

/// Polyphonic pressure reported by a pad.
#[derive(Copy, Clone, PartialEq, Eq, Structural, Debug)]
pub struct AftertouchEvent {
    pub index: u8,
    pub value: u8,
}

} // verus!
