use vstd::prelude::*;
use crate::events::MidiPort;

verus! {

/// Longest system exclusive message kept, in bytes.
pub const SYSEX_MAX_LEN: usize = 256;

/// One 4-byte USB MIDI event packet: cable and code index, then three bytes.
#[derive(Copy, Clone, Debug)]
pub struct UsbMidiPacket {
    pub data: [u8; 4],
}

impl UsbMidiPacket {
    pub fn empty() -> (r: Self)
        ensures
            r.data@ == seq![0u8, 0, 0, 0],
    {
        let r = UsbMidiPacket { data: [0; 4] };
        assert(r.data@ =~= seq![0u8, 0, 0, 0]);
        r
    }
}

/// A complete system exclusive message: its first `len` bytes of `data`.
#[derive(Copy, Clone)]
pub struct SysexMessage {
    pub port: MidiPort,
    pub data: [u8; 256],
    pub len: usize,
}

impl SysexMessage {
    pub fn empty() -> (r: Self)
        ensures
            r.port == MidiPort::Daw,
            r.len == 0,
            r.data@ == Seq::new(SYSEX_MAX_LEN as nat, |i: int| 0u8),
    {
        let r = SysexMessage { port: MidiPort::Daw, data: [0; 256], len: 0 };
        assert(r.data@ =~= Seq::new(SYSEX_MAX_LEN as nat, |i: int| 0u8));
        r
    }
}

} // verus!
