use vstd::prelude::*;
use crate::events::MidiPort;

verus! {

/// Number of LED addresses a surface driver accepts.
pub const LED_ADDRESS_COUNT: usize = 256;

/// The last command the surface driver received for one LED address.
#[derive(Copy, Clone, PartialEq, Eq, Structural, Debug)]
pub enum LedCommand {
    /// Nothing written since power-up.
    Unset,
    /// `set_led`: a packed 0xRRGGBB color.
    Color(u32),
    /// `set_rgb_led`: 6-bit channels.
    Rgb(u8, u8, u8),
    /// `set_led_raw`: 6-bit channels written without any remapping.
    Raw(u8, u8, u8),
}

/// What the surface driver shows: one command per LED address.
pub struct LedOutput {
    cells: Vec<LedCommand>,
}

impl View for LedOutput {
    type V = Seq<LedCommand>;

    closed spec fn view(&self) -> Seq<LedCommand> {
        self.cells@
    }
}

impl LedOutput {
    pub open spec fn wf(&self) -> bool {
        self@.len() == LED_ADDRESS_COUNT
    }

    pub fn new() -> (r: Self)
        ensures
            r.wf(),
            r@ == Seq::new(LED_ADDRESS_COUNT as nat, |i: int| LedCommand::Unset),
    {
        let mut cells: Vec<LedCommand> = Vec::new();
        let mut i: usize = 0;
        while i < LED_ADDRESS_COUNT
            invariant
                i <= LED_ADDRESS_COUNT,
                cells@ == Seq::new(i as nat, |k: int| LedCommand::Unset),
            decreases LED_ADDRESS_COUNT - i,
        {
            cells.push(LedCommand::Unset);
            i = i + 1;
        }
        LedOutput { cells }
    }

    /// Last command for one LED address.
    pub fn get(&self, index: u8) -> (r: LedCommand)
        requires
            self.wf(),
        ensures
            r == self@[index as int],
    {
        self.cells[index as usize]
    }

    pub fn set_led(&mut self, index: u8, color: u32)
        requires
            old(self).wf(),
        ensures
            final(self).wf(),
            final(self)@ == old(self)@.update(index as int, LedCommand::Color(color)),
    {
        self.cells.set(index as usize, LedCommand::Color(color));
    }

    pub fn set_rgb_led(&mut self, index: u8, r: u8, g: u8, b: u8)
        requires
            old(self).wf(),
        ensures
            final(self).wf(),
            final(self)@ == old(self)@.update(index as int, LedCommand::Rgb(r, g, b)),
    {
        self.cells.set(index as usize, LedCommand::Rgb(r, g, b));
    }

    pub fn set_led_raw(&mut self, index: u8, r: u8, g: u8, b: u8)
        requires
            old(self).wf(),
        ensures
            final(self).wf(),
            final(self)@ == old(self)@.update(index as int, LedCommand::Raw(r, g, b)),
    {
        self.cells.set(index as usize, LedCommand::Raw(r, g, b));
    }

    pub fn fill(&mut self, color: u32)
        requires
            old(self).wf(),
        ensures
            final(self).wf(),
            final(self)@ == Seq::new(LED_ADDRESS_COUNT as nat, |i: int| LedCommand::Color(color)),
    {
        let mut i: usize = 0;
        while i < LED_ADDRESS_COUNT
            invariant
                i <= LED_ADDRESS_COUNT,
                self.cells.len() == LED_ADDRESS_COUNT,
                forall|k: int| 0 <= k < i ==> self.cells@[k] == LedCommand::Color(color),
            decreases LED_ADDRESS_COUNT - i,
        {
            self.cells.set(i, LedCommand::Color(color));
            i = i + 1;
        }
        assert(self.cells@ =~= Seq::new(LED_ADDRESS_COUNT as nat, |k: int| LedCommand::Color(color)));
    }
}

/// A MIDI message handed to the driver for sending.
#[derive(Debug, Clone)]
pub struct SentMidi {
    pub port: MidiPort,
    pub data: Vec<u8>,
}

/// The driver as the apps see it: LED output, brightness, and the MIDI
/// messages they asked to send, in order.
pub struct Driver {
    pub leds: LedOutput,
    pub brightness: u8,
    pub highspeed_leds: bool,
    pub sent: Vec<SentMidi>,
}

impl Driver {
    pub open spec fn wf(&self) -> bool {
        self.leds.wf()
    }

    /// The MIDI messages sent so far, as (port, bytes) pairs.
    pub open spec fn sent_messages(&self) -> Seq<(MidiPort, Seq<u8>)> {
        self.sent@.map_values(|m: SentMidi| (m.port, m.data@))
    }

    pub fn new(brightness: u8, highspeed_leds: bool) -> (r: Self)
        ensures
            r.wf(),
            r.leds@ == Seq::new(LED_ADDRESS_COUNT as nat, |i: int| LedCommand::Unset),
            r.brightness == brightness,
            r.highspeed_leds == highspeed_leds,
            r.sent_messages() == Seq::<(MidiPort, Seq<u8>)>::empty(),
    {
        let r = Driver { leds: LedOutput::new(), brightness, highspeed_leds, sent: Vec::new() };
        assert(r.sent_messages() =~= Seq::<(MidiPort, Seq<u8>)>::empty());
        r
    }

    pub fn send_midi(&mut self, port: MidiPort, data: &[u8])
        ensures
            final(self).leds@ == old(self).leds@,
            final(self).leds.wf() == old(self).leds.wf(),
            final(self).brightness == old(self).brightness,
            final(self).highspeed_leds == old(self).highspeed_leds,
            final(self).sent_messages() == old(self).sent_messages().push((port, data@)),
    {
        let mut bytes: Vec<u8> = Vec::new();
        let mut i: usize = 0;
        while i < data.len()
            invariant
                i <= data@.len(),
                bytes@ == data@.take(i as int),
            decreases data@.len() - i,
        {
            bytes.push(data[i]);
            i = i + 1;
            assert(bytes@ =~= data@.take(i as int));
        }
        assert(bytes@ =~= data@);
        self.sent.push(SentMidi { port, data: bytes });
        assert(self.sent_messages() =~= old(self).sent_messages().push((port, data@)));
    }

    pub fn brightness(&self) -> (r: u8)
        ensures
            r == self.brightness,
    {
        self.brightness
    }

    pub fn set_brightness(&mut self, brightness: u8)
        ensures
            final(self).brightness == brightness,
            final(self).leds@ == old(self).leds@,
            final(self).leds.wf() == old(self).leds.wf(),
            final(self).highspeed_leds == old(self).highspeed_leds,
            final(self).sent_messages() == old(self).sent_messages(),
    {
        self.brightness = brightness;
    }

    pub fn highspeed_leds_enabled(&self) -> (r: bool)
        ensures
            r == self.highspeed_leds,
    {
        self.highspeed_leds
    }
}

} // verus!
