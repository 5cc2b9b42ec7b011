pub mod queues;
pub mod descriptors;
pub mod control;
pub mod pma;
pub mod midi;
pub mod otg;
use vstd::prelude::*;
use crate::events::MidiEvent;
use crate::usb::midi::{SysexMessage, UsbMidiPacket};
use crate::usb::queues::UsbQueues;
use crate::usb::control::ControlState;

verus! {

/// Identity and endpoint layout of a USB MIDI device.
#[derive(Copy, Clone)]
pub struct UsbDeviceConfig {
    pub vendor_id: u16,
    pub product_id: u16,
    pub bcd_device: u16,
    pub ep0_max_packet_size: u8,
    pub max_power_ma: u16,
    pub manufacturer: &'static str,
    pub product: &'static str,
    pub serial_number: &'static str,
    pub port1_name: &'static str,
    pub port2_name: &'static str,
    pub use_ep2_for_out: bool,
}

/// Brings endpoint 0 up with a device configuration.
pub fn init(control: &mut ControlState, cfg: &UsbDeviceConfig)
    ensures
        final(control).initialised_from(old(control), *cfg),
{
    control.init(cfg);
}

/// The event queues in their power-up state: all empty.
pub fn init_event_queues() -> (r: UsbQueues)
    ensures
        r.wf(),
        r.midi_rx.items().len() == 0,
        r.sysex_rx.items().len() == 0,
        r.midi_tx.items().len() == 0,
{
    UsbQueues::new()
}

/// Oldest MIDI event received over USB, if any.
pub fn dequeue_midi_event(queues: &mut UsbQueues) -> (r: Option<MidiEvent>)
    requires
        old(queues).wf(),
    ensures
        final(queues).wf(),
        final(queues).sysex_rx.items() == old(queues).sysex_rx.items(),
        final(queues).midi_tx.items() == old(queues).midi_tx.items(),
        old(queues).midi_rx.items().len() == 0 ==> r is None
            && final(queues).midi_rx.items() == old(queues).midi_rx.items(),
        old(queues).midi_rx.items().len() > 0 ==> r == Some(old(queues).midi_rx.items()[0])
            && final(queues).midi_rx.items() == old(queues).midi_rx.items().drop_first(),
{
    queues.midi_rx.pop()
}

/// Oldest system exclusive message received over USB, if any.
pub fn dequeue_sysex_message(queues: &mut UsbQueues) -> (r: Option<SysexMessage>)
    requires
        old(queues).wf(),
    ensures
        final(queues).wf(),
        final(queues).midi_rx.items() == old(queues).midi_rx.items(),
        final(queues).midi_tx.items() == old(queues).midi_tx.items(),
        old(queues).sysex_rx.items().len() == 0 ==> r is None
            && final(queues).sysex_rx.items() == old(queues).sysex_rx.items(),
        old(queues).sysex_rx.items().len() > 0 ==> r == Some(old(queues).sysex_rx.items()[0])
            && final(queues).sysex_rx.items() == old(queues).sysex_rx.items().drop_first(),
{
    queues.sysex_rx.pop()
}

/// Queues encoded packets for sending, all of them or, when they do not
/// all fit, none.
pub fn enqueue_tx_packets(queues: &mut UsbQueues, packets: &[UsbMidiPacket]) -> (r: Result<(), ()>)
    requires
        old(queues).wf(),
    ensures
        final(queues).wf(),
        final(queues).midi_rx.items() == old(queues).midi_rx.items(),
        final(queues).sysex_rx.items() == old(queues).sysex_rx.items(),
        (r is Ok) == (old(queues).midi_tx.items().len() + packets@.len() <= 63),
        r is Ok ==> final(queues).midi_tx.items() == old(queues).midi_tx.items() + packets@,
        r is Err ==> final(queues).midi_tx.items() == old(queues).midi_tx.items(),
{
    if queues.midi_tx.free_space() < packets.len() {
        return Err(());
    }
    let ghost start = queues.midi_tx.items();
    let mut i: usize = 0;
    while i < packets.len()
        invariant
            queues.wf(),
            i <= packets@.len(),
            start.len() + packets@.len() <= 63,
            queues.midi_tx.items() == start + packets@.take(i as int),
            queues.midi_rx.items() == old(queues).midi_rx.items(),
            queues.sysex_rx.items() == old(queues).sysex_rx.items(),
        decreases packets@.len() - i,
    {
        let pushed = queues.midi_tx.push(packets[i]);
        assert(pushed);
        i = i + 1;
        assert(start + packets@.take(i as int) =~= (start + packets@.take(i - 1)).push(packets@[i - 1]));
    }
    assert(packets@.take(packets@.len() as int) =~= packets@);
    Ok(())
}

/// The 4-byte packets concatenated.
pub open spec fn packet_bytes(packets: Seq<UsbMidiPacket>) -> Seq<u8>
    decreases packets.len(),
{
    if packets.len() == 0 {
        Seq::empty()
    } else {
        packet_bytes(packets.drop_last()) + packets.last().data@
    }
}

/// Takes up to 16 queued packets, oldest first, as one 64-byte-at-most
/// payload for the IN endpoint.
pub fn take_tx_payload(queues: &mut UsbQueues) -> (r: Vec<u8>)
    requires
        old(queues).wf(),
    ensures
        final(queues).wf(),
        final(queues).midi_rx.items() == old(queues).midi_rx.items(),
        final(queues).sysex_rx.items() == old(queues).sysex_rx.items(),
        ({
            let q = old(queues).midi_tx.items();
            let n: int = if q.len() < 16 { q.len() as int } else { 16 };
            &&& r@ == packet_bytes(q.take(n))
            &&& final(queues).midi_tx.items() == q.skip(n)
        }),
{
    let ghost q = queues.midi_tx.items();
    let mut payload: Vec<u8> = Vec::new();
    let mut count: usize = 0;
    while count < 16
        invariant
            queues.wf(),
            count <= 16,
            count <= q.len(),
            queues.midi_tx.items() == q.skip(count as int),
            payload@ == packet_bytes(q.take(count as int)),
            queues.midi_rx.items() == old(queues).midi_rx.items(),
            queues.sysex_rx.items() == old(queues).sysex_rx.items(),
        ensures
            count == 16 || count == q.len(),
        decreases 16 - count,
    {
        match queues.midi_tx.pop() {
            Some(packet) => {
                payload.push(packet.data[0]);
                payload.push(packet.data[1]);
                payload.push(packet.data[2]);
                payload.push(packet.data[3]);
                proof {
                    assert(q.take(count + 1).drop_last() =~= q.take(count as int));
                    assert(packet.data@ =~= seq![packet.data@[0], packet.data@[1], packet.data@[2], packet.data@[3]]);
                    assert(payload@ =~= packet_bytes(q.take(count as int)) + packet.data@);
                }
                count = count + 1;
                assert(q.skip(count as int) =~= q.skip(count - 1).drop_first());
            },
            None => {
                break;
            },
        }
    }
    payload
}

} // verus!
