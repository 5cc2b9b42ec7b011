use vstd::prelude::*;
use vstd::string::StringSliceAdditionalSpecFns;
use crate::usb::UsbDeviceConfig;
use crate::usb::descriptors::{
    build_config_descriptor, build_device_descriptor, config_descriptor, device_descriptor,
    encode_string_descriptor, string_descriptor, DESC_CONFIGURATION, DESC_DEVICE, DESC_STRING,
    STRING_LANG_ID,
};

verus! {

pub const REQ_GET_STATUS: u8 = 0x00;
pub const REQ_CLEAR_FEATURE: u8 = 0x01;
pub const REQ_SET_ADDRESS: u8 = 0x05;
pub const REQ_GET_DESCRIPTOR: u8 = 0x06;
pub const REQ_GET_CONFIGURATION: u8 = 0x08;
pub const REQ_SET_CONFIGURATION: u8 = 0x09;
pub const REQ_GET_INTERFACE: u8 = 0x0a;
pub const REQ_SET_INTERFACE: u8 = 0x0b;

/// State of endpoint 0: the device's descriptors, its address and
/// configuration, and the control read in progress.
pub struct ControlState {
    pub cfg: Option<UsbDeviceConfig>,
    pub configuration: u8,
    pub pending_address: u8,
    /// Bytes of the current control read.
    pub tx_data: Vec<u8>,
    /// How many of them the host gets.
    pub tx_len: usize,
    /// How many of them were handed out so far.
    pub tx_pos: usize,
    /// A zero-length packet still ends the transfer.
    pub tx_zlp: bool,
    pub control_buf: [u8; 64],
    pub device_desc: [u8; 18],
    pub config_desc: [u8; 129],
    pub inited: bool,
}

/// What endpoint 0 answers a SETUP packet with.
pub enum SetupAction {
    /// Send the first packet of a control read.
    SendPacket { data: Vec<u8> },
    /// Acknowledge with an empty status stage.
    StatusIn,
    Stall,
    /// The host selected a configuration (0 deconfigures).
    ConfigurationChanged(u8),
}

/// A `SetupAction` with its packet taken as a sequence.
pub enum SetupReply {
    SendPacket(Seq<u8>),
    StatusIn,
    Stall,
    ConfigurationChanged(u8),
}

impl View for SetupAction {
    type V = SetupReply;

    open spec fn view(&self) -> SetupReply {
        match self {
            SetupAction::SendPacket { data } => SetupReply::SendPacket(data@),
            SetupAction::StatusIn => SetupReply::StatusIn,
            SetupAction::Stall => SetupReply::Stall,
            SetupAction::ConfigurationChanged(c) => SetupReply::ConfigurationChanged(*c),
        }
    }
}

/// Largest packet endpoint 0 sends: the configured size, 64 before `init`.
pub open spec fn ep0_max(cfg: Option<UsbDeviceConfig>) -> int {
    match cfg {
        Some(c) => c.ep0_max_packet_size as int,
        None => 64,
    }
}

pub open spec fn min_int(a: int, b: int) -> int {
    if a < b { a } else { b }
}

/// The bytes of string descriptor `index` (1..=5) before encoding.
pub open spec fn string_text(cfg: UsbDeviceConfig, index: u8) -> Seq<u8> {
    if index == 1 {
        cfg.manufacturer.spec_bytes()
    } else if index == 2 {
        cfg.product.spec_bytes()
    } else if index == 3 {
        cfg.serial_number.spec_bytes()
    } else if index == 4 {
        cfg.port1_name.spec_bytes()
    } else {
        cfg.port2_name.spec_bytes()
    }
}

pub open spec fn lang_id_descriptor() -> Seq<u8> {
    seq![4u8, DESC_STRING, 0x09, 0x04]
}

/// What a SETUP packet asks of the control state.
pub enum SetupOutcome {
    Stall,
    StatusIn,
    SetAddress(u8),
    SetConfiguration(u8),
    /// A control read of `data`, after the control buffer became `buf`.
    Read { buf: Seq<u8>, data: Seq<u8>, requested: int },
}

/// A standard GET_DESCRIPTOR request: the new control buffer and the
/// descriptor bytes, or `None` for a descriptor the device does not have.
/// A string too long for the control buffer reads as empty.
pub open spec fn descriptor_read(s: &ControlState, cfg: UsbDeviceConfig, desc_type: u8, desc_index: u8) -> Option<(Seq<u8>, Seq<u8>)> {
    let buf = s.control_buf@;
    if desc_type == DESC_DEVICE && desc_index == 0 {
        Some((buf, s.device_desc@))
    } else if desc_type == DESC_CONFIGURATION && desc_index == 0 {
        Some((buf, s.config_desc@))
    } else if desc_type == DESC_STRING && desc_index == 0 {
        let b = lang_id_descriptor() + buf.skip(4);
        Some((b, b.take(4)))
    } else if desc_type == DESC_STRING && 1 <= desc_index <= 5 {
        let text = string_text(cfg, desc_index);
        let n: int = 2 + 2 * (text.len() as int);
        if n <= 64 {
            let b = string_descriptor(text) + buf.skip(n);
            Some((b, b.take(n)))
        } else {
            Some((buf, Seq::<u8>::empty()))
        }
    } else {
        None
    }
}

/// How the control state answers a standard SETUP packet.
pub open spec fn setup_outcome(s: &ControlState, setup: Seq<u8>) -> SetupOutcome {
    let request_type = setup[0];
    let request = setup[1];
    let value = setup[2] + 256 * setup[3];
    let index = setup[4] + 256 * setup[5];
    let length = setup[6] + 256 * setup[7];
    let to_host = request_type & 0x80 != 0;
    let buf = s.control_buf@;
    match s.cfg {
        None => SetupOutcome::Stall,
        Some(cfg) => if request_type & 0x60 != 0 {
            SetupOutcome::Stall
        } else if to_host && request == REQ_GET_DESCRIPTOR {
            match descriptor_read(s, cfg, setup[3], setup[2]) {
                Some((b, data)) => SetupOutcome::Read { buf: b, data, requested: length },
                None => SetupOutcome::Stall,
            }
        } else if !to_host && request == REQ_SET_ADDRESS {
            SetupOutcome::SetAddress((setup[2] & 0x7f) as u8)
        } else if !to_host && request == REQ_SET_CONFIGURATION && value <= 1 {
            SetupOutcome::SetConfiguration(value as u8)
        } else if to_host && request == REQ_GET_CONFIGURATION {
            let b = buf.update(0, s.configuration);
            SetupOutcome::Read { buf: b, data: b.take(1), requested: length }
        } else if to_host && request == REQ_GET_STATUS {
            let b = buf.update(0, 0u8).update(1, 0u8);
            SetupOutcome::Read { buf: b, data: b.take(2), requested: length }
        } else if !to_host && request == REQ_CLEAR_FEATURE {
            SetupOutcome::StatusIn
        } else if to_host && request == REQ_GET_INTERFACE && index <= 1 {
            let b = buf.update(0, 0u8);
            SetupOutcome::Read { buf: b, data: b.take(1), requested: length }
        } else if !to_host && request == REQ_SET_INTERFACE && index <= 1 && value == 0 {
            SetupOutcome::StatusIn
        } else {
            SetupOutcome::Stall
        },
    }
}

impl ControlState {
    pub open spec fn wf(&self) -> bool {
        &&& self.tx_len <= self.tx_data@.len()
        &&& self.tx_pos <= self.tx_len
    }

    /// Descriptors, address, configuration and the `inited` flag agree.
    pub open spec fn same_device(&self, other: &ControlState) -> bool {
        &&& self.cfg == other.cfg
        &&& self.configuration == other.configuration
        &&& self.pending_address == other.pending_address
        &&& self.device_desc@ == other.device_desc@
        &&& self.config_desc@ == other.config_desc@
        &&& self.inited == other.inited
    }

    /// The control read in progress agrees.
    pub open spec fn same_transfer(&self, other: &ControlState) -> bool {
        &&& self.tx_data@ == other.tx_data@
        &&& self.tx_len == other.tx_len
        &&& self.tx_pos == other.tx_pos
        &&& self.tx_zlp == other.tx_zlp
    }

    /// `new` after a control read of `data` of which the host asked for
    /// `requested` bytes was started from `old`, answering `reply`.
    pub open spec fn read_started(old: &ControlState, new: &ControlState, data: Seq<u8>, requested: int, reply: SetupReply) -> bool {
        let tx_len = min_int(data.len() as int, requested);
        let first = min_int(tx_len, ep0_max(old.cfg));
        &&& new.same_device(old)
        &&& new.tx_data@ == data
        &&& new.tx_len == tx_len
        &&& new.tx_pos == first
        &&& new.tx_zlp == (tx_len != 0 && tx_len % ep0_max(old.cfg) == 0 && requested > tx_len)
        &&& reply == SetupReply::SendPacket(data.take(first))
    }

    /// `self` is `old` after taking the configuration `cfg`.
    pub open spec fn initialised_from(&self, old: &ControlState, cfg: UsbDeviceConfig) -> bool {
        &&& self.wf()
        &&& self.cfg == Some(cfg)
        &&& self.device_desc@ == device_descriptor(cfg)
        &&& self.config_desc@ == config_descriptor(cfg)
        &&& self.inited
        &&& self.configuration == 0
        &&& self.pending_address == 0
        &&& self.tx_data@.len() == 0
        &&& self.tx_len == 0
        &&& self.tx_pos == 0
        &&& !self.tx_zlp
        &&& self.control_buf@ == old.control_buf@
    }

    pub fn new() -> (r: Self)
        ensures
            r.wf(),
            r.cfg is None,
            r.configuration == 0,
            r.pending_address == 0,
            r.tx_data@.len() == 0,
            r.tx_len == 0,
            r.tx_pos == 0,
            !r.tx_zlp,
            r.control_buf@ == Seq::new(64, |i: int| 0u8),
            r.device_desc@ == Seq::new(18, |i: int| 0u8),
            r.config_desc@ == Seq::new(129, |i: int| 0u8),
            !r.inited,
    {
        let r = ControlState {
            cfg: None,
            configuration: 0,
            pending_address: 0,
            tx_data: Vec::new(),
            tx_len: 0,
            tx_pos: 0,
            tx_zlp: false,
            control_buf: [0; 64],
            device_desc: [0; 18],
            config_desc: [0; 129],
            inited: false,
        };
        assert(r.control_buf@ =~= Seq::new(64, |i: int| 0u8));
        assert(r.device_desc@ =~= Seq::new(18, |i: int| 0u8));
        assert(r.config_desc@ =~= Seq::new(129, |i: int| 0u8));
        r
    }

    /// Takes a device configuration: builds its descriptors and resets
    /// address, configuration and any transfer in progress.
    pub fn init(&mut self, cfg: &UsbDeviceConfig)
        ensures
            final(self).initialised_from(old(self), *cfg),
    {
        self.cfg = Some(*cfg);
        build_device_descriptor(cfg, &mut self.device_desc);
        build_config_descriptor(cfg, &mut self.config_desc);
        self.inited = true;
        self.configuration = 0;
        self.pending_address = 0;
        self.tx_data = Vec::new();
        self.tx_len = 0;
        self.tx_pos = 0;
        self.tx_zlp = false;
    }
}

fn min_usize(a: usize, b: usize) -> (r: usize)
    ensures
        r == min_int(a as int, b as int),
{
    if a < b { a } else { b }
}

/// The first `n` bytes of `data`.
fn copy_prefix(data: &[u8], n: usize) -> (r: Vec<u8>)
    requires
        n <= data@.len(),
    ensures
        r@ == data@.take(n as int),
{
    copy_range(data, 0, n)
}

/// Bytes `start..end` of `data`.
fn copy_range(data: &[u8], start: usize, end: usize) -> (r: Vec<u8>)
    requires
        start <= end <= data@.len(),
    ensures
        r@ == data@.subrange(start as int, end as int),
{
    let mut r: Vec<u8> = Vec::new();
    let mut i: usize = start;
    while i < end
        invariant
            start <= i <= end,
            end <= data@.len(),
            r@ == data@.subrange(start as int, i as int),
        decreases end - i,
    {
        r.push(data[i]);
        i = i + 1;
        assert(r@ =~= data@.subrange(start as int, i as int));
    }
    r
}

/// Starts a control read of `data`, of which the host asked for
/// `requested_len` bytes, and returns its first packet.
pub fn start_control_read(state: &mut ControlState, data: &[u8], requested_len: usize) -> (r: SetupAction)
    requires
        ep0_max(old(state).cfg) > 0 || min_int(data@.len() as int, requested_len as int) == 0,
    ensures
        final(state).wf(),
        final(state).control_buf@ == old(state).control_buf@,
        ControlState::read_started(old(state), final(state), data@, requested_len as int, r@),
{
    let ep0_max: usize = match state.cfg {
        Some(c) => c.ep0_max_packet_size as usize,
        None => 64,
    };
    let tx_len = min_usize(data.len(), requested_len);
    state.tx_data = copy_prefix(data, data.len());
    state.tx_len = tx_len;
    state.tx_pos = 0;
    state.tx_zlp = tx_len != 0 && tx_len % ep0_max == 0 && requested_len > tx_len;
    let len = min_usize(tx_len, ep0_max);
    state.tx_pos = state.tx_pos + len;
    assert(data@.take(data@.len() as int) =~= data@);
    SetupAction::SendPacket { data: copy_prefix(data, len) }
}

/// The next packet of the control read in progress: the following bytes, a
/// final zero-length packet where one is due, or `None` when it is over.
pub fn next_ep0_chunk(state: &mut ControlState) -> (r: Option<Vec<u8>>)
    requires
        old(state).wf(),
    ensures
        final(state).wf(),
        final(state).same_device(old(state)),
        final(state).control_buf@ == old(state).control_buf@,
        final(state).tx_data@ == old(state).tx_data@,
        final(state).tx_len == old(state).tx_len,
        old(state).tx_pos < old(state).tx_len ==> {
            let n = min_int(old(state).tx_len - old(state).tx_pos, ep0_max(old(state).cfg));
            &&& final(state).tx_pos == old(state).tx_pos + n
            &&& final(state).tx_zlp == old(state).tx_zlp
            &&& r matches Some(chunk) && chunk@ == old(state).tx_data@.subrange(
                old(state).tx_pos as int,
                old(state).tx_pos + n,
            )
        },
        old(state).tx_pos == old(state).tx_len && old(state).tx_zlp ==> {
            &&& final(state).tx_pos == old(state).tx_pos
            &&& !final(state).tx_zlp
            &&& r matches Some(chunk) && chunk@.len() == 0
        },
        old(state).tx_pos == old(state).tx_len && !old(state).tx_zlp ==> {
            &&& final(state).same_transfer(old(state))
            &&& r is None
        },
{
    let ep0_max: usize = match state.cfg {
        Some(c) => c.ep0_max_packet_size as usize,
        None => 64,
    };
    let remain = state.tx_len - state.tx_pos;
    if remain > 0 {
        let len = min_usize(remain, ep0_max);
        let chunk = copy_range(state.tx_data.as_slice(), state.tx_pos, state.tx_pos + len);
        state.tx_pos = state.tx_pos + len;
        Some(chunk)
    } else if state.tx_zlp {
        state.tx_zlp = false;
        Some(Vec::new())
    } else {
        None
    }
}

/// Encodes string descriptor `index` (1..=5) of `cfg` into `buf`.
fn encode_config_string(cfg: &UsbDeviceConfig, index: u8, buf: &mut [u8; 64]) -> (r: usize)
    requires
        1 <= index <= 5,
    ensures
        ({
            let text = string_text(*cfg, index);
            let n: int = 2 + 2 * (text.len() as int);
            &&& n > 64 ==> r == 0 && final(buf)@ == old(buf)@
            &&& n <= 64 ==> r == n && final(buf)@ == string_descriptor(text) + old(buf)@.skip(n)
        }),
{
    let text: &str = if index == 1 {
        cfg.manufacturer
    } else if index == 2 {
        cfg.product
    } else if index == 3 {
        cfg.serial_number
    } else if index == 4 {
        cfg.port1_name
    } else {
        cfg.port2_name
    };
    encode_string_descriptor(text, buf)
}

/// Answers a standard SETUP packet on endpoint 0; class and vendor requests
/// stall.
pub fn handle_setup_request(state: &mut ControlState, setup: [u8; 8]) -> (r: SetupAction)
    requires
        old(state).wf(),
        ep0_max(old(state).cfg) > 0 || match setup_outcome(old(state), setup@) {
            SetupOutcome::Read { buf, data, requested } => min_int(data.len() as int, requested) == 0,
            _ => true,
        },
    ensures
        final(state).wf(),
        match setup_outcome(old(state), setup@) {
            SetupOutcome::Stall => {
                &&& r@ == SetupReply::Stall
                &&& final(state).same_device(old(state))
                &&& final(state).same_transfer(old(state))
                &&& final(state).control_buf@ == old(state).control_buf@
            },
            SetupOutcome::StatusIn => {
                &&& r@ == SetupReply::StatusIn
                &&& final(state).same_device(old(state))
                &&& final(state).same_transfer(old(state))
                &&& final(state).control_buf@ == old(state).control_buf@
            },
            SetupOutcome::SetAddress(address) => {
                &&& r@ == SetupReply::StatusIn
                &&& final(state).pending_address == address
                &&& final(state).cfg == old(state).cfg
                &&& final(state).configuration == old(state).configuration
                &&& final(state).device_desc@ == old(state).device_desc@
                &&& final(state).config_desc@ == old(state).config_desc@
                &&& final(state).inited == old(state).inited
                &&& final(state).same_transfer(old(state))
                &&& final(state).control_buf@ == old(state).control_buf@
            },
            SetupOutcome::SetConfiguration(configuration) => {
                &&& r@ == SetupReply::ConfigurationChanged(configuration)
                &&& final(state).configuration == configuration
                &&& final(state).cfg == old(state).cfg
                &&& final(state).pending_address == old(state).pending_address
                &&& final(state).device_desc@ == old(state).device_desc@
                &&& final(state).config_desc@ == old(state).config_desc@
                &&& final(state).inited == old(state).inited
                &&& final(state).same_transfer(old(state))
                &&& final(state).control_buf@ == old(state).control_buf@
            },
            SetupOutcome::Read { buf, data, requested } => {
                &&& final(state).control_buf@ == buf
                &&& ControlState::read_started(old(state), final(state), data, requested, r@)
            },
        },
{
    let cfg = match state.cfg {
        Some(c) => c,
        None => {
            return SetupAction::Stall;
        },
    };
    let bm_request_type = setup[0];
    let request = setup[1];
    let value: u16 = setup[2] as u16 + (setup[3] as u16) * 256;
    let index: u16 = setup[4] as u16 + (setup[5] as u16) * 256;
    let length: usize = setup[6] as usize + (setup[7] as usize) * 256;
    if bm_request_type & 0x60 != 0 {
        return SetupAction::Stall;
    }
    let is_device_to_host = (bm_request_type & 0x80) != 0;
    if is_device_to_host && request == REQ_GET_DESCRIPTOR {
        let desc_type = setup[3];
        let desc_index = setup[2];
        let data: Vec<u8> = if desc_type == DESC_DEVICE && desc_index == 0 {
            let d = copy_prefix(state.device_desc.as_slice(), 18);
            assert(d@ =~= state.device_desc@);
            d
        } else if desc_type == DESC_CONFIGURATION && desc_index == 0 {
            let d = copy_prefix(state.config_desc.as_slice(), 129);
            assert(d@ =~= state.config_desc@);
            d
        } else if desc_type == DESC_STRING {
            let len: usize = if desc_index == 0 {
                state.control_buf[0] = STRING_LANG_ID[0];
                state.control_buf[1] = STRING_LANG_ID[1];
                state.control_buf[2] = STRING_LANG_ID[2];
                state.control_buf[3] = STRING_LANG_ID[3];
                assert(state.control_buf@ =~= lang_id_descriptor() + old(state).control_buf@.skip(4));
                4
            } else if desc_index <= 5 {
                encode_config_string(&cfg, desc_index, &mut state.control_buf)
            } else {
                return SetupAction::Stall;
            };
            let d = copy_prefix(state.control_buf.as_slice(), len);
            if len == 0 {
                assert(d@ =~= Seq::<u8>::empty());
            }
            d
        } else {
            return SetupAction::Stall;
        };
        start_control_read(state, data.as_slice(), length)
    } else if !is_device_to_host && request == REQ_SET_ADDRESS {
        state.pending_address = setup[2] & 0x7f;
        SetupAction::StatusIn
    } else if !is_device_to_host && request == REQ_SET_CONFIGURATION && value <= 1 {
        state.configuration = value as u8;
        SetupAction::ConfigurationChanged(state.configuration)
    } else if is_device_to_host && request == REQ_GET_CONFIGURATION {
        state.control_buf[0] = state.configuration;
        let data = copy_prefix(state.control_buf.as_slice(), 1);
        start_control_read(state, data.as_slice(), length)
    } else if is_device_to_host && request == REQ_GET_STATUS {
        state.control_buf[0] = 0;
        state.control_buf[1] = 0;
        let data = copy_prefix(state.control_buf.as_slice(), 2);
        start_control_read(state, data.as_slice(), length)
    } else if !is_device_to_host && request == REQ_CLEAR_FEATURE {
        SetupAction::StatusIn
    } else if is_device_to_host && request == REQ_GET_INTERFACE && index <= 1 {
        state.control_buf[0] = 0;
        let data = copy_prefix(state.control_buf.as_slice(), 1);
        start_control_read(state, data.as_slice(), length)
    } else if !is_device_to_host && request == REQ_SET_INTERFACE && index <= 1 && value == 0 {
        SetupAction::StatusIn
    } else {
        SetupAction::Stall
    }
}


/// The packets of a control read, in order, spell out its data: the bytes
/// handed out before a chunk, followed by the chunk, are the bytes handed
/// out after it; once everything is handed out, they are the data cut to
/// the length the host asked for.
pub proof fn lemma_control_read_progress(before: ControlState, after: ControlState, chunk: Seq<u8>)
    requires
        before.wf(),
        after.tx_data@ == before.tx_data@,
        before.tx_pos <= after.tx_pos <= before.tx_len,
        chunk == before.tx_data@.subrange(before.tx_pos as int, after.tx_pos as int),
    ensures
        before.tx_data@.take(before.tx_pos as int) + chunk == after.tx_data@.take(after.tx_pos as int),
        after.tx_pos == before.tx_len ==> before.tx_data@.take(before.tx_pos as int) + chunk == before.tx_data@.take(
            before.tx_len as int,
        ),
{
    assert(before.tx_data@.take(before.tx_pos as int) + chunk =~= after.tx_data@.take(after.tx_pos as int));
}

} // verus!
