//! The session: connection tracking and the request/response state machine.
//!
//! A session owns the two value tables and a small amount of protocol state.
//! The host shell drives it with plain values: the enumerated port names on
//! the slow tick, the current time and at most one inbound message on the
//! fast tick.  The session decides everything - which port is the device,
//! when to send which frame, when a request has timed out, which dumps to
//! accept - and hands frames back as byte vectors for the shell to transmit.
//!
//! At most one dump request is outstanding at any time.  A request is
//! abandoned after [`REQUEST_TIMEOUT_MS`]; a dump that arrives later, or one
//! that does not match the outstanding target, is discarded.  For a short
//! window of [`DUMP_GUARD_MS`] after an accepted dump, further dumps are
//! ignored, so that a host application echoing the device's own traffic back
//! cannot be mistaken for a second response.

use vstd::prelude::*;

verus! {

use crate::params::GetValue;
use crate::params::MultiParameter;
use crate::params::MultiParameterValues;
use crate::params::SoundParameter;
use crate::params::SoundParameterValues;
use crate::ports::cleanup_port_name;
use crate::ports::first_device_at;
use crate::ports::is_device_port;
use crate::ports::is_merge_port;
use crate::ports::merge_names_at;
use crate::sysex::multi_dump_value;
use crate::sysex::multi_request;
use crate::sysex::preset_param_dump;
use crate::sysex::preset_param_frame;
use crate::sysex::preset_request;
use crate::sysex::sound_dump_value;
use crate::sysex::unpack_data;
use crate::sysex::unpack_spec;
use crate::sysex::update_multi_params;
use crate::sysex::update_sound_params;
use crate::sysex::MULTI_DUMP_LENGTH;
use crate::sysex::PRESET_DUMP_LENGTH;
use crate::sysex::SERVICE_MULTI_DUMP;
use crate::sysex::SERVICE_MULTI_REQUEST;
use crate::sysex::SERVICE_PRESET_DUMP;
use crate::sysex::SERVICE_PRESET_REQUEST;
use vstd::slice::slice_subrange;

/// An outstanding dump request is abandoned after this many milliseconds.
pub const REQUEST_TIMEOUT_MS: u64 = 1000;

/// Dumps arriving within this many milliseconds of an accepted dump are
/// taken for echoes of it and ignored.
pub const DUMP_GUARD_MS: u64 = 100;

/// The one dump request that may be outstanding: which target id it asked
/// for, and when it was issued.
#[derive(Debug, Clone, Copy, PartialEq, Eq, Structural)]
pub struct PendingRequest {
    /// Target id the request was sent for.
    pub target: u8,
    /// Time the request was sent, in milliseconds.
    pub started_at: u64,
}

/// What one slow tick decided.
pub struct ScanOutcome {
    /// Index of the input port to use for the device, if one is present.
    pub input_port: Option<usize>,
    /// Index of the output port to use for the device, if one is present.
    pub output_port: Option<usize>,
    /// Connection state after the scan.
    pub connected: bool,
    /// The device appeared on this scan.
    pub became_connected: bool,
    /// The device vanished on this scan.
    pub became_disconnected: bool,
}

/// What one fast tick decided.
pub struct FastTickOutcome {
    /// A request frame to transmit to the device, if one is due.
    pub send: Option<Vec<u8>>,
    /// The outstanding request timed out on this tick.
    pub timeout: bool,
    /// An accepted preset dump to hand to a pending capture, with its target
    /// id normalised.
    pub capture: Option<Vec<u8>>,
}

/// A message that signals use of the device's own panel: any Control-Change
/// or program-change status byte.
pub open spec fn is_cc_like(msg: Seq<u8>) -> bool {
    msg.len() > 0 && 0xB0 <= msg[0] <= 0xCF
}

/// A frame of the preset dump service with the correct total length.
pub open spec fn is_preset_dump_frame(msg: Seq<u8>) -> bool {
    msg.len() == PRESET_DUMP_LENGTH && msg[0] == 0xF0 && msg[1] == SERVICE_PRESET_DUMP
}

/// A frame of the multi dump service with the correct total length.
pub open spec fn is_multi_dump_frame(msg: Seq<u8>) -> bool {
    msg.len() == MULTI_DUMP_LENGTH && msg[0] == 0xF0 && msg[1] == SERVICE_MULTI_DUMP
}

/// Raw dump data accepted by [`Session::load_raw_dump`] as a preset dump.
pub open spec fn is_loadable_preset(d: Seq<u8>) -> bool {
    d.len() == PRESET_DUMP_LENGTH && d[1] == SERVICE_PRESET_DUMP
}

/// Raw dump data accepted by [`Session::load_raw_dump`] as a multi dump.
pub open spec fn is_loadable_multi(d: Seq<u8>) -> bool {
    d.len() == MULTI_DUMP_LENGTH && d[1] == SERVICE_MULTI_DUMP
}

/// One editor session with the device.
pub struct Session {
    /// Current part id, 0-3 for part 1-4.
    part_id: u8,
    /// Current sound (preset) parameter values of the edited part.
    sound_params: SoundParameterValues,
    /// Current multi parameter values.
    multi_params: MultiParameterValues,
    /// Device connection state of the last scan.
    device_connected: bool,
    /// A sound (preset) parameter update from the device is due.
    request_sound_update: bool,
    /// A multi parameter update from the device is due.
    request_multi_update: bool,
    /// The outstanding dump request, if any.
    pending: Option<PendingRequest>,
    /// The next accepted preset dump is to be handed out for capture.
    capture_pending: bool,
    /// Cleaned names of the ports usable as merge inputs, from the last scan.
    merge_inputs: Vec<String>,
    /// Cleaned name of the selected merge input; empty for none.
    merge_selection: String,
    /// Dumps arriving before this time are ignored as echoes.
    dump_guard_until: u64,
}

impl Session {
    /// The session is well formed: the part id addresses one of the four
    /// parts.  Every constructor and method of the session keeps it so.
    pub open spec fn wf(self) -> bool {
        self.part() <= 3
    }

    /// Current part id, 0-3 for part 1-4.
    pub closed spec fn part(self) -> u8 {
        self.part_id
    }

    /// The sound value table.
    pub closed spec fn sound(self) -> SoundParameterValues {
        self.sound_params
    }

    /// The multi value table.
    pub closed spec fn multi(self) -> MultiParameterValues {
        self.multi_params
    }

    /// Device connection state of the last scan.
    pub closed spec fn connected(self) -> bool {
        self.device_connected
    }

    /// A sound parameter update from the device is due.
    pub closed spec fn sound_update_requested(self) -> bool {
        self.request_sound_update
    }

    /// A multi parameter update from the device is due.
    pub closed spec fn multi_update_requested(self) -> bool {
        self.request_multi_update
    }

    /// The outstanding dump request, if any.
    pub closed spec fn pending_request(self) -> Option<PendingRequest> {
        self.pending
    }

    /// The next accepted preset dump is to be handed out for capture.
    pub closed spec fn capture_armed(self) -> bool {
        self.capture_pending
    }

    /// Cleaned names of the ports usable as merge inputs.
    pub closed spec fn merge_list(self) -> Seq<String> {
        self.merge_inputs@
    }

    /// Cleaned name of the selected merge input.
    pub closed spec fn merge_choice(self) -> Seq<char> {
        self.merge_selection@
    }

    /// Dumps arriving before this time are ignored as echoes.
    pub closed spec fn guard_until(self) -> u64 {
        self.dump_guard_until
    }

    /// The tables and the part id agree between two session states.
    pub open spec fn same_tables(a: Session, b: Session) -> bool {
        &&& a.sound() == b.sound()
        &&& a.multi() == b.multi()
        &&& a.part() == b.part()
    }

    /// Connection state, merge list and merge choice agree.
    pub open spec fn same_link_state(a: Session, b: Session) -> bool {
        &&& a.connected() == b.connected()
        &&& a.merge_list() == b.merge_list()
        &&& a.merge_choice() == b.merge_choice()
    }

    /// Update flags, outstanding request, capture and echo guard agree.
    pub open spec fn same_protocol_state(a: Session, b: Session) -> bool {
        &&& a.sound_update_requested() == b.sound_update_requested()
        &&& a.multi_update_requested() == b.multi_update_requested()
        &&& a.pending_request() == b.pending_request()
        &&& a.capture_armed() == b.capture_armed()
        &&& a.guard_until() == b.guard_until()
    }

    /// A fresh session: disconnected, tables at their defaults, nothing
    /// requested and nothing outstanding.
    pub fn new() -> (r: Session)
        ensures
            r.wf(),
            r.part() == 0,
            !r.connected(),
            !r.sound_update_requested(),
            !r.multi_update_requested(),
            r.pending_request() is None,
            !r.capture_armed(),
            r.merge_list() == Seq::<String>::empty(),
            r.merge_choice() == Seq::<char>::empty(),
            r.guard_until() == 0,
            forall|p: SoundParameter| r.sound().spec_get_value(p) == 0,
            forall|p: MultiParameter| r.multi().spec_get_value(p) == 0,
    {
        let r = Session {
            part_id: 0,
            sound_params: SoundParameterValues::new(),
            multi_params: MultiParameterValues::new(),
            device_connected: false,
            request_sound_update: false,
            request_multi_update: false,
            pending: None,
            capture_pending: false,
            merge_inputs: Vec::new(),
            merge_selection: String::new(),
            dump_guard_until: 0,
        };
        proof {
            assert(r.merge_list() =~= Seq::<String>::empty());
        }
        r
    }

    /// Returns the device connection state.
    pub fn is_connected(&self) -> (b: bool)
        ensures
            b == self.connected(),
    {
        self.device_connected
    }

    /// Read access to the sound value table, for display.
    pub fn sound_values(&self) -> (r: &SoundParameterValues)
        ensures
            *r == self.sound(),
    {
        &self.sound_params
    }

    /// Read access to the multi value table, for display.
    pub fn multi_values(&self) -> (r: &MultiParameterValues)
        ensures
            *r == self.multi(),
    {
        &self.multi_params
    }

    /// The currently edited part, 0-3 for part 1-4.
    pub fn current_part(&self) -> (p: u8)
        ensures
            p == self.part(),
    {
        self.part_id
    }

    /// The cleaned name of the selected merge input; empty for none.
    pub fn selected_merge_input(&self) -> (r: &String)
        ensures
            r@ == self.merge_choice(),
    {
        &self.merge_selection
    }

    /// Return a vector of inputs that are suitable for merging.
    pub fn get_merge_inputs(&self) -> (r: &Vec<String>)
        ensures
            r@ == self.merge_list(),
    {
        &self.merge_inputs
    }

    /// Switch the editor to another part; the sound table then no longer
    /// matches the device and a fresh preset dump is due.
    pub fn part_change(&mut self, part_id: u8)
        requires
            old(self).wf(),
            part_id <= 3,
        ensures
            final(self).wf(),
            final(self).part() == part_id,
            final(self).sound_update_requested(),
            final(self).multi_update_requested() == old(self).multi_update_requested(),
            final(self).sound() == old(self).sound(),
            final(self).multi() == old(self).multi(),
            Self::same_link_state(*old(self), *final(self)),
            final(self).pending_request() == old(self).pending_request(),
            final(self).capture_armed() == old(self).capture_armed(),
            final(self).guard_until() == old(self).guard_until(),
    {
        self.part_id = part_id;
        self.request_sound_update = true;
    }

    /// Ask for a full re-sync from the device; does nothing while
    /// disconnected, because a reconnect requests everything anyway.
    pub fn request_refresh(&mut self)
        requires
            old(self).wf(),
        ensures
            final(self).wf(),
            old(self).connected() ==> final(self).sound_update_requested()
                && final(self).multi_update_requested(),
            !old(self).connected() ==> Self::same_protocol_state(*old(self), *final(self)),
            final(self).pending_request() == old(self).pending_request(),
            final(self).capture_armed() == old(self).capture_armed(),
            final(self).guard_until() == old(self).guard_until(),
            Self::same_tables(*old(self), *final(self)),
            Self::same_link_state(*old(self), *final(self)),
    {
        if self.device_connected {
            self.request_sound_update = true;
            self.request_multi_update = true;
        }
    }

    /// Arm the capture of the next accepted preset dump and request one;
    /// does nothing while disconnected.
    pub fn begin_preset_capture(&mut self)
        requires
            old(self).wf(),
        ensures
            final(self).wf(),
            old(self).connected() ==> final(self).capture_armed() && final(self).sound_update_requested(),
            !old(self).connected() ==> Self::same_protocol_state(*old(self), *final(self)),
            old(self).connected() ==> final(self).multi_update_requested() == old(self).multi_update_requested(),
            final(self).pending_request() == old(self).pending_request(),
            final(self).guard_until() == old(self).guard_until(),
            Self::same_tables(*old(self), *final(self)),
            Self::same_link_state(*old(self), *final(self)),
    {
        if self.device_connected {
            self.capture_pending = true;
            self.request_sound_update = true;
        }
    }

    /// Select the merge input by its cleaned port name; the empty string
    /// selects none.  Opening the port itself is the shell's business.
    pub fn select_merge_input(&mut self, input_name: String)
        requires
            old(self).wf(),
        ensures
            final(self).wf(),
            final(self).merge_choice() == input_name@,
            final(self).connected() == old(self).connected(),
            final(self).merge_list() == old(self).merge_list(),
            Self::same_tables(*old(self), *final(self)),
            Self::same_protocol_state(*old(self), *final(self)),
    {
        self.merge_selection = input_name;
    }

    /// Record a local edit of a sound parameter.  If the value differs from
    /// the table's current value it is stored, and while connected the
    /// matching single-parameter dump frame is returned for transmission; an
    /// unchanged value leaves the table alone and sends nothing.
    pub fn submit_sound_change(&mut self, param: SoundParameter, value: i32) -> (send: Option<
        Vec<u8>,
    >)
        requires
            old(self).wf(),
            param.in_range(value as int),
        ensures
            final(self).wf(),
            final(self).sound().spec_get_value(param) == value,
            forall|q: SoundParameter|
                q != param ==> final(self).sound().spec_get_value(q) == old(self).sound().spec_get_value(q),
            old(self).sound().spec_get_value(param) == value ==> final(self).sound() == old(self).sound(),
            old(self).sound().spec_get_value(param) != value && old(self).connected() ==> (
            send matches Some(f) && f@ == preset_param_frame(
                (0x70 + old(self).part()) as u8,
                param,
                value as int,
            )),
            (old(self).sound().spec_get_value(param) == value || !old(self).connected())
                ==> send is None,
            final(self).multi() == old(self).multi(),
            final(self).part() == old(self).part(),
            Self::same_link_state(*old(self), *final(self)),
            Self::same_protocol_state(*old(self), *final(self)),
    {
        let last_value = self.sound_params.get_value(param);
        if value != last_value {
            self.sound_params.insert(param, value);
            if self.device_connected {
                let message = preset_param_dump(0x70 + self.part_id, &param, value);
                return Some(message);
            }
        }
        None
    }

    /// Record a local edit of a multi parameter and report whether the value
    /// changed.  The protocol defines no single-parameter service for multi
    /// parameters, so the edit is recorded in the table only.
    pub fn submit_multi_change(&mut self, param: MultiParameter, value: i32) -> (changed: bool)
        requires
            old(self).wf(),
            param.in_range(value as int),
        ensures
            final(self).wf(),
            changed == (old(self).multi().spec_get_value(param) != value),
            final(self).multi().spec_get_value(param) == value,
            forall|q: MultiParameter|
                q != param ==> final(self).multi().spec_get_value(q) == old(self).multi().spec_get_value(q),
            !changed ==> final(self).multi() == old(self).multi(),
            final(self).sound() == old(self).sound(),
            final(self).part() == old(self).part(),
            Self::same_link_state(*old(self), *final(self)),
            Self::same_protocol_state(*old(self), *final(self)),
    {
        let last_value = self.multi_params.get_value(param);
        if value != last_value {
            self.multi_params.insert(param, value);
            return true;
        }
        false
    }

    /// One slow tick: take the enumerated input and output port names,
    /// decide which port is the device on each side, rebuild the merge
    /// candidate list, and derive the connection state as the conjunction of
    /// "device input present" and "device output present".  On a connect
    /// both update flags are raised; on a disconnect they are cleared and
    /// the outstanding request is abandoned.
    pub fn tick(&mut self, input_names: &Vec<String>, output_names: &Vec<String>) -> (r:
        ScanOutcome)
        requires
            old(self).wf(),
        ensures
            final(self).wf(),
            ({
                let d = first_device_at(input_names@, 0);
                if d < input_names@.len() {
                    r.input_port == Some(d as usize)
                } else {
                    r.input_port is None
                }
            }),
            ({
                let d = first_device_at(output_names@, 0);
                if d < output_names@.len() {
                    r.output_port == Some(d as usize)
                } else {
                    r.output_port is None
                }
            }),
            final(self).connected() == (first_device_at(input_names@, 0) < input_names@.len()
                && first_device_at(output_names@, 0) < output_names@.len()),
            r.connected == final(self).connected(),
            r.became_connected == (!old(self).connected() && final(self).connected()),
            r.became_disconnected == (old(self).connected() && !final(self).connected()),
            final(self).merge_list().map_values(|s: String| s@) == merge_names_at(
                input_names@,
                0,
            ),
            r.became_connected ==> final(self).sound_update_requested() && final(self).multi_update_requested() && final(self).pending_request() == old(self).pending_request(),
            r.became_disconnected ==> !final(self).sound_update_requested() && !final(self).multi_update_requested() && final(self).pending_request() is None,
            (!r.became_connected && !r.became_disconnected) ==> final(self).sound_update_requested()
                == old(self).sound_update_requested() && final(self).multi_update_requested()
                == old(self).multi_update_requested() && final(self).pending_request() == old(self).pending_request(),
            final(self).sound() == old(self).sound(),
            final(self).multi() == old(self).multi(),
            final(self).part() == old(self).part(),
            final(self).capture_armed() == old(self).capture_armed(),
            final(self).guard_until() == old(self).guard_until(),
            final(self).merge_choice() == old(self).merge_choice(),
    {
        let n_in: usize = input_names.len();
        let mut input_port: Option<usize> = None;
        let mut merge_inputs: Vec<String> = Vec::new();
        let mut i: usize = 0;
        while i < n_in
            invariant
                i <= n_in,
                n_in == input_names@.len(),
                match input_port {
                    Some(d) => d < i && first_device_at(input_names@, 0) == d as int,
                    None => first_device_at(input_names@, 0) == first_device_at(
                        input_names@,
                        i as int,
                    ),
                },
                merge_names_at(input_names@, 0) == merge_inputs@.map_values(|s: String| s@)
                    + merge_names_at(input_names@, i as int),
            decreases n_in - i,
        {
            let cleaned = cleanup_port_name(input_names[i].clone());
            if input_port.is_none() && is_device_port(cleaned.as_str()) {
                input_port = Some(i);
            }
            if is_merge_port(cleaned.as_str()) {
                let ghost before = merge_inputs@.map_values(|s: String| s@);
                merge_inputs.push(cleaned);
                proof {
                    assert(merge_inputs@.map_values(|s: String| s@) =~= before.push(
                        merge_names_at(input_names@, i as int)[0],
                    ));
                    assert(before.push(merge_names_at(input_names@, i as int)[0])
                        =~= before + seq![merge_names_at(input_names@, i as int)[0]]);
                    assert(merge_names_at(input_names@, 0) =~= merge_inputs@.map_values(
                        |s: String| s@,
                    ) + merge_names_at(input_names@, i + 1));
                }
            }
            i = i + 1;
        }
        let n_out: usize = output_names.len();
        let mut output_port: Option<usize> = None;
        let mut k: usize = 0;
        while k < n_out
            invariant
                k <= n_out,
                n_out == output_names@.len(),
                match output_port {
                    Some(d) => d < k && first_device_at(output_names@, 0) == d as int,
                    None => first_device_at(output_names@, 0) == first_device_at(
                        output_names@,
                        k as int,
                    ),
                },
            decreases n_out - k,
        {
            if output_port.is_none() {
                let cleaned = cleanup_port_name(output_names[k].clone());
                if is_device_port(cleaned.as_str()) {
                    output_port = Some(k);
                }
            }
            k = k + 1;
        }
        self.merge_inputs = merge_inputs;
        let connected = input_port.is_some() && output_port.is_some();
        let became_connected = !self.device_connected && connected;
        let became_disconnected = self.device_connected && !connected;
        self.device_connected = connected;
        if became_connected {
            self.request_sound_update = true;
            self.request_multi_update = true;
        }
        if became_disconnected {
            self.request_sound_update = false;
            self.request_multi_update = false;
            self.pending = None;
        }
        ScanOutcome { input_port, output_port, connected, became_connected, became_disconnected }
    }

    /// A preset dump that the session accepts: the right service and length,
    /// outside the echo guard window, matching the outstanding request's
    /// target, which addresses the edited part.
    pub open spec fn accepts_preset_dump(self, msg: Seq<u8>, now: u64) -> bool {
        &&& is_preset_dump_frame(msg)
        &&& now >= self.guard_until()
        &&& self.pending_request() matches Some(req) && req.target == msg[2]
        &&& msg[2] == 0x70 + self.part()
    }

    /// A multi dump that the session accepts.
    pub open spec fn accepts_multi_dump(self, msg: Seq<u8>, now: u64) -> bool {
        &&& is_multi_dump_frame(msg)
        &&& now >= self.guard_until()
        &&& self.pending_request() matches Some(req) && req.target == 0x7F
        &&& msg[2] == 0x7F
    }

    /// The sound update flag after the inbound message is handled: a
    /// Control-Change while connected requests a full re-sync.
    pub open spec fn sound_flag_after_msg(self, inbound: Option<&Vec<u8>>) -> bool {
        match inbound {
            Some(m) => self.sound_update_requested() || (is_cc_like(m@) && self.connected()),
            None => self.sound_update_requested(),
        }
    }

    /// The multi update flag after the inbound message is handled.
    pub open spec fn multi_flag_after_msg(self, inbound: Option<&Vec<u8>>) -> bool {
        match inbound {
            Some(m) => self.multi_update_requested() || (is_cc_like(m@) && self.connected()),
            None => self.multi_update_requested(),
        }
    }

    /// The outstanding request after the inbound message is handled: an
    /// accepted dump completes it.
    pub open spec fn pending_after_msg(self, inbound: Option<&Vec<u8>>, now: u64) -> Option<
        PendingRequest,
    > {
        match inbound {
            Some(m) => if self.accepts_preset_dump(m@, now) || self.accepts_multi_dump(m@, now) {
                None
            } else {
                self.pending_request()
            },
            None => self.pending_request(),
        }
    }

    /// A preset request goes out on this tick: connected, nothing
    /// outstanding any more, and a sound update due.
    pub open spec fn issues_sound_request(self, inbound: Option<&Vec<u8>>, now: u64) -> bool {
        &&& self.connected()
        &&& self.pending_after_msg(inbound, now) is None
        &&& self.sound_flag_after_msg(inbound)
    }

    /// A multi request goes out on this tick; a due sound update is served
    /// first.
    pub open spec fn issues_multi_request(self, inbound: Option<&Vec<u8>>, now: u64) -> bool {
        &&& self.connected()
        &&& self.pending_after_msg(inbound, now) is None
        &&& !self.sound_flag_after_msg(inbound)
        &&& self.multi_flag_after_msg(inbound)
    }

    /// The outstanding request dies of old age on this tick.
    pub open spec fn request_times_out(self, inbound: Option<&Vec<u8>>, now: u64) -> bool {
        &&& self.connected()
        &&& !self.issues_sound_request(inbound, now)
        &&& !self.issues_multi_request(inbound, now)
        &&& self.pending_after_msg(inbound, now) matches Some(req) && now >= req.started_at
            + REQUEST_TIMEOUT_MS
    }

    /// One fast tick: handle at most one inbound message, then issue a due
    /// dump request if none is outstanding, then check the outstanding
    /// request against the timeout.
    ///
    /// A Control-Change or program-change message signals that the device's
    /// panel was used and requests a full re-sync.  A dump frame is applied
    /// to the matching value table only if it matches the outstanding
    /// request; anything else - wrong length, wrong target, no outstanding
    /// request, inside the echo guard window - is discarded without touching
    /// any state.
    pub fn fast_tick(&mut self, now_ms: u64, inbound: Option<&Vec<u8>>) -> (r: FastTickOutcome)
        requires
            old(self).wf(),
            now_ms + DUMP_GUARD_MS <= u64::MAX,
        ensures
            final(self).wf(),
            (match inbound {
                Some(m) => {
                    &&& old(self).accepts_preset_dump(m@, now_ms) ==> forall|p: SoundParameter|
                        final(self).sound().spec_get_value(p) as int == sound_dump_value(
                            unpack_spec(m@.subrange(3, m@.len() as int)),
                            p,
                        )
                    &&& !old(self).accepts_preset_dump(m@, now_ms) ==> final(self).sound() == old(self).sound()
                    &&& old(self).accepts_multi_dump(m@, now_ms) ==> forall|p: MultiParameter|
                        final(self).multi().spec_get_value(p) as int == multi_dump_value(
                            unpack_spec(m@.subrange(3, m@.len() as int)),
                            p,
                        )
                    &&& !old(self).accepts_multi_dump(m@, now_ms) ==> final(self).multi() == old(self).multi()
                    &&& final(self).guard_until() == if old(self).accepts_preset_dump(m@, now_ms)
                        || old(self).accepts_multi_dump(m@, now_ms) {
                        now_ms + DUMP_GUARD_MS
                    } else {
                        old(self).guard_until() as int
                    }
                    &&& (r.capture is Some) == (old(self).accepts_preset_dump(m@, now_ms) && old(self).capture_armed())
                    &&& (r.capture matches Some(c) ==> c@ == m@.update(2, 0x70u8))
                    &&& final(self).capture_armed() == (old(self).capture_armed() && !old(self).accepts_preset_dump(m@, now_ms))
                },
                None => {
                    &&& final(self).sound() == old(self).sound()
                    &&& final(self).multi() == old(self).multi()
                    &&& final(self).guard_until() == old(self).guard_until()
                    &&& r.capture is None
                    &&& final(self).capture_armed() == old(self).capture_armed()
                },
            }),
            final(self).sound_update_requested() == (old(self).sound_flag_after_msg(inbound)
                && !old(self).issues_sound_request(inbound, now_ms)),
            final(self).multi_update_requested() == (old(self).multi_flag_after_msg(inbound)
                && !old(self).issues_multi_request(inbound, now_ms)),
            old(self).issues_sound_request(inbound, now_ms) ==> (r.send matches Some(f) && f@
                == seq![0xF0u8, SERVICE_PRESET_REQUEST, (0x70 + old(self).part()) as u8, 0xF7u8]),
            old(self).issues_multi_request(inbound, now_ms) ==> (r.send matches Some(f) && f@
                == seq![0xF0u8, SERVICE_MULTI_REQUEST, 0x7Fu8, 0xF7u8]),
            (!old(self).issues_sound_request(inbound, now_ms) && !old(self).issues_multi_request(
                inbound,
                now_ms,
            )) ==> r.send is None,
            old(self).issues_sound_request(inbound, now_ms) ==> final(self).pending_request()
                == Some(
                PendingRequest { target: (0x70 + old(self).part()) as u8, started_at: now_ms },
            ),
            old(self).issues_multi_request(inbound, now_ms) ==> final(self).pending_request()
                == Some(PendingRequest { target: 0x7F, started_at: now_ms }),
            (!old(self).issues_sound_request(inbound, now_ms) && !old(self).issues_multi_request(
                inbound,
                now_ms,
            )) ==> final(self).pending_request() == (if old(self).request_times_out(
                inbound,
                now_ms,
            ) {
                None
            } else {
                old(self).pending_after_msg(inbound, now_ms)
            }),
            r.timeout == old(self).request_times_out(inbound, now_ms),
            final(self).part() == old(self).part(),
            final(self).connected() == old(self).connected(),
            final(self).merge_list() == old(self).merge_list(),
            final(self).merge_choice() == old(self).merge_choice(),
    {
        let mut outcome = FastTickOutcome { send: None, timeout: false, capture: None };
        if let Some(msg) = inbound {
            let len = msg.len();
            if len >= 1 && 0xB0 <= msg[0] && msg[0] <= 0xCF {
                if self.device_connected {
                    self.request_sound_update = true;
                    self.request_multi_update = true;
                }
            } else if len == PRESET_DUMP_LENGTH && msg[0] == 0xF0 && msg[1]
                == SERVICE_PRESET_DUMP {
                if now_ms >= self.dump_guard_until {
                    let pending = self.pending;
                    if let Some(req) = pending {
                        if req.target == msg[2] && msg[2] == 0x70 + self.part_id {
                            let payload = slice_subrange(msg.as_slice(), 3, len);
                            let values = unpack_data(payload);
                            update_sound_params(&mut self.sound_params, &values);
                            if self.capture_pending {
                                let mut cap: Vec<u8> = msg.clone();
                                proof {
                                    assert(cap@ =~= msg@);
                                }
                                cap[2] = 0x70;
                                outcome.capture = Some(cap);
                                self.capture_pending = false;
                            }
                            self.pending = None;
                            self.dump_guard_until = now_ms + DUMP_GUARD_MS;
                        }
                    }
                }
            } else if len == MULTI_DUMP_LENGTH && msg[0] == 0xF0 && msg[1] == SERVICE_MULTI_DUMP {
                if now_ms >= self.dump_guard_until {
                    let pending = self.pending;
                    if let Some(req) = pending {
                        if req.target == 0x7F && msg[2] == 0x7F {
                            let payload = slice_subrange(msg.as_slice(), 3, len);
                            let values = unpack_data(payload);
                            update_multi_params(&mut self.multi_params, &values);
                            self.pending = None;
                            self.dump_guard_until = now_ms + DUMP_GUARD_MS;
                        }
                    }
                }
            }
        }
        if self.device_connected {
            if self.pending.is_none() && self.request_sound_update {
                let preset_id: u8 = 0x70 + self.part_id;
                outcome.send = Some(preset_request(preset_id));
                self.pending = Some(PendingRequest { target: preset_id, started_at: now_ms });
                self.request_sound_update = false;
            } else if self.pending.is_none() && self.request_multi_update {
                outcome.send = Some(multi_request(0x7F));
                self.pending = Some(PendingRequest { target: 0x7F, started_at: now_ms });
                self.request_multi_update = false;
            }
            let pending = self.pending;
            if let Some(req) = pending {
                let elapsed: u64 = if now_ms >= req.started_at {
                    now_ms - req.started_at
                } else {
                    0
                };
                if elapsed >= REQUEST_TIMEOUT_MS {
                    outcome.timeout = true;
                    self.pending = None;
                }
            }
        }
        outcome
    }

    /// Hand raw dump data to the device: a frame of a dump service with the
    /// correct length is readdressed to the edited part (preset) or to the
    /// edit buffer (multi) and returned for transmission, and the matching
    /// update flag is raised so the tables re-sync afterwards.  Anything
    /// else, or any data while disconnected, is rejected.
    pub fn load_raw_dump(&mut self, data: &Vec<u8>) -> (send: Option<Vec<u8>>)
        requires
            old(self).wf(),
        ensures
            final(self).wf(),
            old(self).connected() && is_loadable_preset(data@) ==> (send matches Some(f) && f@
                == data@.update(2, (0x70 + old(self).part()) as u8)) && final(self).sound_update_requested(),
            old(self).connected() && is_loadable_multi(data@) ==> (send matches Some(f) && f@
                == data@.update(2, 0x7Fu8)) && final(self).multi_update_requested(),
            (!old(self).connected() || (!is_loadable_preset(data@) && !is_loadable_multi(data@)))
                ==> send is None && Self::same_protocol_state(*old(self), *final(self)),
            old(self).connected() && is_loadable_preset(data@) ==> final(self).multi_update_requested() == old(self).multi_update_requested(),
            old(self).connected() && is_loadable_multi(data@) ==> final(self).sound_update_requested()
                == old(self).sound_update_requested(),
            final(self).pending_request() == old(self).pending_request(),
            final(self).capture_armed() == old(self).capture_armed(),
            final(self).guard_until() == old(self).guard_until(),
            Self::same_tables(*old(self), *final(self)),
            Self::same_link_state(*old(self), *final(self)),
    {
        if !self.device_connected {
            return None;
        }
        let len = data.len();
        if len == PRESET_DUMP_LENGTH && data[1] == SERVICE_PRESET_DUMP {
            let mut message: Vec<u8> = data.clone();
            proof {
                assert(message@ =~= data@);
            }
            message[2] = 0x70 + self.part_id;
            self.request_sound_update = true;
            return Some(message);
        }
        if len == MULTI_DUMP_LENGTH && data[1] == SERVICE_MULTI_DUMP {
            let mut message: Vec<u8> = data.clone();
            proof {
                assert(message@ =~= data@);
            }
            message[2] = 0x7F;
            self.request_multi_update = true;
            return Some(message);
        }
        None
    }
}

} // verus!
