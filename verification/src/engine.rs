//! The protocol engine: a request/response state machine that drives the
//! handshake and every subsequent exchange.
//!
//! The protocol is half-duplex and device-initiated: the device sends the
//! first packet, and at most one request is outstanding at any time. The
//! engine therefore never performs I/O itself. Each operation entry point
//! ([`Engine::hello`], [`Engine::switch_mode`], [`Engine::exec`],
//! [`Engine::info`], [`Engine::read_mem`], [`Engine::reset`],
//! [`Engine::end`]) returns an [`Action`] telling the caller what transfer to
//! perform, and the caller feeds the outcome back through [`Engine::step`]
//! until the action is a [`Action::Finish`] or an [`Action::Fail`]. Every
//! transition equals the mathematical transition function [`engine_next`].

use vstd::prelude::*;

use crate::wire::{
    DoneRequest, Exec, HardwareId, HelloResponse, MemoryRead32, OemPkHash,
    OemPkHashV, ResetRequest, HARDWARE_ID_LEN, MSG_END_OF_TRANSFER, MSG_EXECUTE_DATA,
    MSG_EXECUTE_REQUEST, MSG_EXECUTE_RESPONSE, MSG_HELLO_REQUEST, MSG_READY, MSG_RESET_RESPONSE,
    MSG_DONE_RESPONSE, EXEC_LEN, OEM_PK_HASH_LEN, SERIAL_NO_LEN,
    clone_bytes, copy_range, decode_end_of_transfer, decode_done_response, decode_hardware_id,
    decode_hello_request, decode_oem_pk_hash, decode_reset_response, encode_exec,
    encode_hello_response, encode_memory_read, encode_reset_request, encode_done_request,
    read_u32_le,
    spec_decode_end_of_transfer, spec_decode_done_response, spec_decode_hardware_id,
    spec_decode_hello_request, spec_decode_oem_pk_hash, spec_decode_reset_response,
    spec_done_request_bytes, spec_exec_bytes, spec_hello_response_bytes, spec_memory_read_bytes,
    spec_message_type, spec_reset_request_bytes,
};

verus! {

/// Largest single transfer, derived from the device's advertised maximum.
pub const TRANSFER_SIZE: usize = 0x400;

/// Bytes requested by a memory read.
pub const MEMORY_READ_SIZE: u32 = 0x10;

/// Version below which the hardware-id and key-hash commands are defined.
pub const CAPABILITY_VERSION_LIMIT: u32 = 3;

// ---------------------------------------------------------------------------
// Protocol enumerations
// ---------------------------------------------------------------------------

/// The coarse protocol sub-state requested by a hello response.
#[derive(Clone, Copy, Debug, PartialEq, Eq, Structural)]
pub enum Mode {
    ImageTxPending,
    ImageTxComplete,
    MemoryDebug,
    Command,
}

/// The wire value of a mode.
pub open spec fn spec_mode_code(m: Mode) -> u32 {
    match m {
        Mode::ImageTxPending => 0,
        Mode::ImageTxComplete => 1,
        Mode::MemoryDebug => 2,
        Mode::Command => 3,
    }
}

pub fn mode_code(m: Mode) -> (c: u32)
    ensures
        c == spec_mode_code(m),
{
    match m {
        Mode::ImageTxPending => 0,
        Mode::ImageTxComplete => 1,
        Mode::MemoryDebug => 2,
        Mode::Command => 3,
    }
}

/// A diagnostic command carried by an execution packet.
#[derive(Clone, Copy, Debug, PartialEq, Eq, Structural)]
pub enum Command {
    GetSerialNum,
    GetHardwareId,
    GetOemPkHash,
    GetSblVersion,
    GetCommandIdList,
    GetTrainingData,
}

/// The wire value of a command.
pub open spec fn spec_command_code(c: Command) -> u32 {
    match c {
        Command::GetSerialNum => 0x01,
        Command::GetHardwareId => 0x02,
        Command::GetOemPkHash => 0x03,
        Command::GetSblVersion => 0x07,
        Command::GetCommandIdList => 0x08,
        Command::GetTrainingData => 0x09,
    }
}

pub fn command_code(c: Command) -> (v: u32)
    ensures
        v == spec_command_code(c),
{
    match c {
        Command::GetSerialNum => 0x01,
        Command::GetHardwareId => 0x02,
        Command::GetOemPkHash => 0x03,
        Command::GetSblVersion => 0x07,
        Command::GetCommandIdList => 0x08,
        Command::GetTrainingData => 0x09,
    }
}

// ---------------------------------------------------------------------------
// Errors
// ---------------------------------------------------------------------------

/// Everything that can go wrong, as a recoverable, typed result. The caller
/// decides whether any of these aborts the session.
#[derive(Clone, Copy, Debug, PartialEq, Eq, Structural)]
pub enum SaharaError {
    /// No response arrived within the fixed transfer window.
    Timeout,
    /// The underlying USB transfer failed.
    TransportFailure,
    /// The device's first packet was not a hello request; carries the
    /// message type that arrived instead.
    ProtocolViolation(u32),
    /// A reply's message type is invalid for the current state.
    UnexpectedMessage(u32),
    /// The device rejected a mode switch; carries the reported status.
    ModeSwitchFailed(u32),
    /// The device rejected a command; carries the reported status.
    CommandFailed(u32),
    /// The device reported a failure ending the exchange; carries the status.
    DeviceReportedFailure(u32),
    /// A memory read returned a different number of bytes than requested;
    /// carries how many arrived.
    IncompleteRead(usize),
    /// A packet's framing is wrong: too short, or its length field does not
    /// equal its type's exact encoded size.
    Malformed,
    /// The interface could not be claimed within the retry budget.
    ClaimInterfaceTimeout,
    /// No attached device matches the expected vendor and product identity.
    DeviceNotFound,
    /// The matched device reports no interface.
    MissingInterface,
    /// The selected setting lacks a bulk endpoint in one direction.
    MissingEndpoint,
}

/// How a single transfer failed, as reported by the caller.
#[derive(Clone, Copy, Debug, PartialEq, Eq, Structural)]
pub enum TransportFault {
    /// The transfer timer expired first.
    TimedOut,
    /// The device or the USB stack reported an error.
    Failure,
}

/// The error surfaced for a transport fault.
pub open spec fn spec_fault_error(f: TransportFault) -> SaharaError {
    match f {
        TransportFault::TimedOut => SaharaError::Timeout,
        TransportFault::Failure => SaharaError::TransportFailure,
    }
}

fn fault_error(f: TransportFault) -> (e: SaharaError)
    ensures
        e == spec_fault_error(f),
{
    match f {
        TransportFault::TimedOut => SaharaError::Timeout,
        TransportFault::Failure => SaharaError::TransportFailure,
    }
}

// ---------------------------------------------------------------------------
// Events, outputs and actions
// ---------------------------------------------------------------------------

/// What the caller reports back after performing an action's transfer.
#[derive(Debug)]
pub enum Event {
    /// A read completed; carries the bytes actually received.
    Received(Vec<u8>),
    /// The send or the read failed.
    TransportFailed(TransportFault),
}

/// Mathematical value of an [`Event`].
#[verifier::ext_equal]
pub enum EventV {
    Received(Seq<u8>),
    TransportFailed(TransportFault),
}

impl View for Event {
    type V = EventV;

    open spec fn view(&self) -> EventV {
        match self {
            Event::Received(b) => EventV::Received(b@),
            Event::TransportFailed(f) => EventV::TransportFailed(*f),
        }
    }
}

/// Everything the info operation learned about the device.
#[derive(Debug)]
pub struct InfoReport {
    /// The 8 raw serial-number bytes.
    pub serial: Vec<u8>,
    /// Hardware identity; absent at protocol version
    /// [`CAPABILITY_VERSION_LIMIT`] and above, where the command is not
    /// defined.
    pub hardware: Option<HardwareId>,
    /// Key hashes, gated exactly as [`InfoReport::hardware`] is.
    pub pk_hashes: Option<OemPkHash>,
}

/// Mathematical value of an [`InfoReport`].
#[verifier::ext_equal]
pub struct InfoReportV {
    pub serial: Seq<u8>,
    pub hardware: Option<HardwareId>,
    pub pk_hashes: Option<OemPkHashV>,
}

impl View for InfoReport {
    type V = InfoReportV;

    open spec fn view(&self) -> InfoReportV {
        InfoReportV {
            serial: self.serial@,
            hardware: self.hardware,
            pk_hashes: match self.pk_hashes {
                Some(ref h) => Some(h@),
                None => None,
            },
        }
    }
}

/// The successful outcome of an operation.
#[allow(inconsistent_fields)]
#[derive(Debug)]
pub enum Output {
    /// The device's hello: its protocol version and current mode.
    Hello { version: u32, mode: u32 },
    /// The device acknowledged the requested mode.
    ModeSwitched { mode: Mode },
    /// The raw data phase of a stand-alone command; its shape depends on the
    /// command.
    Payload(Vec<u8>),
    /// The decoded results of the info operation.
    Info(InfoReport),
    /// The requested memory bytes.
    Memory(Vec<u8>),
    /// The device answered the reset request; `acknowledged` tells whether
    /// the reply was a proper reset response (any other non-failure reply is
    /// non-fatal).
    ResetDone { acknowledged: bool },
    /// The device answered the done request, acknowledged or not.
    EndDone { acknowledged: bool },
}

/// Mathematical value of an [`Output`].
#[allow(inconsistent_fields)]
#[verifier::ext_equal]
pub enum OutputV {
    Hello { version: u32, mode: u32 },
    ModeSwitched { mode: Mode },
    Payload(Seq<u8>),
    Info(InfoReportV),
    Memory(Seq<u8>),
    ResetDone { acknowledged: bool },
    EndDone { acknowledged: bool },
}

impl View for Output {
    type V = OutputV;

    open spec fn view(&self) -> OutputV {
        match self {
            Output::Hello { version, mode } => OutputV::Hello { version: *version, mode: *mode },
            Output::ModeSwitched { mode } => OutputV::ModeSwitched { mode: *mode },
            Output::Payload(b) => OutputV::Payload(b@),
            Output::Info(r) => OutputV::Info(r@),
            Output::Memory(b) => OutputV::Memory(b@),
            Output::ResetDone { acknowledged } => OutputV::ResetDone {
                acknowledged: *acknowledged,
            },
            Output::EndDone { acknowledged } => OutputV::EndDone { acknowledged: *acknowledged },
        }
    }
}

/// What the engine asks its caller to do next.
#[derive(Debug)]
pub enum Action {
    /// Send these bytes, then read up to `read_len` bytes, and report the
    /// outcome as an event.
    Exchange { send: Vec<u8>, read_len: usize },
    /// Read up to `read_len` bytes and report the outcome as an event.
    Read { read_len: usize },
    /// The operation succeeded with this output; the engine is idle again.
    Finish(Output),
    /// The operation failed; the error is recoverable for the caller, but
    /// this engine accepts no further operations.
    Fail(SaharaError),
}

/// Mathematical value of an [`Action`].
#[verifier::ext_equal]
pub enum ActionV {
    Exchange { send: Seq<u8>, read_len: usize },
    Read { read_len: usize },
    Finish(OutputV),
    Fail(SaharaError),
}

impl View for Action {
    type V = ActionV;

    open spec fn view(&self) -> ActionV {
        match self {
            Action::Exchange { send, read_len } => ActionV::Exchange {
                send: send@,
                read_len: *read_len,
            },
            Action::Read { read_len } => ActionV::Read { read_len: *read_len },
            Action::Finish(o) => ActionV::Finish(o@),
            Action::Fail(e) => ActionV::Fail(*e),
        }
    }
}

// ---------------------------------------------------------------------------
// States
// ---------------------------------------------------------------------------

/// What follows once a mode switch inside a larger operation is acknowledged.
#[derive(Clone, Copy, Debug, PartialEq, Eq, Structural)]
pub enum After {
    /// Nothing: the switch was the whole operation.
    Plain,
    /// Send the memory-read request for this address.
    Mem { address: u32 },
    /// Send the done request.
    Done,
}

/// Which larger exchange a two-phase command execution belongs to.
#[derive(Clone, Copy, Debug, PartialEq, Eq, Structural)]
pub enum ExecCont {
    /// A stand-alone execution; the payload is handed out raw.
    Standalone,
    /// The serial-number leg of the info operation.
    InfoSerial,
    /// The hardware-id leg of the info operation.
    InfoHw,
    /// The key-hash leg of the info operation.
    InfoPk,
}

/// The engine's control state.
#[derive(Clone, Copy, Debug, PartialEq, Eq, Structural)]
pub enum State {
    /// Initial: the device's unsolicited hello has not been read yet.
    AwaitHello,
    /// A read for the hello request is outstanding.
    HelloWait,
    /// The hello was consumed; version and mode are known.
    Negotiated,
    /// A hello response was sent; the device's mode-switch reply is
    /// outstanding.
    SwitchWait { mode: Mode, then: After },
    /// The device acknowledged this mode; ready for commands.
    Ready { mode: Mode },
    /// An execution request was sent; the response phase is outstanding.
    ExecRespWait { command: Command, cont: ExecCont },
    /// The execution data phase was sent; the payload is outstanding.
    PayloadWait { command: Command, cont: ExecCont },
    /// A memory-read request was sent; the data is outstanding.
    MemWait,
    /// A reset request was sent; the reply is outstanding.
    ResetWait,
    /// A done request was sent; the reply is outstanding.
    DoneWait,
    /// The session ended cleanly (after a reset or done).
    Closed,
    /// An operation failed; the engine accepts no further operations.
    Failed,
}

/// States in which a transfer is outstanding and [`Engine::step`] applies.
pub open spec fn spec_in_flight(s: State) -> bool {
    match s {
        State::HelloWait => true,
        State::SwitchWait { .. } => true,
        State::ExecRespWait { .. } => true,
        State::PayloadWait { .. } => true,
        State::MemWait => true,
        State::ResetWait => true,
        State::DoneWait => true,
        _ => false,
    }
}

/// States from which a new operation may start once the hello is done.
pub open spec fn spec_idle(s: State) -> bool {
    s == State::Negotiated || s matches State::Ready { .. }
}

// ---------------------------------------------------------------------------
// The engine and its mathematical value
// ---------------------------------------------------------------------------

/// Mathematical value of an [`Engine`].
#[verifier::ext_equal]
pub struct EngineV {
    pub state: State,
    /// The protocol version the device reported in its hello; gates which
    /// commands the info operation issues.
    pub version: u32,
    /// Serial bytes accumulated by an info operation in flight.
    pub serial: Seq<u8>,
    /// Hardware identity accumulated by an info operation in flight.
    pub hardware: HardwareId,
}

/// The protocol engine. See the module description for how to drive it.
pub struct Engine {
    state: State,
    version: u32,
    serial: Vec<u8>,
    hardware: HardwareId,
}

impl View for Engine {
    type V = EngineV;

    closed spec fn view(&self) -> EngineV {
        EngineV {
            state: self.state,
            version: self.version,
            serial: self.serial@,
            hardware: self.hardware,
        }
    }
}

// ---------------------------------------------------------------------------
// The transition function
// ---------------------------------------------------------------------------

/// The failure transition: remember nothing but the failure, surface the
/// error.
pub open spec fn spec_failed(m: EngineV, e: SaharaError) -> (EngineV, ActionV) {
    (EngineV { state: State::Failed, ..m }, ActionV::Fail(e))
}

/// The hello response sent to request a mode: fixed negotiated version and
/// compatibility, the caller's mode.
pub open spec fn spec_switch_packet(version: u32, mode: Mode) -> HelloResponse {
    HelloResponse { version, compatible: 1, status: 0, mode: spec_mode_code(mode) }
}

/// The bytes of the request phase of a command execution.
pub open spec fn spec_exec_request_bytes(c: Command) -> Seq<u8> {
    spec_exec_bytes(MSG_EXECUTE_REQUEST, Exec { command: spec_command_code(c) })
}

/// The bytes of the data phase of a command execution.
pub open spec fn spec_exec_data_bytes(c: Command) -> Seq<u8> {
    spec_exec_bytes(MSG_EXECUTE_DATA, Exec { command: spec_command_code(c) })
}

/// The memory-read request the engine sends.
pub open spec fn spec_mem_request_bytes(address: u32) -> Seq<u8> {
    spec_memory_read_bytes(MemoryRead32 { address, size: MEMORY_READ_SIZE })
}

/// Step of the hello exchange: the first packet must be a well-formed hello
/// request; any other message type is a protocol violation.
pub open spec fn spec_hello_reply(m: EngineV, b: Seq<u8>) -> (EngineV, ActionV) {
    if b.len() < 4 {
        spec_failed(m, SaharaError::Malformed)
    } else if spec_message_type(b) != MSG_HELLO_REQUEST {
        spec_failed(m, SaharaError::ProtocolViolation(spec_message_type(b)))
    } else {
        match spec_decode_hello_request(b) {
            Some(p) => (
                EngineV { state: State::Negotiated, version: p.version, ..m },
                ActionV::Finish(OutputV::Hello { version: p.version, mode: p.mode }),
            ),
            None => spec_failed(m, SaharaError::Malformed),
        }
    }
}

/// Step of a mode switch: end of transfer reports the device's status, any
/// reply but ready is unexpected, and a ready reply continues with whatever
/// the switch was for.
pub open spec fn spec_switch_reply(m: EngineV, mode: Mode, then: After, b: Seq<u8>) -> (
    EngineV,
    ActionV,
) {
    if b.len() < 4 {
        spec_failed(m, SaharaError::Malformed)
    } else if spec_message_type(b) == MSG_END_OF_TRANSFER {
        match spec_decode_end_of_transfer(b) {
            Some(eot) => spec_failed(m, SaharaError::ModeSwitchFailed(eot.status)),
            None => spec_failed(m, SaharaError::Malformed),
        }
    } else if spec_message_type(b) != MSG_READY {
        spec_failed(m, SaharaError::UnexpectedMessage(spec_message_type(b)))
    } else {
        match then {
            After::Plain => (
                EngineV { state: State::Ready { mode }, ..m },
                ActionV::Finish(OutputV::ModeSwitched { mode }),
            ),
            After::Mem { address } => (
                EngineV { state: State::MemWait, ..m },
                ActionV::Exchange {
                    send: spec_mem_request_bytes(address),
                    read_len: MEMORY_READ_SIZE as usize,
                },
            ),
            After::Done => (
                EngineV { state: State::DoneWait, ..m },
                ActionV::Exchange { send: spec_done_request_bytes(), read_len: TRANSFER_SIZE },
            ),
        }
    }
}

/// Step of the response phase of a command execution. The data phase is
/// issued here and nowhere else, and only for an execute-response reply.
pub open spec fn spec_exec_reply(m: EngineV, command: Command, cont: ExecCont, b: Seq<u8>) -> (
    EngineV,
    ActionV,
) {
    if b.len() < 4 {
        spec_failed(m, SaharaError::Malformed)
    } else if spec_message_type(b) == MSG_END_OF_TRANSFER {
        match spec_decode_end_of_transfer(b) {
            Some(eot) => spec_failed(m, SaharaError::CommandFailed(eot.status)),
            None => spec_failed(m, SaharaError::Malformed),
        }
    } else if spec_message_type(b) != MSG_EXECUTE_RESPONSE {
        spec_failed(m, SaharaError::UnexpectedMessage(spec_message_type(b)))
    } else {
        (
            EngineV { state: State::PayloadWait { command, cont }, ..m },
            ActionV::Exchange { send: spec_exec_data_bytes(command), read_len: TRANSFER_SIZE },
        )
    }
}

/// Step of the payload phase of a command execution: hand a stand-alone
/// payload out raw, or decode and accumulate it for the info operation. The
/// hardware-id and key-hash commands are issued only below
/// [`CAPABILITY_VERSION_LIMIT`].
pub open spec fn spec_payload_reply(m: EngineV, command: Command, cont: ExecCont, b: Seq<u8>) -> (
    EngineV,
    ActionV,
) {
    match cont {
        ExecCont::Standalone => (
            EngineV { state: State::Ready { mode: Mode::Command }, ..m },
            ActionV::Finish(OutputV::Payload(b)),
        ),
        ExecCont::InfoSerial => {
            if b.len() < SERIAL_NO_LEN {
                spec_failed(m, SaharaError::Malformed)
            } else {
                let serial = b.subrange(0, SERIAL_NO_LEN as int);
                if m.version < CAPABILITY_VERSION_LIMIT {
                    (
                        EngineV {
                            state: State::ExecRespWait {
                                command: Command::GetHardwareId,
                                cont: ExecCont::InfoHw,
                            },
                            serial,
                            ..m
                        },
                        ActionV::Exchange {
                            send: spec_exec_request_bytes(Command::GetHardwareId),
                            read_len: TRANSFER_SIZE,
                        },
                    )
                } else {
                    (
                        EngineV { state: State::Ready { mode: Mode::Command }, serial, ..m },
                        ActionV::Finish(
                            OutputV::Info(
                                InfoReportV { serial, hardware: None, pk_hashes: None },
                            ),
                        ),
                    )
                }
            }
        },
        ExecCont::InfoHw => {
            if b.len() < HARDWARE_ID_LEN {
                spec_failed(m, SaharaError::Malformed)
            } else {
                (
                    EngineV {
                        state: State::ExecRespWait {
                            command: Command::GetOemPkHash,
                            cont: ExecCont::InfoPk,
                        },
                        hardware: spec_decode_hardware_id(b).unwrap(),
                        ..m
                    },
                    ActionV::Exchange {
                        send: spec_exec_request_bytes(Command::GetOemPkHash),
                        read_len: TRANSFER_SIZE,
                    },
                )
            }
        },
        ExecCont::InfoPk => {
            if b.len() < OEM_PK_HASH_LEN {
                spec_failed(m, SaharaError::Malformed)
            } else {
                (
                    EngineV { state: State::Ready { mode: Mode::Command }, ..m },
                    ActionV::Finish(
                        OutputV::Info(
                            InfoReportV {
                                serial: m.serial,
                                hardware: Some(m.hardware),
                                pk_hashes: Some(spec_decode_oem_pk_hash(b).unwrap()),
                            },
                        ),
                    ),
                )
            }
        },
    }
}

/// Step of a memory read: an end-of-transfer reply means the device refused
/// the read; any other length than requested is an incomplete read and is
/// flagged, never interpreted as data.
pub open spec fn spec_mem_reply(m: EngineV, b: Seq<u8>) -> (EngineV, ActionV) {
    if b.len() >= 4 && spec_message_type(b) == MSG_END_OF_TRANSFER {
        match spec_decode_end_of_transfer(b) {
            Some(eot) => spec_failed(m, SaharaError::DeviceReportedFailure(eot.status)),
            None => spec_failed(m, SaharaError::Malformed),
        }
    } else if b.len() != MEMORY_READ_SIZE as nat {
        spec_failed(m, SaharaError::IncompleteRead(b.len() as usize))
    } else {
        (
            EngineV { state: State::Ready { mode: Mode::MemoryDebug }, ..m },
            ActionV::Finish(OutputV::Memory(b)),
        )
    }
}

/// Step of a reset: an end of transfer is a device-reported failure; a reset
/// response acknowledges; anything else is non-fatal and reported as
/// unacknowledged.
pub open spec fn spec_reset_reply(m: EngineV, b: Seq<u8>) -> (EngineV, ActionV) {
    if b.len() < 4 {
        spec_failed(m, SaharaError::Malformed)
    } else if spec_message_type(b) == MSG_END_OF_TRANSFER {
        match spec_decode_end_of_transfer(b) {
            Some(eot) => spec_failed(m, SaharaError::DeviceReportedFailure(eot.status)),
            None => spec_failed(m, SaharaError::Malformed),
        }
    } else if spec_message_type(b) == MSG_RESET_RESPONSE {
        match spec_decode_reset_response(b) {
            Some(_) => (
                EngineV { state: State::Closed, ..m },
                ActionV::Finish(OutputV::ResetDone { acknowledged: true }),
            ),
            None => spec_failed(m, SaharaError::Malformed),
        }
    } else {
        (
            EngineV { state: State::Closed, ..m },
            ActionV::Finish(OutputV::ResetDone { acknowledged: false }),
        )
    }
}

/// Step of the end operation's done exchange; mirrors the reset step.
pub open spec fn spec_done_reply(m: EngineV, b: Seq<u8>) -> (EngineV, ActionV) {
    if b.len() < 4 {
        spec_failed(m, SaharaError::Malformed)
    } else if spec_message_type(b) == MSG_END_OF_TRANSFER {
        match spec_decode_end_of_transfer(b) {
            Some(eot) => spec_failed(m, SaharaError::DeviceReportedFailure(eot.status)),
            None => spec_failed(m, SaharaError::Malformed),
        }
    } else if spec_message_type(b) == MSG_DONE_RESPONSE {
        match spec_decode_done_response(b) {
            Some(_) => (
                EngineV { state: State::Closed, ..m },
                ActionV::Finish(OutputV::EndDone { acknowledged: true }),
            ),
            None => spec_failed(m, SaharaError::Malformed),
        }
    } else {
        (
            EngineV { state: State::Closed, ..m },
            ActionV::Finish(OutputV::EndDone { acknowledged: false }),
        )
    }
}

/// Dispatch of a received buffer to the step of the outstanding exchange.
pub open spec fn spec_on_received(m: EngineV, b: Seq<u8>) -> (EngineV, ActionV) {
    match m.state {
        State::HelloWait => spec_hello_reply(m, b),
        State::SwitchWait { mode, then } => spec_switch_reply(m, mode, then, b),
        State::ExecRespWait { command, cont } => spec_exec_reply(m, command, cont, b),
        State::PayloadWait { command, cont } => spec_payload_reply(m, command, cont, b),
        State::MemWait => spec_mem_reply(m, b),
        State::ResetWait => spec_reset_reply(m, b),
        State::DoneWait => spec_done_reply(m, b),
        _ => spec_failed(m, SaharaError::Malformed),
    }
}

/// The engine's transition function: every [`Engine::step`] call equals one
/// application of it.
pub open spec fn engine_next(m: EngineV, e: EventV) -> (EngineV, ActionV) {
    match e {
        EventV::TransportFailed(f) => spec_failed(m, spec_fault_error(f)),
        EventV::Received(b) => spec_on_received(m, b),
    }
}

// ---------------------------------------------------------------------------
// Laws of the transition function
// ---------------------------------------------------------------------------

/// Whether an action sends the request phase of an execution of command `c`.
pub open spec fn spec_is_exec_request_send(a: ActionV, c: Command) -> bool {
    a == (ActionV::Exchange { send: spec_exec_request_bytes(c), read_len: TRANSFER_SIZE })
}

/// Whether an action sends the data phase of an execution of command `c`.
pub open spec fn spec_is_exec_data_send(a: ActionV, c: Command) -> bool {
    a == (ActionV::Exchange { send: spec_exec_data_bytes(c), read_len: TRANSFER_SIZE })
}

/// States that belong to an info operation in flight.
pub open spec fn spec_info_flight(s: State) -> bool {
    match s {
        State::ExecRespWait { cont, .. } => cont != ExecCont::Standalone,
        State::PayloadWait { cont, .. } => cont != ExecCont::Standalone,
        _ => false,
    }
}

/// Consistency of an execution leg with the rest of the engine: the info
/// legs carry their own command, and the legs past the capability gate exist
/// only below [`CAPABILITY_VERSION_LIMIT`], with the serial already read.
pub open spec fn spec_info_leg_ok(command: Command, cont: ExecCont, m: EngineV) -> bool {
    match cont {
        ExecCont::Standalone => true,
        ExecCont::InfoSerial => command == Command::GetSerialNum,
        ExecCont::InfoHw => command == Command::GetHardwareId && m.version
            < CAPABILITY_VERSION_LIMIT && m.serial.len() == SERIAL_NO_LEN,
        ExecCont::InfoPk => command == Command::GetOemPkHash && m.version
            < CAPABILITY_VERSION_LIMIT && m.serial.len() == SERIAL_NO_LEN,
    }
}

/// The engine's session invariant. It holds of a fresh engine and of every
/// state an operation entry point leaves behind, and [`lemma_inv_preserved`]
/// shows every transition keeps it.
pub open spec fn spec_engine_inv(m: EngineV) -> bool {
    &&& (m.state matches State::ExecRespWait { command, cont } ==> spec_info_leg_ok(
        command,
        cont,
        m,
    ))
    &&& (m.state matches State::PayloadWait { command, cont } ==> spec_info_leg_ok(
        command,
        cont,
        m,
    ))
}

/// Every transition preserves the session invariant.
pub proof fn lemma_inv_preserved(m: EngineV, e: EventV)
    requires
        spec_engine_inv(m),
    ensures
        spec_engine_inv(engine_next(m, e).0),
{
}

/// A first packet of any message type other than a hello request is rejected
/// as a protocol violation carrying that type, whatever the rest of the
/// packet holds.
pub proof fn lemma_hello_rejects_wrong_type(m: EngineV, b: Seq<u8>)
    requires
        m.state == State::HelloWait,
        b.len() >= 4,
        spec_message_type(b) != MSG_HELLO_REQUEST,
    ensures
        engine_next(m, EventV::Received(b)) == spec_failed(
            m,
            SaharaError::ProtocolViolation(spec_message_type(b)),
        ),
{
}

/// The first bytes of the two execution phases differ, so a request-phase
/// send is never a data-phase send.
proof fn lemma_exec_phases_distinct(c1: Command, c2: Command)
    ensures
        spec_exec_request_bytes(c1) != spec_exec_data_bytes(c2),
{
    let r = spec_exec_request_bytes(c1);
    let d = spec_exec_data_bytes(c2);
    assert(((MSG_EXECUTE_REQUEST & 0xff) as u8) != ((MSG_EXECUTE_DATA & 0xff) as u8))
        by (bit_vector);
    assert(r[0] == ((MSG_EXECUTE_REQUEST & 0xff) as u8));
    assert(d[0] == ((MSG_EXECUTE_DATA & 0xff) as u8));
}

/// Request-phase encodings determine their command.
proof fn lemma_exec_request_bytes_injective(c1: Command, c2: Command)
    requires
        spec_exec_request_bytes(c1) == spec_exec_request_bytes(c2),
    ensures
        c1 == c2,
{
    let b1 = spec_exec_request_bytes(c1);
    let b2 = spec_exec_request_bytes(c2);
    assert(b1.subrange(8, 12) =~= crate::wire::spec_u32_le(spec_command_code(c1)));
    assert(b2.subrange(8, 12) =~= crate::wire::spec_u32_le(spec_command_code(c2)));
    crate::wire::lemma_u32_le_round_trip(spec_command_code(c1));
    crate::wire::lemma_u32_le_round_trip(spec_command_code(c2));
}

/// The data phase of an execution is structurally unreachable without a
/// successful response phase: a transition emits a data-phase send only from
/// a state whose request phase is outstanding, and only for a received reply
/// whose message type is the execute response.
pub proof fn lemma_exec_data_phase_guarded(m: EngineV, e: EventV, c: Command)
    requires
        spec_is_exec_data_send(engine_next(m, e).1, c),
    ensures
        m.state is ExecRespWait,
        e is Received,
        e matches EventV::Received(b) ==> b.len() >= 4 && spec_message_type(b)
            == MSG_EXECUTE_RESPONSE,
{
    lemma_exec_phases_distinct(Command::GetHardwareId, c);
    lemma_exec_phases_distinct(Command::GetOemPkHash, c);
    assert(spec_exec_data_bytes(c).len() == 12);
    assert(spec_done_request_bytes().len() == 8);
    match e {
        EventV::TransportFailed(_) => {
            assert(false);
        },
        EventV::Received(b) => {
            match m.state {
                State::HelloWait => {
                    assert(false);
                },
                State::SwitchWait { .. } => {
                    assert(false);
                },
                State::ExecRespWait { .. } => {
                },
                State::PayloadWait { .. } => {
                    assert(false);
                },
                State::MemWait => {
                    assert(false);
                },
                State::ResetWait => {
                    assert(false);
                },
                State::DoneWait => {
                    assert(false);
                },
                _ => {
                    assert(false);
                },
            }
        },
    }
}

/// The version gate of the info operation is exact: an info run issues a
/// further command request only below [`CAPABILITY_VERSION_LIMIT`], and then
/// only the hardware-id request right after the serial payload and the
/// key-hash request right after the hardware-id payload.
pub proof fn lemma_info_commands_gated(m: EngineV, e: EventV, c: Command)
    requires
        spec_engine_inv(m),
        spec_info_flight(m.state),
        spec_is_exec_request_send(engine_next(m, e).1, c),
    ensures
        m.version < CAPABILITY_VERSION_LIMIT,
        (m.state matches State::PayloadWait { cont: ExecCont::InfoSerial, .. } && c
            == Command::GetHardwareId) || (m.state matches State::PayloadWait {
            cont: ExecCont::InfoHw,
            ..
        } && c == Command::GetOemPkHash),
{
    match m.state {
        State::ExecRespWait { command, .. } => {
            lemma_exec_phases_distinct(c, command);
        },
        _ => {
        },
    }
    if spec_exec_request_bytes(c) == spec_exec_request_bytes(Command::GetHardwareId) {
        lemma_exec_request_bytes_injective(c, Command::GetHardwareId);
    }
    if spec_exec_request_bytes(c) == spec_exec_request_bytes(Command::GetOemPkHash) {
        lemma_exec_request_bytes_injective(c, Command::GetOemPkHash);
    }
}

/// An info run on a version at or above [`CAPABILITY_VERSION_LIMIT`] never
/// issues a second command: with the serial-number request already sent, no
/// transition emits another request-phase send.
pub proof fn lemma_info_single_command_at_high_version(m: EngineV, e: EventV, c: Command)
    requires
        spec_engine_inv(m),
        m.version >= CAPABILITY_VERSION_LIMIT,
        spec_info_flight(m.state),
    ensures
        !spec_is_exec_request_send(engine_next(m, e).1, c),
{
    if spec_is_exec_request_send(engine_next(m, e).1, c) {
        lemma_info_commands_gated(m, e, c);
    }
}

/// Whether an action sends the request phase of any command execution.
pub open spec fn spec_is_any_exec_request_send(a: ActionV) -> bool {
    exists|c: Command| spec_is_exec_request_send(a, c)
}

/// An info operation completes with hardware identity and key hashes exactly
/// when the negotiated version is below [`CAPABILITY_VERSION_LIMIT`], and
/// always with an 8-byte serial.
pub proof fn lemma_info_completion(m: EngineV, e: EventV, r: InfoReportV)
    requires
        spec_engine_inv(m),
        engine_next(m, e).1 == ActionV::Finish(OutputV::Info(r)),
    ensures
        m.state is PayloadWait,
        r.hardware is Some <==> m.version < CAPABILITY_VERSION_LIMIT,
        r.pk_hashes is Some <==> m.version < CAPABILITY_VERSION_LIMIT,
        r.serial.len() == SERIAL_NO_LEN,
{
}

/// The actions a run of the transition function emits over a sequence of
/// events.
pub open spec fn spec_run_actions(m: EngineV, events: Seq<EventV>) -> Seq<ActionV>
    decreases events.len(),
{
    if events.len() == 0 {
        Seq::empty()
    } else {
        seq![engine_next(m, events[0]).1] + spec_run_actions(
            engine_next(m, events[0]).0,
            events.skip(1),
        )
    }
}

/// How many of a run's actions are request-phase sends.
pub open spec fn spec_count_exec_requests(actions: Seq<ActionV>) -> int
    decreases actions.len(),
{
    if actions.len() == 0 {
        0
    } else {
        (if spec_is_any_exec_request_send(actions[0]) {
            1int
        } else {
            0int
        }) + spec_count_exec_requests(actions.skip(1))
    }
}

/// How many request-phase sends the rest of a run may still emit: two more
/// for an info run before its serial payload below the version limit, one
/// more before its hardware-id payload, none anywhere else.
pub open spec fn spec_info_requests_remaining(m: EngineV) -> int {
    if m.version >= CAPABILITY_VERSION_LIMIT {
        0
    } else {
        match m.state {
            State::ExecRespWait { cont: ExecCont::InfoSerial, .. } => 2,
            State::PayloadWait { cont: ExecCont::InfoSerial, .. } => 2,
            State::ExecRespWait { cont: ExecCont::InfoHw, .. } => 1,
            State::PayloadWait { cont: ExecCont::InfoHw, .. } => 1,
            _ => 0,
        }
    }
}

/// All request-phase encodings are [`EXEC_LEN`] bytes.
proof fn lemma_exec_request_bytes_len()
    ensures
        forall|c: Command| (#[trigger] spec_exec_request_bytes(c)).len() == EXEC_LEN,
{
}

/// No request-phase send equals any data-phase send.
proof fn lemma_exec_phases_distinct_all()
    ensures
        forall|c1: Command, c2: Command|
            #![trigger spec_exec_request_bytes(c1), spec_exec_data_bytes(c2)]
            spec_exec_request_bytes(c1) != spec_exec_data_bytes(c2),
{
    assert forall|c1: Command, c2: Command|
        #![trigger spec_exec_request_bytes(c1), spec_exec_data_bytes(c2)]
        spec_exec_request_bytes(c1) != spec_exec_data_bytes(c2) by {
        lemma_exec_phases_distinct(c1, c2);
    }
}

/// Request-phase budget of the info operation, over whole runs: however the
/// device answers, a run started in any state emits at most
/// [`spec_info_requests_remaining`] further request-phase sends. Right after
/// [`Engine::info`] that bound is two below [`CAPABILITY_VERSION_LIMIT`] and
/// zero at or above it, so with the one request [`Engine::info`] itself
/// sends, an info run issues at most three commands below the limit and
/// exactly the serial-number command otherwise.
pub proof fn lemma_info_run_request_budget(m: EngineV, events: Seq<EventV>)
    requires
        spec_engine_inv(m),
    ensures
        spec_count_exec_requests(spec_run_actions(m, events)) <= spec_info_requests_remaining(m),
    decreases events.len(),
{
    lemma_exec_request_bytes_len();
    lemma_exec_phases_distinct_all();
    if events.len() > 0 {
        let e = events[0];
        let m2 = engine_next(m, e).0;
        let a = engine_next(m, e).1;
        lemma_inv_preserved(m, e);
        lemma_info_run_request_budget(m2, events.skip(1));
        let actions = spec_run_actions(m, events);
        assert(actions.skip(1) =~= spec_run_actions(m2, events.skip(1)));
        assert(actions[0] == a);
        if spec_is_any_exec_request_send(a) {
            let c = choose|c: Command| spec_is_exec_request_send(a, c);
            assert(spec_info_flight(m.state));
            lemma_info_commands_gated(m, e, c);
        }
    }
}

/// A run emits one action per event.
pub proof fn lemma_run_actions_len(m: EngineV, events: Seq<EventV>)
    ensures
        spec_run_actions(m, events).len() == events.len(),
    decreases events.len(),
{
    if events.len() > 0 {
        lemma_run_actions_len(engine_next(m, events[0]).0, events.skip(1));
    }
}

/// Any action other than an exchange sends no request phase.
proof fn lemma_only_exchanges_send(a: ActionV)
    requires
        !(a is Exchange),
    ensures
        !spec_is_any_exec_request_send(a),
{
    if spec_is_any_exec_request_send(a) {
        let c = choose|c: Command| spec_is_exec_request_send(a, c);
        assert(false);
    }
}

/// Every transition that does not fail spends the info request budget
/// exactly: a request-phase send spends one unit, anything else none.
pub proof fn lemma_info_step_exact(m: EngineV, e: EventV)
    requires
        spec_engine_inv(m),
        !(engine_next(m, e).1 is Fail),
    ensures
        (if spec_is_any_exec_request_send(engine_next(m, e).1) {
            1int
        } else {
            0int
        }) + spec_info_requests_remaining(engine_next(m, e).0) == spec_info_requests_remaining(m),
{
    lemma_exec_request_bytes_len();
    lemma_exec_phases_distinct_all();
    if spec_is_any_exec_request_send(engine_next(m, e).1) {
        let c = choose|c: Command| spec_is_exec_request_send(engine_next(m, e).1, c);
        assert(spec_info_flight(m.state));
        lemma_info_commands_gated(m, e, c);
    } else {
        // A transition out of a payload state below the version gate would
        // send the next request; name its command to contradict the branch.
        match (m.state, e) {
            (State::PayloadWait { cont, .. }, EventV::Received(b)) => {
                if cont == ExecCont::InfoSerial && m.version < CAPABILITY_VERSION_LIMIT
                    && b.len() >= SERIAL_NO_LEN {
                    assert(spec_is_exec_request_send(
                        engine_next(m, e).1,
                        Command::GetHardwareId,
                    ));
                    assert(false);
                }
                if cont == ExecCont::InfoHw && b.len() >= HARDWARE_ID_LEN {
                    assert(spec_is_exec_request_send(
                        engine_next(m, e).1,
                        Command::GetOemPkHash,
                    ));
                    assert(false);
                }
            },
            _ => {
            },
        }
    }
}

/// The version gate is exact over whole runs: a run in which no transfer
/// fails and whose last action completes the info operation emits exactly
/// [`spec_info_requests_remaining`] request-phase sends. Right after
/// [`Engine::info`] — which itself sends the serial-number request — that is
/// two further commands below [`CAPABILITY_VERSION_LIMIT`], three in all, and
/// none otherwise, one in all.
pub proof fn lemma_info_run_exact_count(m: EngineV, events: Seq<EventV>)
    requires
        spec_engine_inv(m),
        events.len() > 0,
        forall|i: int|
            0 <= i < events.len() ==> !((#[trigger] spec_run_actions(m, events)[i]) is Fail),
        spec_run_actions(m, events).last() matches ActionV::Finish(OutputV::Info(_)),
    ensures
        spec_count_exec_requests(spec_run_actions(m, events)) == spec_info_requests_remaining(m),
    decreases events.len(),
{
    lemma_run_actions_len(m, events);
    let e = events[0];
    let m2 = engine_next(m, e).0;
    let a = engine_next(m, e).1;
    let actions = spec_run_actions(m, events);
    assert(actions[0] == a);
    assert(!(a is Fail));
    lemma_info_step_exact(m, e);
    lemma_inv_preserved(m, e);
    if events.len() == 1 {
        assert(actions.last() == a);
        match a {
            ActionV::Finish(o) => {
                match o {
                    OutputV::Info(r) => {
                        lemma_info_completion(m, e, r);
                    },
                    _ => {
                        assert(false);
                    },
                }
            },
            _ => {
                assert(false);
            },
        }
        lemma_only_exchanges_send(a);
        assert(actions.skip(1) =~= Seq::<ActionV>::empty());
        assert(spec_count_exec_requests(Seq::<ActionV>::empty()) == 0);
        assert(spec_count_exec_requests(actions) == 0);
        assert(spec_info_requests_remaining(m2) == 0);
    } else {
        let rest = spec_run_actions(m2, events.skip(1));
        lemma_run_actions_len(m2, events.skip(1));
        assert(actions.skip(1) =~= rest);
        assert forall|i: int| 0 <= i < events.skip(1).len() implies !((#[trigger] rest[i])
            is Fail) by {
            assert(rest[i] == actions[i + 1]);
        }
        assert(rest.last() == actions.last());
        lemma_info_run_exact_count(m2, events.skip(1));
        assert(spec_count_exec_requests(actions) == (if spec_is_any_exec_request_send(a) {
            1int
        } else {
            0int
        }) + spec_count_exec_requests(rest));
    }
}

// ---------------------------------------------------------------------------
// The executable engine
// ---------------------------------------------------------------------------

impl Engine {
    /// A fresh engine, waiting for the device's unsolicited hello.
    pub fn new() -> (e: Engine)
        ensures
            e@ == (EngineV {
                state: State::AwaitHello,
                version: 0,
                serial: Seq::<u8>::empty(),
                hardware: HardwareId { model: 0, oem: 0, id: 0 },
            }),
    {
        Engine {
            state: State::AwaitHello,
            version: 0,
            serial: Vec::new(),
            hardware: HardwareId { model: 0, oem: 0, id: 0 },
        }
    }

    /// The engine's control state.
    pub fn state(&self) -> (s: State)
        ensures
            s == self@.state,
    {
        self.state
    }

    /// The protocol version learned from the device's hello.
    pub fn version(&self) -> (v: u32)
        ensures
            v == self@.version,
    {
        self.version
    }

    /// Starts the hello exchange. The device sends the first packet, so the
    /// only action is a read; feed the received bytes to [`Engine::step`].
    pub fn hello(&mut self) -> (a: Action)
        requires
            old(self)@.state == State::AwaitHello,
        ensures
            final(self)@ == (EngineV { state: State::HelloWait, ..old(self)@ }),
            a@ == (ActionV::Read { read_len: TRANSFER_SIZE }),
    {
        self.state = State::HelloWait;
        Action::Read { read_len: TRANSFER_SIZE }
    }

    /// Starts a mode switch: sends a hello response carrying the requested
    /// mode and awaits the device's reply.
    pub fn switch_mode(&mut self, mode: Mode) -> (a: Action)
        requires
            spec_idle(old(self)@.state),
        ensures
            final(self)@ == (EngineV {
                state: State::SwitchWait { mode, then: After::Plain },
                ..old(self)@
            }),
            a@ == (ActionV::Exchange {
                send: spec_hello_response_bytes(spec_switch_packet(old(self)@.version, mode)),
                read_len: TRANSFER_SIZE,
            }),
    {
        let send = self.switch_packet_bytes(mode);
        self.state = State::SwitchWait { mode, then: After::Plain };
        Action::Exchange { send, read_len: TRANSFER_SIZE }
    }

    /// Builds the hello response for a mode switch.
    fn switch_packet_bytes(&self, mode: Mode) -> (send: Vec<u8>)
        ensures
            send@ == spec_hello_response_bytes(spec_switch_packet(self@.version, mode)),
    {
        let packet = HelloResponse {
            version: self.version,
            compatible: 1,
            status: 0,
            mode: mode_code(mode),
        };
        encode_hello_response(&packet)
    }

    /// Starts a stand-alone two-phase command execution. The data phase is
    /// reached only through [`Engine::step`], and only once the device
    /// answers the request phase with an execute response.
    pub fn exec(&mut self, command: Command) -> (a: Action)
        requires
            old(self)@.state == (State::Ready { mode: Mode::Command }),
        ensures
            final(self)@ == (EngineV {
                state: State::ExecRespWait { command, cont: ExecCont::Standalone },
                ..old(self)@
            }),
            spec_engine_inv(final(self)@),
            a@ == (ActionV::Exchange {
                send: spec_exec_request_bytes(command),
                read_len: TRANSFER_SIZE,
            }),
    {
        let send = encode_exec(MSG_EXECUTE_REQUEST, &Exec { command: command_code(command) });
        self.state = State::ExecRespWait { command, cont: ExecCont::Standalone };
        Action::Exchange { send, read_len: TRANSFER_SIZE }
    }

    /// Starts the info operation: the serial number always, then hardware id
    /// and key hashes exactly when the negotiated version is below
    /// [`CAPABILITY_VERSION_LIMIT`].
    pub fn info(&mut self) -> (a: Action)
        requires
            old(self)@.state == (State::Ready { mode: Mode::Command }),
        ensures
            final(self)@ == (EngineV {
                state: State::ExecRespWait {
                    command: Command::GetSerialNum,
                    cont: ExecCont::InfoSerial,
                },
                ..old(self)@
            }),
            spec_engine_inv(final(self)@),
            a@ == (ActionV::Exchange {
                send: spec_exec_request_bytes(Command::GetSerialNum),
                read_len: TRANSFER_SIZE,
            }),
    {
        let send = encode_exec(
            MSG_EXECUTE_REQUEST,
            &Exec { command: command_code(Command::GetSerialNum) },
        );
        self.state = State::ExecRespWait {
            command: Command::GetSerialNum,
            cont: ExecCont::InfoSerial,
        };
        Action::Exchange { send, read_len: TRANSFER_SIZE }
    }

    /// Starts a memory read: switches the device to memory-debug mode, then
    /// requests [`MEMORY_READ_SIZE`] bytes at `address`.
    pub fn read_mem(&mut self, address: u32) -> (a: Action)
        requires
            spec_idle(old(self)@.state),
        ensures
            final(self)@ == (EngineV {
                state: State::SwitchWait { mode: Mode::MemoryDebug, then: After::Mem { address } },
                ..old(self)@
            }),
            a@ == (ActionV::Exchange {
                send: spec_hello_response_bytes(
                    spec_switch_packet(old(self)@.version, Mode::MemoryDebug),
                ),
                read_len: TRANSFER_SIZE,
            }),
    {
        let send = self.switch_packet_bytes(Mode::MemoryDebug);
        self.state = State::SwitchWait { mode: Mode::MemoryDebug, then: After::Mem { address } };
        Action::Exchange { send, read_len: TRANSFER_SIZE }
    }

    /// Starts a reset: sends the reset request and awaits the reply.
    pub fn reset(&mut self) -> (a: Action)
        requires
            spec_idle(old(self)@.state),
        ensures
            final(self)@ == (EngineV { state: State::ResetWait, ..old(self)@ }),
            a@ == (ActionV::Exchange {
                send: spec_reset_request_bytes(),
                read_len: TRANSFER_SIZE,
            }),
    {
        let send = encode_reset_request(&ResetRequest {});
        self.state = State::ResetWait;
        Action::Exchange { send, read_len: TRANSFER_SIZE }
    }

    /// Starts the end operation: switches the device back to image-transfer
    /// mode, then sends the done request.
    pub fn end(&mut self) -> (a: Action)
        requires
            spec_idle(old(self)@.state),
        ensures
            final(self)@ == (EngineV {
                state: State::SwitchWait { mode: Mode::ImageTxPending, then: After::Done },
                ..old(self)@
            }),
            a@ == (ActionV::Exchange {
                send: spec_hello_response_bytes(
                    spec_switch_packet(old(self)@.version, Mode::ImageTxPending),
                ),
                read_len: TRANSFER_SIZE,
            }),
    {
        let send = self.switch_packet_bytes(Mode::ImageTxPending);
        self.state = State::SwitchWait { mode: Mode::ImageTxPending, then: After::Done };
        Action::Exchange { send, read_len: TRANSFER_SIZE }
    }

    /// Advances the outstanding exchange by one received event. The
    /// transition taken is exactly [`engine_next`].
    pub fn step(&mut self, e: Event) -> (a: Action)
        requires
            spec_in_flight(old(self)@.state),
        ensures
            final(self)@ == engine_next(old(self)@, e@).0,
            a@ == engine_next(old(self)@, e@).1,
            spec_engine_inv(old(self)@) ==> spec_engine_inv(final(self)@),
    {
        let b = match e {
            Event::TransportFailed(f) => {
                self.state = State::Failed;
                return Action::Fail(fault_error(f));
            },
            Event::Received(b) => b,
        };
        let st = self.state;
        match st {
            State::HelloWait => self.on_hello_reply(b),
            State::SwitchWait { mode, then } => self.on_switch_reply(mode, then, b),
            State::ExecRespWait { command, cont } => self.on_exec_reply(command, cont, b),
            State::PayloadWait { command, cont } => self.on_payload_reply(command, cont, b),
            State::MemWait => self.on_mem_reply(b),
            State::ResetWait => self.on_reset_reply(b),
            State::DoneWait => self.on_done_reply(b),
            _ => {
                self.state = State::Failed;
                Action::Fail(SaharaError::Malformed)
            },
        }
    }

    /// Fails the engine with `err`.
    fn fail(&mut self, err: SaharaError) -> (a: Action)
        ensures
            final(self)@ == spec_failed(old(self)@, err).0,
            a@ == spec_failed(old(self)@, err).1,
    {
        self.state = State::Failed;
        Action::Fail(err)
    }

    fn on_hello_reply(&mut self, b: Vec<u8>) -> (a: Action)
        requires
            old(self)@.state == State::HelloWait,
        ensures
            final(self)@ == spec_hello_reply(old(self)@, b@).0,
            a@ == spec_hello_reply(old(self)@, b@).1,
    {
        if b.len() < 4 {
            return self.fail(SaharaError::Malformed);
        }
        let mt = read_u32_le(&b, 0);
        if mt != MSG_HELLO_REQUEST {
            return self.fail(SaharaError::ProtocolViolation(mt));
        }
        match decode_hello_request(&b) {
            Some(p) => {
                self.state = State::Negotiated;
                self.version = p.version;
                Action::Finish(Output::Hello { version: p.version, mode: p.mode })
            },
            None => self.fail(SaharaError::Malformed),
        }
    }

    fn on_switch_reply(&mut self, mode: Mode, then: After, b: Vec<u8>) -> (a: Action)
        requires
            old(self)@.state == (State::SwitchWait { mode, then }),
        ensures
            final(self)@ == spec_switch_reply(old(self)@, mode, then, b@).0,
            a@ == spec_switch_reply(old(self)@, mode, then, b@).1,
    {
        if b.len() < 4 {
            return self.fail(SaharaError::Malformed);
        }
        let mt = read_u32_le(&b, 0);
        if mt == MSG_END_OF_TRANSFER {
            return match decode_end_of_transfer(&b) {
                Some(eot) => self.fail(SaharaError::ModeSwitchFailed(eot.status)),
                None => self.fail(SaharaError::Malformed),
            };
        }
        if mt != MSG_READY {
            return self.fail(SaharaError::UnexpectedMessage(mt));
        }
        match then {
            After::Plain => {
                self.state = State::Ready { mode };
                Action::Finish(Output::ModeSwitched { mode })
            },
            After::Mem { address } => {
                let send = encode_memory_read(
                    &MemoryRead32 { address, size: MEMORY_READ_SIZE },
                );
                self.state = State::MemWait;
                Action::Exchange { send, read_len: MEMORY_READ_SIZE as usize }
            },
            After::Done => {
                let send = encode_done_request(&DoneRequest {});
                self.state = State::DoneWait;
                Action::Exchange { send, read_len: TRANSFER_SIZE }
            },
        }
    }

    fn on_exec_reply(&mut self, command: Command, cont: ExecCont, b: Vec<u8>) -> (a: Action)
        requires
            old(self)@.state == (State::ExecRespWait { command, cont }),
        ensures
            final(self)@ == spec_exec_reply(old(self)@, command, cont, b@).0,
            a@ == spec_exec_reply(old(self)@, command, cont, b@).1,
    {
        if b.len() < 4 {
            return self.fail(SaharaError::Malformed);
        }
        let mt = read_u32_le(&b, 0);
        if mt == MSG_END_OF_TRANSFER {
            return match decode_end_of_transfer(&b) {
                Some(eot) => self.fail(SaharaError::CommandFailed(eot.status)),
                None => self.fail(SaharaError::Malformed),
            };
        }
        if mt != MSG_EXECUTE_RESPONSE {
            return self.fail(SaharaError::UnexpectedMessage(mt));
        }
        let send = encode_exec(MSG_EXECUTE_DATA, &Exec { command: command_code(command) });
        self.state = State::PayloadWait { command, cont };
        Action::Exchange { send, read_len: TRANSFER_SIZE }
    }

    fn on_payload_reply(&mut self, command: Command, cont: ExecCont, b: Vec<u8>) -> (a: Action)
        requires
            old(self)@.state == (State::PayloadWait { command, cont }),
        ensures
            final(self)@ == spec_payload_reply(old(self)@, command, cont, b@).0,
            a@ == spec_payload_reply(old(self)@, command, cont, b@).1,
    {
        match cont {
            ExecCont::Standalone => {
                self.state = State::Ready { mode: Mode::Command };
                Action::Finish(Output::Payload(b))
            },
            ExecCont::InfoSerial => {
                if b.len() < SERIAL_NO_LEN {
                    return self.fail(SaharaError::Malformed);
                }
                self.serial = copy_range(&b, 0, SERIAL_NO_LEN);
                if self.version < CAPABILITY_VERSION_LIMIT {
                    let send = encode_exec(
                        MSG_EXECUTE_REQUEST,
                        &Exec { command: command_code(Command::GetHardwareId) },
                    );
                    self.state = State::ExecRespWait {
                        command: Command::GetHardwareId,
                        cont: ExecCont::InfoHw,
                    };
                    Action::Exchange { send, read_len: TRANSFER_SIZE }
                } else {
                    let serial = clone_bytes(&self.serial);
                    self.state = State::Ready { mode: Mode::Command };
                    Action::Finish(
                        Output::Info(InfoReport { serial, hardware: None, pk_hashes: None }),
                    )
                }
            },
            ExecCont::InfoHw => {
                if b.len() < HARDWARE_ID_LEN {
                    return self.fail(SaharaError::Malformed);
                }
                self.hardware = decode_hardware_id(&b).unwrap();
                let send = encode_exec(
                    MSG_EXECUTE_REQUEST,
                    &Exec { command: command_code(Command::GetOemPkHash) },
                );
                self.state = State::ExecRespWait {
                    command: Command::GetOemPkHash,
                    cont: ExecCont::InfoPk,
                };
                Action::Exchange { send, read_len: TRANSFER_SIZE }
            },
            ExecCont::InfoPk => {
                if b.len() < OEM_PK_HASH_LEN {
                    return self.fail(SaharaError::Malformed);
                }
                let pk = decode_oem_pk_hash(&b).unwrap();
                let serial = clone_bytes(&self.serial);
                self.state = State::Ready { mode: Mode::Command };
                Action::Finish(
                    Output::Info(
                        InfoReport {
                            serial,
                            hardware: Some(self.hardware),
                            pk_hashes: Some(pk),
                        },
                    ),
                )
            },
        }
    }

    fn on_mem_reply(&mut self, b: Vec<u8>) -> (a: Action)
        requires
            old(self)@.state == State::MemWait,
        ensures
            final(self)@ == spec_mem_reply(old(self)@, b@).0,
            a@ == spec_mem_reply(old(self)@, b@).1,
    {
        if b.len() >= 4 && read_u32_le(&b, 0) == MSG_END_OF_TRANSFER {
            return match decode_end_of_transfer(&b) {
                Some(eot) => self.fail(SaharaError::DeviceReportedFailure(eot.status)),
                None => self.fail(SaharaError::Malformed),
            };
        }
        if b.len() != MEMORY_READ_SIZE as usize {
            let got = b.len();
            return self.fail(SaharaError::IncompleteRead(got));
        }
        self.state = State::Ready { mode: Mode::MemoryDebug };
        Action::Finish(Output::Memory(b))
    }

    fn on_reset_reply(&mut self, b: Vec<u8>) -> (a: Action)
        requires
            old(self)@.state == State::ResetWait,
        ensures
            final(self)@ == spec_reset_reply(old(self)@, b@).0,
            a@ == spec_reset_reply(old(self)@, b@).1,
    {
        if b.len() < 4 {
            return self.fail(SaharaError::Malformed);
        }
        let mt = read_u32_le(&b, 0);
        if mt == MSG_END_OF_TRANSFER {
            return match decode_end_of_transfer(&b) {
                Some(eot) => self.fail(SaharaError::DeviceReportedFailure(eot.status)),
                None => self.fail(SaharaError::Malformed),
            };
        }
        if mt == MSG_RESET_RESPONSE {
            return match decode_reset_response(&b) {
                Some(_) => {
                    self.state = State::Closed;
                    Action::Finish(Output::ResetDone { acknowledged: true })
                },
                None => self.fail(SaharaError::Malformed),
            };
        }
        self.state = State::Closed;
        Action::Finish(Output::ResetDone { acknowledged: false })
    }

    fn on_done_reply(&mut self, b: Vec<u8>) -> (a: Action)
        requires
            old(self)@.state == State::DoneWait,
        ensures
            final(self)@ == spec_done_reply(old(self)@, b@).0,
            a@ == spec_done_reply(old(self)@, b@).1,
    {
        if b.len() < 4 {
            return self.fail(SaharaError::Malformed);
        }
        let mt = read_u32_le(&b, 0);
        if mt == MSG_END_OF_TRANSFER {
            return match decode_end_of_transfer(&b) {
                Some(eot) => self.fail(SaharaError::DeviceReportedFailure(eot.status)),
                None => self.fail(SaharaError::Malformed),
            };
        }
        if mt == MSG_DONE_RESPONSE {
            return match decode_done_response(&b) {
                Some(_) => {
                    self.state = State::Closed;
                    Action::Finish(Output::EndDone { acknowledged: true })
                },
                None => self.fail(SaharaError::Malformed),
            };
        }
        self.state = State::Closed;
        Action::Finish(Output::EndDone { acknowledged: false })
    }
}

} // verus!
