//! Scenario tests driving the protocol engine with scripted device replies.

use sahara::engine::{
    Action, Command, Engine, Event, Mode, Output, SaharaError, State, TransportFault,
};
use sahara::wire::{
    encode_done_response, encode_end_of_transfer, encode_hello_request, encode_reset_response,
    DoneResponse, EndOfTransfer, HelloRequest, ResetResponse,
};

/// A well-formed hello request as the device sends it.
fn device_hello(version: u32, mode: u32) -> Vec<u8> {
    encode_hello_request(&HelloRequest { version, compatible: 1, max_len: 0x400, mode })
}

/// The bare ready reply acknowledging a mode switch.
fn device_ready() -> Vec<u8> {
    vec![0x0b, 0, 0, 0, 8, 0, 0, 0]
}

/// The response phase of a command execution, as the device replies.
fn device_exec_response(command: u32) -> Vec<u8> {
    let mut b = vec![0x0e, 0, 0, 0, 0x0c, 0, 0, 0];
    b.extend_from_slice(&command.to_le_bytes());
    b
}

fn device_eot(status: u32) -> Vec<u8> {
    encode_end_of_transfer(&EndOfTransfer { image: 0, status })
}

/// Unpacks an exchange action.
fn expect_exchange(a: Action) -> (Vec<u8>, usize) {
    match a {
        Action::Exchange { send, read_len } => (send, read_len),
        other => panic!("expected an exchange, got {other:?}"),
    }
}

fn expect_fail(a: Action) -> SaharaError {
    match a {
        Action::Fail(e) => e,
        other => panic!("expected a failure, got {other:?}"),
    }
}

/// Whether sent bytes are the request phase of a command execution.
fn is_exec_request(send: &[u8]) -> bool {
    send.len() == 12 && send[0..4] == [0x0d, 0, 0, 0]
}

/// Runs a fresh engine through hello and a mode switch to `mode`.
fn ready_engine(version: u32, mode: Mode) -> Engine {
    let mut engine = Engine::new();
    match engine.hello() {
        Action::Read { read_len } => assert_eq!(read_len, 0x400),
        other => panic!("expected a read, got {other:?}"),
    }
    match engine.step(Event::Received(device_hello(version, 0))) {
        Action::Finish(Output::Hello { version: v, mode: m }) => {
            assert_eq!(v, version);
            assert_eq!(m, 0);
        },
        other => panic!("expected the hello outcome, got {other:?}"),
    }
    assert_eq!(engine.version(), version);
    let (send, read_len) = expect_exchange(engine.switch_mode(mode));
    assert_eq!(send.len(), 48);
    assert_eq!(read_len, 0x400);
    match engine.step(Event::Received(device_ready())) {
        Action::Finish(Output::ModeSwitched { mode: m }) => assert_eq!(m, mode),
        other => panic!("expected the switch outcome, got {other:?}"),
    }
    assert_eq!(engine.state(), State::Ready { mode });
    engine
}

#[test]
fn fresh_engine_awaits_the_hello() {
    let engine = Engine::new();
    assert_eq!(engine.state(), State::AwaitHello);
    assert_eq!(engine.version(), 0);
}

#[test]
fn scenario_serial_number_via_exec() {
    // Hello at version 2, command mode, execute the serial-number command;
    // the payload bytes come back exactly and in order.
    let mut engine = ready_engine(2, Mode::Command);
    let (send, _) = expect_exchange(engine.exec(Command::GetSerialNum));
    assert!(is_exec_request(&send));
    assert_eq!(send[8..12], [0x01, 0, 0, 0]);

    let (send, _) = expect_exchange(engine.step(Event::Received(device_exec_response(1))));
    assert_eq!(send[0..4], [0x0f, 0, 0, 0]);
    assert_eq!(send[8..12], [0x01, 0, 0, 0]);

    let payload = vec![0xde, 0xad, 0xbe, 0xef, 0x00, 0x11, 0x22, 0x33];
    match engine.step(Event::Received(payload)) {
        Action::Finish(Output::Payload(data)) => {
            let hex: String = data.iter().map(|b| format!("{b:02X}")).collect();
            assert_eq!(hex, "DEADBEEF00112233");
        },
        other => panic!("expected the payload, got {other:?}"),
    }
    assert_eq!(engine.state(), State::Ready { mode: Mode::Command });
}

#[test]
fn hello_rejects_every_other_message_type() {
    for mt in [0u32, 0x2, 0x3, 0x4, 0xb, 0xd, 0x13, 0xffff_ffff] {
        let mut engine = Engine::new();
        engine.hello();
        let mut first = device_hello(2, 0);
        first[0..4].copy_from_slice(&mt.to_le_bytes());
        let e = expect_fail(engine.step(Event::Received(first)));
        assert_eq!(e, SaharaError::ProtocolViolation(mt));
        assert_eq!(engine.state(), State::Failed);
    }
}

#[test]
fn hello_rejects_bad_length_field() {
    let mut engine = Engine::new();
    engine.hello();
    let mut first = device_hello(2, 0);
    first[4] = 0x30;
    let e = expect_fail(engine.step(Event::Received(first)));
    assert_eq!(e, SaharaError::Malformed);
}

#[test]
fn exec_halts_before_data_phase_on_device_failure() {
    // The data phase must never be issued when phase one fails: exactly one
    // write happens, and the command failure carries the device's status.
    let mut engine = ready_engine(2, Mode::Command);
    let mut writes: u32 = 0;
    let a = engine.exec(Command::GetHardwareId);
    if matches!(a, Action::Exchange { .. }) {
        writes += 1;
    }
    let a = engine.step(Event::Received(device_eot(0x09)));
    if matches!(a, Action::Exchange { .. }) {
        writes += 1;
    }
    assert_eq!(expect_fail(a), SaharaError::CommandFailed(0x09));
    assert_eq!(writes, 1);
}

#[test]
fn exec_halts_before_data_phase_on_unexpected_reply() {
    let mut engine = ready_engine(2, Mode::Command);
    engine.exec(Command::GetSerialNum);
    let a = engine.step(Event::Received(device_ready()));
    assert_eq!(expect_fail(a), SaharaError::UnexpectedMessage(0x0b));
    assert_eq!(engine.state(), State::Failed);
}

/// Drives a whole info run against a compliant scripted device and returns
/// the number of execution requests issued and the final output.
fn run_info(version: u32) -> (usize, Output) {
    let mut engine = ready_engine(version, Mode::Command);
    let mut exec_requests: usize = 0;
    let mut action = engine.info();
    loop {
        match action {
            Action::Exchange { send, .. } => {
                if is_exec_request(&send) {
                    exec_requests += 1;
                    let command = u32::from_le_bytes([send[8], send[9], send[10], send[11]]);
                    action = engine.step(Event::Received(device_exec_response(command)));
                } else {
                    // The data phase: reply with the payload of the command
                    // it names.
                    let command = u32::from_le_bytes([send[8], send[9], send[10], send[11]]);
                    let payload = match command {
                        0x01 => vec![0xde, 0xad, 0xbe, 0xef, 0x00, 0x11, 0x22, 0x33],
                        0x02 => vec![0x34, 0x12, 0x42, 0x00, 0xe1, 0x00, 0x9b, 0x00],
                        0x03 => {
                            let mut h = vec![0x11; 32];
                            h.extend_from_slice(&[0x22; 32]);
                            h.extend_from_slice(&[0x33; 32]);
                            h
                        },
                        other => panic!("unexpected command {other}"),
                    };
                    action = engine.step(Event::Received(payload));
                }
            },
            Action::Finish(out) => return (exec_requests, out),
            other => panic!("info run stopped: {other:?}"),
        }
    }
}

#[test]
fn info_at_version_three_issues_exactly_one_exec() {
    let (exec_requests, out) = run_info(3);
    assert_eq!(exec_requests, 1);
    match out {
        Output::Info(report) => {
            assert_eq!(report.serial, vec![0xde, 0xad, 0xbe, 0xef, 0x00, 0x11, 0x22, 0x33]);
            assert!(report.hardware.is_none());
            assert!(report.pk_hashes.is_none());
        },
        other => panic!("expected the info outcome, got {other:?}"),
    }
}

#[test]
fn info_at_version_two_issues_exactly_three_execs() {
    let (exec_requests, out) = run_info(2);
    assert_eq!(exec_requests, 3);
    match out {
        Output::Info(report) => {
            assert_eq!(report.serial, vec![0xde, 0xad, 0xbe, 0xef, 0x00, 0x11, 0x22, 0x33]);
            let hw = report.hardware.unwrap();
            assert_eq!(hw.model, 0x1234);
            assert_eq!(hw.oem, 0x0042);
            assert_eq!(hw.id, 0x009b00e1);
            let pk = report.pk_hashes.unwrap();
            assert_eq!(pk.hash1, vec![0x11; 32]);
            assert_eq!(pk.hash2, vec![0x22; 32]);
            assert_eq!(pk.hash3, vec![0x33; 32]);
        },
        other => panic!("expected the info outcome, got {other:?}"),
    }
}

#[test]
fn scenario_mode_switch_rejected_by_device() {
    // The device answers the mode switch with end of transfer, status 0x06:
    // the engine reports exactly that status and proceeds to no command.
    let mut engine = Engine::new();
    engine.hello();
    engine.step(Event::Received(device_hello(2, 0)));
    engine.switch_mode(Mode::Command);
    let e = expect_fail(engine.step(Event::Received(device_eot(0x06))));
    assert_eq!(e, SaharaError::ModeSwitchFailed(0x06));
    assert_eq!(engine.state(), State::Failed);
}

#[test]
fn switch_mode_rejects_unexpected_reply_type() {
    let mut engine = Engine::new();
    engine.hello();
    engine.step(Event::Received(device_hello(2, 0)));
    engine.switch_mode(Mode::Command);
    let reply = vec![0x12, 0, 0, 0, 8, 0, 0, 0];
    let e = expect_fail(engine.step(Event::Received(reply)));
    assert_eq!(e, SaharaError::UnexpectedMessage(0x12));
}

#[test]
fn scenario_read_mem_flags_short_read() {
    // The device returns fewer bytes than requested: the engine flags the
    // incomplete read instead of interpreting the short buffer as data.
    let mut engine = Engine::new();
    engine.hello();
    engine.step(Event::Received(device_hello(2, 0)));
    let (send, read_len) = expect_exchange(engine.read_mem(0x1000));
    assert_eq!(send.len(), 48);
    assert_eq!(read_len, 0x400);
    let (send, read_len) = expect_exchange(engine.step(Event::Received(device_ready())));
    assert_eq!(send, vec![0x0a, 0, 0, 0, 16, 0, 0, 0, 0x00, 0x10, 0, 0, 0x10, 0, 0, 0]);
    assert_eq!(read_len, 16);
    let short = vec![0xaa; 8];
    let e = expect_fail(engine.step(Event::Received(short)));
    assert_eq!(e, SaharaError::IncompleteRead(8));
}

#[test]
fn read_mem_returns_exactly_requested_bytes() {
    let mut engine = Engine::new();
    engine.hello();
    engine.step(Event::Received(device_hello(2, 0)));
    engine.read_mem(0x1000);
    engine.step(Event::Received(device_ready()));
    let data: Vec<u8> = (1..=16).collect();
    match engine.step(Event::Received(data.clone())) {
        Action::Finish(Output::Memory(got)) => assert_eq!(got, data),
        other => panic!("expected the memory bytes, got {other:?}"),
    }
    assert_eq!(engine.state(), State::Ready { mode: Mode::MemoryDebug });
}

#[test]
fn read_mem_rejects_eot_lookalike_with_bad_length() {
    // Sixteen bytes whose first word reads as end-of-transfer are taken for a
    // failure report; with a wrong length field that report is malformed.
    let mut engine = Engine::new();
    engine.hello();
    engine.step(Event::Received(device_hello(2, 0)));
    engine.read_mem(0x1000);
    engine.step(Event::Received(device_ready()));
    let mut lookalike = vec![0x04, 0, 0, 0];
    lookalike.extend_from_slice(&[0xff; 12]);
    let e = expect_fail(engine.step(Event::Received(lookalike)));
    assert_eq!(e, SaharaError::Malformed);
}

#[test]
fn read_mem_reports_device_refusal() {
    let mut engine = Engine::new();
    engine.hello();
    engine.step(Event::Received(device_hello(2, 0)));
    engine.read_mem(0x1000);
    engine.step(Event::Received(device_ready()));
    let e = expect_fail(engine.step(Event::Received(device_eot(0x0b))));
    assert_eq!(e, SaharaError::DeviceReportedFailure(0x0b));
}

#[test]
fn reset_acknowledged() {
    let mut engine = Engine::new();
    engine.hello();
    engine.step(Event::Received(device_hello(2, 0)));
    let (send, _) = expect_exchange(engine.reset());
    assert_eq!(send, vec![0x07, 0, 0, 0, 8, 0, 0, 0]);
    match engine.step(Event::Received(encode_reset_response(&ResetResponse {}))) {
        Action::Finish(Output::ResetDone { acknowledged }) => assert!(acknowledged),
        other => panic!("expected the reset outcome, got {other:?}"),
    }
    assert_eq!(engine.state(), State::Closed);
}

#[test]
fn reset_unexpected_reply_is_not_fatal() {
    let mut engine = Engine::new();
    engine.hello();
    engine.step(Event::Received(device_hello(2, 0)));
    engine.reset();
    match engine.step(Event::Received(device_ready())) {
        Action::Finish(Output::ResetDone { acknowledged }) => assert!(!acknowledged),
        other => panic!("expected the reset outcome, got {other:?}"),
    }
}

#[test]
fn reset_device_failure_is_reported() {
    let mut engine = Engine::new();
    engine.hello();
    engine.step(Event::Received(device_hello(2, 0)));
    engine.reset();
    let e = expect_fail(engine.step(Event::Received(device_eot(0x04))));
    assert_eq!(e, SaharaError::DeviceReportedFailure(0x04));
}

#[test]
fn end_switches_mode_then_sends_done() {
    let mut engine = Engine::new();
    engine.hello();
    engine.step(Event::Received(device_hello(2, 0)));
    let (send, _) = expect_exchange(engine.end());
    // The switch requests image-transfer-pending mode, value zero.
    assert_eq!(send[20..24], [0, 0, 0, 0]);
    let (send, _) = expect_exchange(engine.step(Event::Received(device_ready())));
    assert_eq!(send, vec![0x05, 0, 0, 0, 8, 0, 0, 0]);
    match engine.step(Event::Received(encode_done_response(&DoneResponse { status: 0 }))) {
        Action::Finish(Output::EndDone { acknowledged }) => assert!(acknowledged),
        other => panic!("expected the end outcome, got {other:?}"),
    }
    assert_eq!(engine.state(), State::Closed);
}

#[test]
fn end_device_failure_is_reported() {
    let mut engine = Engine::new();
    engine.hello();
    engine.step(Event::Received(device_hello(2, 0)));
    engine.end();
    engine.step(Event::Received(device_ready()));
    let e = expect_fail(engine.step(Event::Received(device_eot(0x05))));
    assert_eq!(e, SaharaError::DeviceReportedFailure(0x05));
}

#[test]
fn switch_mode_rejects_malformed_failure_report() {
    // An end-of-transfer reply whose length field is wrong is malformed, not
    // a readable failure report.
    let mut engine = Engine::new();
    engine.hello();
    engine.step(Event::Received(device_hello(2, 0)));
    engine.switch_mode(Mode::Command);
    let mut reply = device_eot(0x06);
    reply[4] = 8;
    let e = expect_fail(engine.step(Event::Received(reply)));
    assert_eq!(e, SaharaError::Malformed);
}

#[test]
fn info_rejects_short_serial_payload() {
    let mut engine = ready_engine(2, Mode::Command);
    engine.info();
    engine.step(Event::Received(device_exec_response(1)));
    let e = expect_fail(engine.step(Event::Received(vec![0xde, 0xad, 0xbe])));
    assert_eq!(e, SaharaError::Malformed);
    assert_eq!(engine.state(), State::Failed);
}

#[test]
fn reply_shorter_than_a_message_type_is_malformed() {
    let mut engine = Engine::new();
    engine.hello();
    let e = expect_fail(engine.step(Event::Received(vec![0x01, 0x00])));
    assert_eq!(e, SaharaError::Malformed);
}

#[test]
fn transport_timeout_surfaces_as_timeout() {
    let mut engine = Engine::new();
    engine.hello();
    let e = expect_fail(engine.step(Event::TransportFailed(TransportFault::TimedOut)));
    assert_eq!(e, SaharaError::Timeout);
}

#[test]
fn transport_fault_surfaces_as_transport_failure() {
    let mut engine = Engine::new();
    engine.hello();
    engine.step(Event::Received(device_hello(2, 0)));
    engine.switch_mode(Mode::Command);
    let e = expect_fail(engine.step(Event::TransportFailed(TransportFault::Failure)));
    assert_eq!(e, SaharaError::TransportFailure);
}

#[test]
fn switch_mode_sends_negotiated_version_and_mode() {
    let mut engine = Engine::new();
    engine.hello();
    engine.step(Event::Received(device_hello(2, 0)));
    let (send, _) = expect_exchange(engine.switch_mode(Mode::Command));
    // Header, then version, compatible, status, mode, and the reserved tail.
    assert_eq!(send[0..4], [0x02, 0, 0, 0]);
    assert_eq!(send[4..8], [48, 0, 0, 0]);
    assert_eq!(send[8..12], [2, 0, 0, 0]);
    assert_eq!(send[12..16], [1, 0, 0, 0]);
    assert_eq!(send[16..20], [0, 0, 0, 0]);
    assert_eq!(send[20..24], [3, 0, 0, 0]);
    assert_eq!(&send[24..], &[0u8; 24]);
}
