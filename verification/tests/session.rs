//! A session driven by edit, compile and step events.

use gdlk::error::RuntimeError;
use gdlk::render::format_errors;
use gdlk::session::{
    HeartbeatAction, IncomingEvent, OutgoingEvent, ProgramWebsocket, SessionState, SocketAction,
    SocketMessage, CLIENT_TIMEOUT, HEARTBEAT_INTERVAL,
};
use gdlk::validation::{HardwareSpec, ProgramSpec, Valid};

fn environment() -> (Valid<HardwareSpec>, Valid<ProgramSpec>) {
    (
        Valid::validate(HardwareSpec {
            num_registers: 1,
            num_stacks: 0,
            max_stack_length: 0,
        })
        .unwrap(),
        Valid::validate(ProgramSpec {
            input: vec![1, 2, 3],
            expected_output: vec![1, 2],
        })
        .unwrap(),
    )
}

fn edit(source: &str) -> IncomingEvent {
    IncomingEvent::Edit {
        source: source.to_string(),
    }
}

#[test]
fn test_new_session_has_no_program() {
    let session = ProgramWebsocket::new(0);
    assert_eq!(session.state(), SessionState::NoProgram);
    assert_eq!(session.source_code(), "");
    assert!(session.machine().is_none());
}

#[test]
fn test_step_before_compile() {
    let (hw, puzzle) = environment();
    let mut session = ProgramWebsocket::new(0);
    assert!(matches!(
        session.process_msg(IncomingEvent::Step, &hw, &puzzle),
        OutgoingEvent::NoCompilation
    ));
    assert_eq!(session.state(), SessionState::NoProgram);
    session.process_msg(edit("WRITE 1"), &hw, &puzzle);
    assert!(matches!(
        session.process_msg(IncomingEvent::Step, &hw, &puzzle),
        OutgoingEvent::NoCompilation
    ));
    assert_eq!(session.state(), SessionState::SourceOnly);
}

#[test]
fn test_compile_failure_answers_with_errors() {
    let (hw, puzzle) = environment();
    let mut session = ProgramWebsocket::new(0);
    match session.process_msg(IncomingEvent::Compile, &hw, &puzzle) {
        OutgoingEvent::CompileError(errors) => assert_eq!(
            format_errors(&errors),
            "Parse error: 0: in Alpha, got empty input\n\n"
        ),
        other => panic!("unexpected answer {:?}", other),
    }
    assert_eq!(session.state(), SessionState::NoProgram);
    assert!(matches!(
        session.process_msg(edit("WRITE RX1"), &hw, &puzzle),
        OutgoingEvent::Source
    ));
    assert_eq!(session.source_code(), "WRITE RX1");
    match session.process_msg(IncomingEvent::Compile, &hw, &puzzle) {
        OutgoingEvent::CompileError(errors) => {
            assert_eq!(format_errors(&errors), "Invalid reference to register RX1")
        }
        other => panic!("unexpected answer {:?}", other),
    }
    assert_eq!(session.state(), SessionState::SourceOnly);
    assert!(session.machine().is_none());
}

#[test]
fn test_edit_compile_step_to_the_end() {
    let (hw, puzzle) = environment();
    let mut session = ProgramWebsocket::new(0);
    session.process_msg(edit("READ RX0\nWRITE RX0\nREAD RX0\nWRITE RX0"), &hw, &puzzle);
    assert!(matches!(
        session.process_msg(IncomingEvent::Compile, &hw, &puzzle),
        OutgoingEvent::MachineState {
            is_complete: false,
            is_successful: false
        }
    ));
    assert_eq!(session.state(), SessionState::Compiled);
    assert_eq!(session.machine().unwrap().input(), &vec![1, 2, 3]);
    for _ in 0..3 {
        assert!(matches!(
            session.process_msg(IncomingEvent::Step, &hw, &puzzle),
            OutgoingEvent::MachineState {
                is_complete: false,
                is_successful: false
            }
        ));
        assert_eq!(session.state(), SessionState::Executing);
    }
    assert!(matches!(
        session.process_msg(IncomingEvent::Step, &hw, &puzzle),
        OutgoingEvent::MachineState {
            is_complete: true,
            is_successful: true
        }
    ));
    assert_eq!(session.machine().unwrap().output(), &vec![1, 2]);
    assert_eq!(session.machine().unwrap().cycle_count(), 4);
    assert!(matches!(
        session.process_msg(IncomingEvent::Step, &hw, &puzzle),
        OutgoingEvent::RuntimeError(RuntimeError::Terminated)
    ));
    assert_eq!(session.machine().unwrap().cycle_count(), 4);
}

#[test]
fn test_edit_discards_the_machine() {
    let (hw, puzzle) = environment();
    let mut session = ProgramWebsocket::new(0);
    session.process_msg(edit("WRITE 1"), &hw, &puzzle);
    session.process_msg(IncomingEvent::Compile, &hw, &puzzle);
    session.process_msg(IncomingEvent::Step, &hw, &puzzle);
    assert!(session.machine().is_some());
    session.process_msg(edit("WRITE 2"), &hw, &puzzle);
    assert!(session.machine().is_none());
    assert_eq!(session.state(), SessionState::SourceOnly);
    assert_eq!(session.source_code(), "WRITE 2");
    session.process_msg(edit(""), &hw, &puzzle);
    assert_eq!(session.state(), SessionState::NoProgram);
}

#[test]
fn test_recompile_restarts_the_machine() {
    let (hw, puzzle) = environment();
    let mut session = ProgramWebsocket::new(0);
    session.process_msg(edit("WRITE 1\nWRITE 2"), &hw, &puzzle);
    session.process_msg(IncomingEvent::Compile, &hw, &puzzle);
    session.process_msg(IncomingEvent::Step, &hw, &puzzle);
    assert_eq!(session.machine().unwrap().cycle_count(), 1);
    session.process_msg(IncomingEvent::Compile, &hw, &puzzle);
    assert_eq!(session.machine().unwrap().cycle_count(), 0);
    assert_eq!(session.state(), SessionState::Compiled);
}

#[test]
fn test_step_reports_a_runtime_error() {
    let (hw, _) = environment();
    let puzzle = Valid::validate(ProgramSpec {
        input: vec![],
        expected_output: vec![],
    })
    .unwrap();
    let mut session = ProgramWebsocket::new(0);
    session.process_msg(edit("READ RX0"), &hw, &puzzle);
    session.process_msg(IncomingEvent::Compile, &hw, &puzzle);
    assert!(matches!(
        session.process_msg(IncomingEvent::Step, &hw, &puzzle),
        OutgoingEvent::RuntimeError(RuntimeError::InputExhausted)
    ));
    assert_eq!(session.state(), SessionState::Executing);
    assert!(matches!(
        session.process_msg(IncomingEvent::Step, &hw, &puzzle),
        OutgoingEvent::RuntimeError(RuntimeError::Terminated)
    ));
}

#[test]
fn test_heartbeat_times_out_after_ten_seconds_of_silence() {
    assert_eq!(HEARTBEAT_INTERVAL, 5000);
    assert_eq!(CLIENT_TIMEOUT, 10000);
    let session = ProgramWebsocket::new(1000);
    assert_eq!(session.heartbeat(), 1000);
    assert_eq!(session.heartbeat_action(1000), HeartbeatAction::Ping);
    assert_eq!(session.heartbeat_action(6000), HeartbeatAction::Ping);
    assert_eq!(session.heartbeat_action(11000), HeartbeatAction::Ping);
    assert_eq!(session.heartbeat_action(11001), HeartbeatAction::Stop);
    assert_eq!(session.heartbeat_action(u64::MAX), HeartbeatAction::Stop);
    assert_eq!(session.heartbeat_action(0), HeartbeatAction::Ping);
}

#[test]
fn test_ping_and_pong_are_signs_of_life() {
    let (hw, puzzle) = environment();
    let mut session = ProgramWebsocket::new(0);
    match session.handle(SocketMessage::Ping(vec![1, 2, 3]), 20000, &hw, &puzzle) {
        SocketAction::Pong(payload) => assert_eq!(payload, vec![1, 2, 3]),
        other => panic!("unexpected action {:?}", other),
    }
    assert_eq!(session.heartbeat(), 20000);
    assert_eq!(session.heartbeat_action(25000), HeartbeatAction::Ping);
    assert!(matches!(
        session.handle(SocketMessage::Pong, 40000, &hw, &puzzle),
        SocketAction::Nothing
    ));
    assert_eq!(session.heartbeat(), 40000);
}

#[test]
fn test_handle_other_messages() {
    let (hw, puzzle) = environment();
    let mut session = ProgramWebsocket::new(7);
    assert!(matches!(
        session.handle(SocketMessage::Binary, 100, &hw, &puzzle),
        SocketAction::Nothing
    ));
    assert!(matches!(
        session.handle(SocketMessage::Nop, 100, &hw, &puzzle),
        SocketAction::Nothing
    ));
    assert!(matches!(
        session.handle(SocketMessage::Close, 100, &hw, &puzzle),
        SocketAction::Stop
    ));
    match session.handle(SocketMessage::Malformed("expected value".to_string()), 100, &hw, &puzzle)
    {
        SocketAction::Send(OutgoingEvent::MalformedMessage(reason)) => {
            assert_eq!(reason, "expected value")
        }
        other => panic!("unexpected action {:?}", other),
    }
    assert_eq!(session.heartbeat(), 7);
    assert_eq!(session.state(), SessionState::NoProgram);
    assert!(matches!(
        session.handle(SocketMessage::Event(edit("WRITE 1")), 100, &hw, &puzzle),
        SocketAction::Send(OutgoingEvent::Source)
    ));
    assert_eq!(session.source_code(), "WRITE 1");
    assert!(matches!(
        session.handle(SocketMessage::Event(IncomingEvent::Compile), 100, &hw, &puzzle),
        SocketAction::Send(OutgoingEvent::MachineState {
            is_complete: false,
            is_successful: false
        })
    ));
    assert_eq!(session.heartbeat(), 7);
}

#[test]
fn test_event_from_machine_reports_its_status() {
    let (hw, puzzle) = environment();
    let mut session = ProgramWebsocket::new(0);
    session.process_msg(edit("READ RX0\nWRITE RX0\nREAD RX0\nWRITE RX0"), &hw, &puzzle);
    session.process_msg(IncomingEvent::Compile, &hw, &puzzle);
    assert!(matches!(
        OutgoingEvent::from_machine(session.machine().unwrap()),
        OutgoingEvent::MachineState {
            is_complete: false,
            is_successful: false
        }
    ));
    for _ in 0..4 {
        session.process_msg(IncomingEvent::Step, &hw, &puzzle);
    }
    assert!(matches!(
        OutgoingEvent::from_machine(session.machine().unwrap()),
        OutgoingEvent::MachineState {
            is_complete: true,
            is_successful: true
        }
    ));
}
