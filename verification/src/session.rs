//! An interactive session: a client edits a source, compiles it and steps
//! through it, one event at a time.

use vstd::prelude::*;
use vstd::utf8::encode_utf8;
use crate::compiler::{compile, compile_spec};
use crate::error::{view_errors, CompileError, RuntimeError};
use crate::machine::{Machine, MachineModel, MachineStatus};
use crate::validation::{HardwareSpec, ProgramSpec, Valid};

verus! {

/// What a client can ask of a session.
#[derive(Debug)]
pub enum IncomingEvent {
    /// Replace the source.
    Edit { source: String },
    /// Compile the current source into a fresh machine.
    Compile,
    /// Execute one instruction on the current machine.
    Step,
}

/// What a session answers.
#[derive(Debug)]
pub enum OutgoingEvent {
    /// The source was replaced; the session holds the new one.
    Source,
    /// The session's machine changed; its state can be read from the
    /// session.
    MachineState { is_complete: bool, is_successful: bool },
    /// The source did not compile.
    CompileError(Vec<CompileError>),
    /// The instruction failed, or the machine had already halted.
    RuntimeError(RuntimeError),
    /// A step was asked for before any successful compile.
    NoCompilation,
    /// The client's message could not be read; the text says why.
    MalformedMessage(String),
}

/// How often a session pings its client, in milliseconds.
pub const HEARTBEAT_INTERVAL: u64 = 5000;

/// How long a client may stay silent before its session is closed, in
/// milliseconds.
pub const CLIENT_TIMEOUT: u64 = 10000;

/// What arrives on a session's connection.
#[derive(Debug)]
pub enum SocketMessage {
    /// A ping, with its payload.
    Ping(Vec<u8>),
    /// The answer to a ping of ours.
    Pong,
    /// A text message that was read as an event.
    Event(IncomingEvent),
    /// A text message that could not be read, with the reason.
    Malformed(String),
    /// A binary message.
    Binary,
    /// The client closes the connection.
    Close,
    /// Nothing.
    Nop,
}

/// What a session does on its connection in answer to a message.
#[derive(Debug)]
pub enum SocketAction {
    /// Answer a ping with its payload.
    Pong(Vec<u8>),
    /// Send an event to the client.
    Send(OutgoingEvent),
    /// Close the connection.
    Stop,
    /// Do nothing.
    Nothing,
}

/// What a session does when its heartbeat timer fires.
#[derive(Clone, Copy, Debug, PartialEq, Eq, Structural)]
pub enum HeartbeatAction {
    /// The client is alive: ping it again.
    Ping,
    /// The client has been silent for too long: close the connection.
    Stop,
}

/// Where a session is.
#[derive(Clone, Copy, Debug, PartialEq, Eq, Structural)]
pub enum SessionState {
    /// No source has been entered and nothing is compiled.
    NoProgram,
    /// There is a source, and no machine for it.
    SourceOnly,
    /// A machine was allocated and has not executed anything yet.
    Compiled,
    /// The machine has executed an instruction or has halted.
    Executing,
}

/// The mathematical value of a session.
pub struct SessionModel {
    pub heartbeat: u64,
    pub source: Seq<char>,
    pub machine: Option<MachineModel>,
}

impl SessionModel {
    /// Where the session is.
    pub open spec fn state(self) -> SessionState {
        match self.machine {
            None => if self.source.len() == 0 {
                SessionState::NoProgram
            } else {
                SessionState::SourceOnly
            },
            Some(machine) => if machine.status() == MachineStatus::Ready {
                SessionState::Compiled
            } else {
                SessionState::Executing
            },
        }
    }

    /// The session after an edit: the new source, and no machine.
    pub open spec fn edited(self, source: Seq<char>) -> SessionModel {
        SessionModel { source, machine: None, ..self }
    }

    /// Whether a client last heard of at `heartbeat` counts as lost at
    /// `now`. A clock that ran backwards counts as no time passed.
    pub open spec fn timed_out(self, now: u64) -> bool {
        now > self.heartbeat && now - self.heartbeat > CLIENT_TIMEOUT
    }

    /// The session after a sign of life at `now`.
    pub open spec fn alive_at(self, now: u64) -> SessionModel {
        SessionModel { heartbeat: now, ..self }
    }

    /// The session after a compile for `hardware` and the puzzle with
    /// `input` and `expected_output`: a fresh machine if the source
    /// compiles, else the session as it was.
    pub open spec fn compiled(
        self,
        hardware: HardwareSpec,
        input: Seq<i32>,
        expected_output: Seq<i32>,
    ) -> SessionModel {
        match compile_spec(hardware, encode_utf8(self.source)) {
            Ok(instructions) => SessionModel {
                machine: Some(
                    MachineModel::initial(hardware, instructions, input, expected_output),
                ),
                ..self
            },
            Err(_) => self,
        }
    }

    /// The session after a step: its machine, if it has one, has stepped.
    pub open spec fn stepped(self) -> SessionModel {
        match self.machine {
            None => self,
            Some(machine) => SessionModel { machine: Some(machine.step()), ..self },
        }
    }
}

/// Whether `answer` reports the machine `machine`.
pub open spec fn reports(answer: OutgoingEvent, machine: MachineModel) -> bool {
    answer matches OutgoingEvent::MachineState { is_complete, is_successful }
        && is_complete == machine.is_terminal() && is_successful == machine.is_successful()
}

/// Whether a session that was `before` is `after` once it has handled
/// `event`, and `answer` is what it says.
///
/// An edit replaces the source and drops the machine. A compile puts a
/// fresh machine in place if the source compiles for `hardware`, and
/// answers with the errors and changes nothing if it does not. A step
/// executes one instruction on the machine and answers with its new
/// status or with the error; without a machine it changes nothing.
pub open spec fn handled(
    before: SessionModel,
    event: IncomingEvent,
    hardware: HardwareSpec,
    puzzle: ProgramSpec,
    after: SessionModel,
    answer: OutgoingEvent,
) -> bool {
    match event {
        IncomingEvent::Edit { source } => {
            &&& after == before.edited(source@)
            &&& answer is Source
        },
        IncomingEvent::Compile => {
            &&& after == before.compiled(hardware, puzzle.input@, puzzle.expected_output@)
            &&& match compile_spec(hardware, encode_utf8(before.source)) {
                Ok(_) => reports(answer, after.machine.unwrap()),
                Err(errors) => answer matches OutgoingEvent::CompileError(found) && view_errors(
                    found@,
                ) == errors,
            }
        },
        IncomingEvent::Step => {
            &&& after == before.stepped()
            &&& match before.machine {
                None => answer is NoCompilation,
                Some(machine) => match machine.step_result() {
                    Ok(()) => reports(answer, machine.step()),
                    Err(error) => answer matches OutgoingEvent::RuntimeError(found) && found
                        == error,
                },
            }
        },
    }
}

impl OutgoingEvent {
    /// The event that reports `machine`.
    pub fn from_machine(machine: &Machine) -> (event: OutgoingEvent)
        ensures
            reports(event, machine@),
    {
        OutgoingEvent::MachineState {
            is_complete: machine.is_complete(),
            is_successful: machine.is_successful(),
        }
    }
}

/// The state of one client's session: the source as last edited, and the
/// machine of the last successful compile, if the source has not been
/// edited since.
#[derive(Debug)]
pub struct ProgramWebsocket {
    heartbeat: u64,
    source_code: String,
    machine: Option<Machine>,
}

impl View for ProgramWebsocket {
    type V = SessionModel;

    closed spec fn view(&self) -> SessionModel {
        SessionModel {
            heartbeat: self.heartbeat,
            source: self.source_code@,
            machine: match self.machine {
                None => None,
                Some(machine) => Some(machine@),
            },
        }
    }
}

impl ProgramWebsocket {
    /// The invariant of a session: its machine, if any, is well formed.
    pub open spec fn wf(&self) -> bool {
        self@.machine matches Some(machine) ==> machine.wf()
    }

    /// A session that starts at the time `now`, in milliseconds, with an
    /// empty source and no machine.
    pub fn new(now: u64) -> (session: Self)
        ensures
            session.wf(),
            session@ == (SessionModel { heartbeat: now, source: Seq::empty(), machine: None }),
            session@.state() == SessionState::NoProgram,
    {
        ProgramWebsocket { heartbeat: now, source_code: String::new(), machine: None }
    }

    /// When the client last gave a sign of life, in milliseconds.
    pub fn heartbeat(&self) -> (r: u64)
        ensures
            r == self@.heartbeat,
    {
        self.heartbeat
    }

    /// What to do when the heartbeat timer fires at `now`: close the
    /// connection if the client has been silent for more than
    /// [`CLIENT_TIMEOUT`], else ping it.
    pub fn heartbeat_action(&self, now: u64) -> (r: HeartbeatAction)
        ensures
            r == if self@.timed_out(now) {
                HeartbeatAction::Stop
            } else {
                HeartbeatAction::Ping
            },
    {
        if now > self.heartbeat && now - self.heartbeat > CLIENT_TIMEOUT {
            HeartbeatAction::Stop
        } else {
            HeartbeatAction::Ping
        }
    }

    /// The source as last edited.
    pub fn source_code(&self) -> (r: &str)
        ensures
            r@ == self@.source,
    {
        self.source_code.as_str()
    }

    /// The machine of the last successful compile, if the source has not
    /// been edited since.
    pub fn machine(&self) -> (r: Option<&Machine>)
        ensures
            match r {
                None => self@.machine is None,
                Some(machine) => self@.machine == Some(machine@),
            },
    {
        self.machine.as_ref()
    }

    /// Where the session is.
    pub fn state(&self) -> (r: SessionState)
        ensures
            r == self@.state(),
    {
        match &self.machine {
            None => if self.source_code.as_str().unicode_len() == 0 {
                SessionState::NoProgram
            } else {
                SessionState::SourceOnly
            },
            Some(machine) => match machine.status() {
                MachineStatus::Ready => SessionState::Compiled,
                _ => SessionState::Executing,
            },
        }
    }

    /// Handles one event and says what to answer: see [`handled`].
    pub fn process_msg(
        &mut self,
        event: IncomingEvent,
        hardware: &Valid<HardwareSpec>,
        puzzle: &Valid<ProgramSpec>,
    ) -> (answer: OutgoingEvent)
        requires
            old(self).wf(),
        ensures
            final(self).wf(),
            handled(old(self)@, event, hardware.value(), puzzle.value(), final(self)@, answer),
    {
        match event {
            IncomingEvent::Edit { source } => {
                self.source_code = source;
                self.machine = None;
                OutgoingEvent::Source
            },
            IncomingEvent::Compile => {
                match compile(hardware, self.source_code.as_str()) {
                    Ok(program) => {
                        let machine = Machine::allocate(program, puzzle);
                        let answer = OutgoingEvent::from_machine(&machine);
                        self.machine = Some(machine);
                        answer
                    },
                    Err(errors) => OutgoingEvent::CompileError(errors),
                }
            },
            IncomingEvent::Step => {
                match &mut self.machine {
                    None => OutgoingEvent::NoCompilation,
                    Some(machine) => match machine.execute_next() {
                        Ok(()) => OutgoingEvent::from_machine(machine),
                        Err(error) => OutgoingEvent::RuntimeError(error),
                    },
                }
            },
        }
    }

    /// Handles one message that arrived at the time `now` and says what to
    /// do on the connection.
    ///
    /// A ping and a pong are signs of life; a ping is answered with its
    /// payload. An event is handled as [`handled`] says and its answer is
    /// sent. A message that could not be read is answered with the reason.
    /// A close stops the session. Anything else is ignored.
    pub fn handle(
        &mut self,
        message: SocketMessage,
        now: u64,
        hardware: &Valid<HardwareSpec>,
        puzzle: &Valid<ProgramSpec>,
    ) -> (action: SocketAction)
        requires
            old(self).wf(),
        ensures
            final(self).wf(),
            match message {
                SocketMessage::Ping(payload) => {
                    &&& final(self)@ == old(self)@.alive_at(now)
                    &&& action matches SocketAction::Pong(echo) && echo == payload
                },
                SocketMessage::Pong => {
                    &&& final(self)@ == old(self)@.alive_at(now)
                    &&& action is Nothing
                },
                SocketMessage::Event(event) => action matches SocketAction::Send(answer)
                    && handled(
                    old(self)@,
                    event,
                    hardware.value(),
                    puzzle.value(),
                    final(self)@,
                    answer,
                ),
                SocketMessage::Malformed(reason) => {
                    &&& final(self)@ == old(self)@
                    &&& action matches SocketAction::Send(OutgoingEvent::MalformedMessage(text))
                        && text == reason
                },
                SocketMessage::Close => {
                    &&& final(self)@ == old(self)@
                    &&& action is Stop
                },
                _ => {
                    &&& final(self)@ == old(self)@
                    &&& action is Nothing
                },
            },
    {
        match message {
            SocketMessage::Ping(payload) => {
                self.heartbeat = now;
                SocketAction::Pong(payload)
            },
            SocketMessage::Pong => {
                self.heartbeat = now;
                SocketAction::Nothing
            },
            SocketMessage::Event(event) => SocketAction::Send(
                self.process_msg(event, hardware, puzzle),
            ),
            SocketMessage::Malformed(reason) => SocketAction::Send(
                OutgoingEvent::MalformedMessage(reason),
            ),
            SocketMessage::Binary => SocketAction::Nothing,
            SocketMessage::Close => SocketAction::Stop,
            SocketMessage::Nop => SocketAction::Nothing,
        }
    }
}

} // verus!
