//! Control-pipe messages: the toolbar commands and the message value that
//! travels in one wire frame.

use vstd::prelude::*;

verus! {

/// Interface toolbar control commands.
#[derive(Debug, Clone, Copy, PartialEq, Eq, Structural)]
pub enum ControlCmd {
    /// The host has sent all initial control values.
    Initialized,
    /// Set the value of a control.
    SetValue,
    /// Add a value to a control.
    Add,
    /// Remove a value from a control.
    Remove,
    /// Enable a control.
    Enable,
    /// Disable a control.
    Disable,
    /// Show a message in the status bar.
    StatusbarMessage,
    /// Show a message in an information dialog.
    InformationMessage,
    /// Show a message in a warning dialog.
    WarningMessage,
    /// Show a message in an error dialog.
    ErrorMessage,
    /// A command code without a name of its own.
    Unknown(u8),
}

impl ControlCmd {
    /// The command that a wire code stands for.
    pub open spec fn spec_from_code(code: u8) -> ControlCmd {
        match code {
            0 => ControlCmd::Initialized,
            1 => ControlCmd::SetValue,
            2 => ControlCmd::Add,
            3 => ControlCmd::Remove,
            4 => ControlCmd::Enable,
            5 => ControlCmd::Disable,
            6 => ControlCmd::StatusbarMessage,
            7 => ControlCmd::InformationMessage,
            8 => ControlCmd::WarningMessage,
            9 => ControlCmd::ErrorMessage,
            v => ControlCmd::Unknown(v),
        }
    }

    /// The wire code of a command.
    pub open spec fn spec_code(self) -> u8 {
        match self {
            ControlCmd::Initialized => 0,
            ControlCmd::SetValue => 1,
            ControlCmd::Add => 2,
            ControlCmd::Remove => 3,
            ControlCmd::Enable => 4,
            ControlCmd::Disable => 5,
            ControlCmd::StatusbarMessage => 6,
            ControlCmd::InformationMessage => 7,
            ControlCmd::WarningMessage => 8,
            ControlCmd::ErrorMessage => 9,
            ControlCmd::Unknown(v) => v,
        }
    }

    /// A command is canonical when it is the one its own wire code stands
    /// for: a named command, or `Unknown` with a code that has no name.
    pub open spec fn is_canonical(self) -> bool {
        self matches ControlCmd::Unknown(v) ==> v >= 10
    }
}

impl From<u8> for ControlCmd {
    fn from(val: u8) -> (cmd: Self) {
        match val {
            0 => ControlCmd::Initialized,
            1 => ControlCmd::SetValue,
            2 => ControlCmd::Add,
            3 => ControlCmd::Remove,
            4 => ControlCmd::Enable,
            5 => ControlCmd::Disable,
            6 => ControlCmd::StatusbarMessage,
            7 => ControlCmd::InformationMessage,
            8 => ControlCmd::WarningMessage,
            9 => ControlCmd::ErrorMessage,
            v => ControlCmd::Unknown(v),
        }
    }
}

impl vstd::std_specs::convert::FromSpecImpl<u8> for ControlCmd {
    open spec fn obeys_from_spec() -> bool {
        true
    }

    open spec fn from_spec(val: u8) -> Self {
        ControlCmd::spec_from_code(val)
    }
}

impl<'a> From<&'a ControlCmd> for u8 {
    fn from(val: &'a ControlCmd) -> (code: Self) {
        match val {
            ControlCmd::Initialized => 0,
            ControlCmd::SetValue => 1,
            ControlCmd::Add => 2,
            ControlCmd::Remove => 3,
            ControlCmd::Enable => 4,
            ControlCmd::Disable => 5,
            ControlCmd::StatusbarMessage => 6,
            ControlCmd::InformationMessage => 7,
            ControlCmd::WarningMessage => 8,
            ControlCmd::ErrorMessage => 9,
            ControlCmd::Unknown(v) => *v,
        }
    }
}

impl<'a> vstd::std_specs::convert::FromSpecImpl<&'a ControlCmd> for u8 {
    open spec fn obeys_from_spec() -> bool {
        true
    }

    open spec fn from_spec(val: &'a ControlCmd) -> Self {
        val.spec_code()
    }
}

/// Decoding the wire code of a canonical command gives the command back, and
/// encoding the command of any wire code gives the code back.
pub proof fn lemma_code_round_trip(cmd: ControlCmd, code: u8)
    ensures
        ControlCmd::spec_from_code(code).spec_code() == code,
        ControlCmd::spec_from_code(code).is_canonical(),
        cmd.is_canonical() ==> ControlCmd::spec_from_code(cmd.spec_code()) == cmd,
{
}

/// What a control message holds, as plain values.
pub struct ControlMsgView {
    /// The number of the control the message is about.
    pub ctrl_num: u8,
    /// The command.
    pub command: ControlCmd,
    /// The payload bytes.
    pub data: Seq<u8>,
}

/// Control protocol message.
#[derive(Debug)]
pub struct ControlMsg {
    ctrl_num: u8,
    command: ControlCmd,
    data: Vec<u8>,
}

impl View for ControlMsg {
    type V = ControlMsgView;

    closed spec fn view(&self) -> ControlMsgView {
        ControlMsgView { ctrl_num: self.ctrl_num, command: self.command, data: self.data@ }
    }
}

impl ControlMsg {
    /// Creates a new instance of `ControlMsg`.
    pub fn new(ctrl_num: u8, command: ControlCmd, data: &[u8]) -> (msg: Self)
        ensures
            msg@ == (ControlMsgView { ctrl_num, command, data: data@ }),
    {
        Self { ctrl_num, command, data: vstd::slice::slice_to_vec(data) }
    }

    /// Get the control number.
    pub fn get_ctrl_num(&self) -> (num: u8)
        ensures
            num == self@.ctrl_num,
    {
        self.ctrl_num
    }

    /// Get the control command type.
    pub fn get_command(&self) -> (cmd: &ControlCmd)
        ensures
            *cmd == self@.command,
    {
        &self.command
    }

    /// Get the data.
    pub fn get_data(&self) -> (data: &[u8])
        ensures
            data@ == self@.data,
    {
        self.data.as_slice()
    }
}

/// The number of messages that each queue between the pipes and the
/// capture routine holds before a sender has to wait.
pub const PIPE_LEN: usize = 128;

/// Where the control-pipe engine stands in its life.
#[derive(Debug, Clone, Copy, PartialEq, Eq, Structural)]
pub enum PipeState {
    /// The pipes are held, and no pump runs yet.
    New,
    /// Both pumps were started.
    Started,
    /// Both pumps were told to stop.
    Stopped,
}

/// A call that the state of the engine does not allow.
#[derive(Debug, Clone, Copy, PartialEq, Eq, Structural)]
pub enum PipeStateError {
    /// `start` on an engine that is not new.
    NotNew,
    /// `stop` on an engine that is not started.
    NotStarted,
}

/// The state after `start`, and whether the call is allowed.
pub open spec fn spec_start(state: PipeState) -> (PipeState, Result<(), PipeStateError>) {
    match state {
        PipeState::New => (PipeState::Started, Ok(())),
        _ => (state, Err(PipeStateError::NotNew)),
    }
}

/// The state after `stop`, and whether the call is allowed.
pub open spec fn spec_stop(state: PipeState) -> (PipeState, Result<(), PipeStateError>) {
    match state {
        PipeState::Started => (PipeState::Stopped, Ok(())),
        _ => (state, Err(PipeStateError::NotStarted)),
    }
}

/// The life of a control-pipe engine: new, then started, then stopped.
#[derive(Debug)]
pub struct ControlPipe {
    state: PipeState,
}

impl View for ControlPipe {
    type V = PipeState;

    closed spec fn view(&self) -> PipeState {
        self.state
    }
}

impl ControlPipe {
    /// An engine that is new.
    pub fn new() -> (pipe: Self)
        ensures
            pipe@ == PipeState::New,
    {
        ControlPipe { state: PipeState::New }
    }

    /// The state.
    pub fn state(&self) -> (state: PipeState)
        ensures
            state == self@,
    {
        self.state
    }

    /// Starts a new engine; any other engine stays as it is and the call is
    /// refused.
    pub fn start(&mut self) -> (res: Result<(), PipeStateError>)
        ensures
            (final(self)@, res) == spec_start(old(self)@),
    {
        match self.state {
            PipeState::New => {
                self.state = PipeState::Started;
                Ok(())
            },
            _ => Err(PipeStateError::NotNew),
        }
    }

    /// Stops a started engine; any other engine stays as it is and the call
    /// is refused.
    pub fn stop(&mut self) -> (res: Result<(), PipeStateError>)
        ensures
            (final(self)@, res) == spec_stop(old(self)@),
    {
        match self.state {
            PipeState::Started => {
                self.state = PipeState::Stopped;
                Ok(())
            },
            _ => Err(PipeStateError::NotStarted),
        }
    }
}

/// An engine starts at most once and stops at most once: after a call
/// that was allowed, the same call is refused and changes nothing, and
/// `stop` is refused before `start`.
pub proof fn lemma_pipe_life(state: PipeState)
    ensures
        spec_start(state).1 is Ok ==> spec_start(spec_start(state).0) == (
            PipeState::Started,
            Err::<(), PipeStateError>(PipeStateError::NotNew),
        ),
        spec_stop(state).1 is Ok ==> spec_stop(spec_stop(state).0) == (
            PipeState::Stopped,
            Err::<(), PipeStateError>(PipeStateError::NotStarted),
        ),
        spec_stop(PipeState::New).1 is Err,
        spec_stop(spec_start(PipeState::New).0) == (PipeState::Stopped, Ok::<(), PipeStateError>(())),
{
}

/// What a pump does next.
#[derive(Debug, Clone, Copy, PartialEq, Eq, Structural)]
pub enum PumpNext {
    /// It takes the next message.
    GoOn,
    /// It ends, and leaves the other pump alone.
    End,
}

/// What the pump to the host does after it tried to write a frame: it goes
/// on after a frame that was written, and ends at the first that was not.
pub fn after_write(written: bool) -> (next: PumpNext)
    ensures
        next == (if written {
            PumpNext::GoOn
        } else {
            PumpNext::End
        }),
{
    if written {
        PumpNext::GoOn
    } else {
        PumpNext::End
    }
}

} // verus!
