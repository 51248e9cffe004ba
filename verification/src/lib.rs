//! Building blocks for Wireshark extcap capture providers: the registries of
//! interfaces, arguments and toolbar controls, the step state machine driven
//! by the command-line flags, and the framing of control-pipe messages.

pub mod arg;
pub mod codec;
pub mod control;
pub mod control_pipe;
pub mod error;
pub mod extcap;
pub mod flags;
pub mod iface;
pub mod text;

pub use crate::arg::{IfArg, IfArgType, IfArgVal};
pub use crate::codec::{ControlMsgCodec, FramingError};
pub use crate::control::{ButtonRole, Control, ControlType, ControlVal};
pub use crate::control_pipe::{
    after_write, ControlCmd, ControlMsg, ControlPipe, PipeState, PipeStateError, PumpNext,
};
pub use crate::error::{ExtcapError, ExtcapErrorKind};
pub use crate::extcap::{
    capture_plan, debug_file, derive_step, CapturePlan, Extcap, ExtcapListener, ExtcapResult,
    ExtcapStep, TillCaptureOutcome,
};
pub use crate::flags::{FlagDecl, FlagGroup, Matches};
pub use crate::iface::IFace;
