//! The errors of a capture provider.

use vstd::prelude::*;
use vstd::string::StringExecFns;

use crate::text::display_text;

verus! {

/// The kinds of error.
#[derive(Copy, Clone, Debug, PartialEq, Eq, Structural)]
pub enum ExtcapErrorKind {
    /// A sink or a pipe could not be opened or written.
    Io,
    /// The command-line flags are malformed or in conflict.
    Clap,
    /// The capture stream could not be written.
    Pcap,
    /// A step needs an interface and none was selected.
    MissingInterface,
    /// The selected interface is not a registered one.
    InvalidInterface,
    /// The flags ask for no step that is known.
    UnknownStepRequested,
    /// An error raised by the capture routine.
    UserError,
}

impl ExtcapErrorKind {
    /// The name of the kind.
    pub open spec fn spec_name(self) -> Seq<char> {
        match self {
            ExtcapErrorKind::Io => "Io"@,
            ExtcapErrorKind::Clap => "Clap"@,
            ExtcapErrorKind::Pcap => "Pcap"@,
            ExtcapErrorKind::MissingInterface => "MissingInterface"@,
            ExtcapErrorKind::InvalidInterface => "InvalidInterface"@,
            ExtcapErrorKind::UnknownStepRequested => "UnknownStepRequested"@,
            ExtcapErrorKind::UserError => "UserError"@,
        }
    }

    /// The name of the kind.
    pub fn name(&self) -> (name: &'static str)
        ensures
            name@ == self.spec_name(),
    {
        match self {
            ExtcapErrorKind::Io => "Io",
            ExtcapErrorKind::Clap => "Clap",
            ExtcapErrorKind::Pcap => "Pcap",
            ExtcapErrorKind::MissingInterface => "MissingInterface",
            ExtcapErrorKind::InvalidInterface => "InvalidInterface",
            ExtcapErrorKind::UnknownStepRequested => "UnknownStepRequested",
            ExtcapErrorKind::UserError => "UserError",
        }
    }
}

/// What an error holds, as plain values.
pub struct ExtcapErrorView {
    /// The kind.
    pub kind: ExtcapErrorKind,
    /// The message.
    pub message: Seq<char>,
}

impl ExtcapErrorView {
    /// The error for a step that needs an interface where none was selected.
    pub open spec fn missing_interface() -> ExtcapErrorView {
        ExtcapErrorView { kind: ExtcapErrorKind::MissingInterface, message: "Missing interface"@ }
    }

    /// The error for a selected interface that is not registered.
    pub open spec fn invalid_interface(interface: Seq<char>) -> ExtcapErrorView {
        ExtcapErrorView {
            kind: ExtcapErrorKind::InvalidInterface,
            message: "Invalid interface: "@ + interface,
        }
    }

    /// The error for flags that ask for no known step.
    pub open spec fn unknown_step() -> ExtcapErrorView {
        ExtcapErrorView {
            kind: ExtcapErrorKind::UnknownStepRequested,
            message: "Unknown step requested"@,
        }
    }

    /// The error for a capture that was given no sink.
    pub open spec fn missing_fifo() -> ExtcapErrorView {
        ExtcapErrorView { kind: ExtcapErrorKind::Clap, message: "Missing fifo"@ }
    }

    /// The text of the error: the name of its kind, a colon, the message.
    pub open spec fn text(self) -> Seq<char> {
        self.kind.spec_name() + ":"@ + self.message
    }
}

/// Extcap specific error.
#[derive(Debug)]
pub struct ExtcapError {
    kind: ExtcapErrorKind,
    message: String,
}

impl View for ExtcapError {
    type V = ExtcapErrorView;

    closed spec fn view(&self) -> ExtcapErrorView {
        ExtcapErrorView { kind: self.kind, message: self.message@ }
    }
}

impl ExtcapError {
    /// An error of a kind with a message.
    pub fn new(kind: ExtcapErrorKind, message: &str) -> (err: Self)
        ensures
            err@ == (ExtcapErrorView { kind, message: message@ }),
    {
        ExtcapError { kind, message: message.to_owned() }
    }

    /// The error for a step that needs an interface where none was selected.
    pub fn missing_interface() -> (err: Self)
        ensures
            err@ == ExtcapErrorView::missing_interface(),
    {
        ExtcapError {
            kind: ExtcapErrorKind::MissingInterface,
            message: String::from_str("Missing interface"),
        }
    }

    /// The error for a selected interface that is not registered.
    pub fn invalid_interface(interface: &str) -> (err: Self)
        ensures
            err@ == ExtcapErrorView::invalid_interface(interface@),
    {
        let mut message = String::from_str("Invalid interface: ");
        message.append(interface);
        ExtcapError { kind: ExtcapErrorKind::InvalidInterface, message }
    }

    /// The error for flags that ask for no known step.
    pub fn unknown_step() -> (err: Self)
        ensures
            err@ == ExtcapErrorView::unknown_step(),
    {
        ExtcapError {
            kind: ExtcapErrorKind::UnknownStepRequested,
            message: String::from_str("Unknown step requested"),
        }
    }

    /// The error for a capture that was given no sink.
    pub fn missing_fifo() -> (err: Self)
        ensures
            err@ == ExtcapErrorView::missing_fifo(),
    {
        ExtcapError { kind: ExtcapErrorKind::Clap, message: String::from_str("Missing fifo") }
    }

    /// Create user error with a given message.
    pub fn user_message(msg: &str) -> (err: Self)
        ensures
            err@ == (ExtcapErrorView { kind: ExtcapErrorKind::UserError, message: msg@ }),
    {
        ExtcapError { kind: ExtcapErrorKind::UserError, message: msg.to_owned() }
    }

    /// Create user error.
    pub fn user_error<T: std::fmt::Display>(msg: T) -> (err: Self)
        ensures
            err@.kind == ExtcapErrorKind::UserError,
            display_text(&msg, err@.message),
    {
        ExtcapError { kind: ExtcapErrorKind::UserError, message: msg.to_string() }
    }

    /// The kind of the error.
    pub fn kind(&self) -> (kind: ExtcapErrorKind)
        ensures
            kind == self@.kind,
    {
        self.kind
    }

    /// The message of the error.
    pub fn message(&self) -> (message: &str)
        ensures
            message@ == self@.message,
    {
        self.message.as_str()
    }

    /// The text of the error: the name of its kind, a colon, the message.
    pub fn to_text(&self) -> (text: String)
        ensures
            text@ == self@.text(),
    {
        let mut text = String::from_str(self.kind.name());
        text.append(":");
        text.append(self.message.as_str());
        text
    }
}

/// `std::io::Error`, as an opaque type.
#[verifier::external_type_specification]
#[verifier::external_body]
pub struct ExIoError(std::io::Error);

/// `clap::Error`, the error of the flag parser, as an opaque type.
#[verifier::external_type_specification]
#[verifier::external_body]
pub struct ExClapError(clap::Error);

/// `pcap_file::PcapError`, the error of the capture writer, as an opaque
/// type.
#[verifier::external_type_specification]
#[verifier::external_body]
pub struct ExPcapError(pcap_file::PcapError);

/// The text for a `clap::Error`: its kind as `Debug` writes it, a colon and
/// a space, and the error as `Display` writes it. Nothing is claimed of the
/// text.
#[verifier::external_body]
fn clap_error_text(error: &clap::Error) -> (text: String) {
    format!("{:?}: {}", error.kind, error)
}

impl From<std::io::Error> for ExtcapError {
    fn from(error: std::io::Error) -> (err: Self)
        ensures
            err@.kind == ExtcapErrorKind::Io,
            display_text(&error, err@.message),
    {
        ExtcapError { kind: ExtcapErrorKind::Io, message: error.to_string() }
    }
}

/// The message of a converted error is what the outside error writes of
/// itself, which is no function of anything that can be named here: the
/// conversions follow no spec function, and state what they give in their
/// own `ensures`.
impl vstd::std_specs::convert::FromSpecImpl<std::io::Error> for ExtcapError {
    open spec fn obeys_from_spec() -> bool {
        false
    }

    open spec fn from_spec(error: std::io::Error) -> Self {
        arbitrary()
    }
}

impl From<clap::Error> for ExtcapError {
    fn from(error: clap::Error) -> (err: Self)
        ensures
            err@.kind == ExtcapErrorKind::Clap,
    {
        ExtcapError { kind: ExtcapErrorKind::Clap, message: clap_error_text(&error) }
    }
}

impl vstd::std_specs::convert::FromSpecImpl<clap::Error> for ExtcapError {
    open spec fn obeys_from_spec() -> bool {
        false
    }

    open spec fn from_spec(error: clap::Error) -> Self {
        arbitrary()
    }
}

impl From<pcap_file::PcapError> for ExtcapError {
    fn from(error: pcap_file::PcapError) -> (err: Self)
        ensures
            err@.kind == ExtcapErrorKind::Pcap,
            display_text(&error, err@.message),
    {
        ExtcapError { kind: ExtcapErrorKind::Pcap, message: error.to_string() }
    }
}

impl vstd::std_specs::convert::FromSpecImpl<pcap_file::PcapError> for ExtcapError {
    open spec fn obeys_from_spec() -> bool {
        false
    }

    open spec fn from_spec(error: pcap_file::PcapError) -> Self {
        arbitrary()
    }
}

} // verus!
