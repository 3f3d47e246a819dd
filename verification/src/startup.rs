//! The start of a session: what becomes of the attempt to open the device.
//!
//! A device that could not be opened ends the program before the read loop
//! is ever entered, with one line that names the port and the cause, and with
//! an exit code that is not zero.

use crate::config::Config;
use crate::monitor::{Decision, Monitor, MonitorView};
use vstd::prelude::*;

verus! {

/// The exit code of a session that the idle timeout ended.
pub const EXIT_SUCCESS: i32 = 0;

/// The exit code of a program whose device could not be opened.
pub const EXIT_OPEN_FAILED: i32 = -1;

/// Why the device could not be opened.
#[derive(Debug)]
pub enum OpenFailure {
    /// There is no such device, or it is in use.
    NoDevice,
    /// The port's name or a setting was not acceptable.
    InvalidInput,
    /// The cause is not known.
    Unknown,
    /// An I/O error, with the words that describe it.
    Io(String),
}

/// An [`OpenFailure`] as contracts speak of it.
pub enum OpenFailureView {
    NoDevice,
    InvalidInput,
    Unknown,
    Io(Seq<char>),
}

impl View for OpenFailure {
    type V = OpenFailureView;

    open spec fn view(&self) -> OpenFailureView {
        match self {
            OpenFailure::NoDevice => OpenFailureView::NoDevice,
            OpenFailure::InvalidInput => OpenFailureView::InvalidInput,
            OpenFailure::Unknown => OpenFailureView::Unknown,
            OpenFailure::Io(detail) => OpenFailureView::Io(detail@),
        }
    }
}

/// The line that reports `failure` for the port named `port`.
pub open spec fn diagnostic_text(failure: OpenFailureView, port: Seq<char>) -> Seq<char> {
    match failure {
        OpenFailureView::NoDevice => "No device was found for port '"@ + port + "'"@,
        OpenFailureView::InvalidInput => "'"@ + port + "' is not valid input"@,
        OpenFailureView::Unknown => "Unknown error opening port '"@ + port + "'"@,
        OpenFailureView::Io(detail) => "IoError encountered when opening port '"@ + port + "': "@
            + detail,
    }
}

/// Whether `part` stands somewhere in `line`.
pub open spec fn occurs_in(part: Seq<char>, line: Seq<char>) -> bool {
    exists|i: int| 0 <= i && i + part.len() <= line.len() && #[trigger] line.subrange(
        i,
        i + part.len(),
    ) == part
}

/// Every report of a failure to open names the port.
pub proof fn lemma_diagnostic_names_port(failure: OpenFailureView, port: Seq<char>)
    ensures
        occurs_in(port, diagnostic_text(failure, port)),
{
    let line = diagnostic_text(failure, port);
    let lead = match failure {
        OpenFailureView::NoDevice => "No device was found for port '"@,
        OpenFailureView::InvalidInput => "'"@,
        OpenFailureView::Unknown => "Unknown error opening port '"@,
        OpenFailureView::Io(_) => "IoError encountered when opening port '"@,
    };
    let at = lead.len() as int;
    assert(line.subrange(at, at + port.len()) =~= port);
}

/// Writes the line that reports `failure` for the port named `port`.
pub fn diagnostic(failure: &OpenFailure, port: &str) -> (line: String)
    ensures
        line@ == diagnostic_text(failure@, port@),
{
    match failure {
        OpenFailure::NoDevice => {
            let mut line = String::from_str("No device was found for port '");
            line.append(port);
            line.append("'");
            line
        },
        OpenFailure::InvalidInput => {
            let mut line = String::from_str("'");
            line.append(port);
            line.append("' is not valid input");
            line
        },
        OpenFailure::Unknown => {
            let mut line = String::from_str("Unknown error opening port '");
            line.append(port);
            line.append("'");
            line
        },
        OpenFailure::Io(detail) => {
            let mut line = String::from_str("IoError encountered when opening port '");
            line.append(port);
            line.append("': ");
            line.append(detail.as_str());
            line
        },
    }
}

/// The end of a program that never got to read.
#[derive(Debug)]
pub struct Abort {
    /// The line for the error stream.
    pub diagnostic: String,
    /// The exit code; never zero.
    pub exit_code: i32,
}

/// What the program does once the attempt to open the device is over.
#[derive(Debug)]
pub enum Startup {
    /// The device is open: enter the read loop with this monitor.
    Run(Monitor),
    /// The device is not open: report and exit, without reading.
    Abort(Abort),
}

/// Decides how the program goes on after the attempt to open the device.
///
/// With the device open the read loop starts from a fresh monitor that has
/// the configured timeout. Any failure ends the program: the loop is not
/// entered, the failure is reported in one line that names the port, and the
/// exit code is [`EXIT_OPEN_FAILED`].
pub fn start(config: &Config, opened: Result<(), OpenFailure>) -> (startup: Startup)
    ensures
        match opened {
            Ok(_) => startup matches Startup::Run(monitor) && monitor@ == MonitorView::initial(
                config@.idle_timeout,
            ),
            Err(failure) => startup matches Startup::Abort(abort) && abort.diagnostic@
                == diagnostic_text(failure@, config@.port) && abort.exit_code == EXIT_OPEN_FAILED
                && abort.exit_code != 0,
        },
{
    match opened {
        Ok(_) => Startup::Run(Monitor::new(config.idle_timeout())),
        Err(failure) => Startup::Abort(
            Abort { diagnostic: diagnostic(&failure, config.port()), exit_code: EXIT_OPEN_FAILED },
        ),
    }
}

/// The exit code with which the program ends after a turn of the loop that
/// decided `decision`: a session that the idle timeout ended is a success,
/// and a loop that goes on does not exit.
pub fn exit_code(decision: Decision) -> (code: Option<i32>)
    ensures
        decision == Decision::Stop ==> code == Some(EXIT_SUCCESS) && code == Some(0i32),
        decision == Decision::Continue ==> code is None,
{
    match decision {
        Decision::Stop => Some(EXIT_SUCCESS),
        Decision::Continue => None,
    }
}

} // verus!
