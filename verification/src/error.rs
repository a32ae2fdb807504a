//! The shell-level failures.

use vstd::prelude::*;

use crate::text::{concat_text, decimal_string, decimal_text, push_str};

verus! {

/// What can go wrong in the shell. Failures that come from outside the
/// library (I/O, frame encoding) carry their text.
#[derive(Clone, Debug, PartialEq, Eq)]
pub enum Error {
    EframeInit(String),
    Io(String),
    SignalMentci(String),
    SignalFrame(String),
    FrameTooLarge { maximum: usize, found: usize },
    UnexpectedDaemonFrame(String),
    UnexpectedControlFrame(String),
    ControlParse(String),
    ControlRequest(String),
    ControlReply(String),
}

pub type Result<T> = core::result::Result<T, Error>;

/// The human-readable text of an error.
pub open spec fn error_text(e: Error) -> Seq<char> {
    match e {
        Error::EframeInit(s) => "eframe initialisation failed: "@ + s@,
        Error::Io(s) => "daemon IO error: "@ + s@,
        Error::SignalMentci(s) => "signal-mentci frame error: "@ + s@,
        Error::SignalFrame(s) => "signal frame error: "@ + s@,
        Error::FrameTooLarge { maximum, found } => "daemon frame too large: maximum "@
            + decimal_text(maximum as nat) + " bytes, found "@ + decimal_text(found as nat),
        Error::UnexpectedDaemonFrame(s) => "unexpected daemon frame: "@ + s@,
        Error::UnexpectedControlFrame(s) => "unexpected control frame: "@ + s@,
        Error::ControlParse(s) => "control socket parse error: "@ + s@,
        Error::ControlRequest(s) => "control request channel failed: "@ + s@,
        Error::ControlReply(s) => "control reply channel failed: "@ + s@,
    }
}

impl Error {
    pub fn message(&self) -> (text: String)
        ensures
            text@ == error_text(*self),
    {
        match self {
            Error::EframeInit(s) => concat_text("eframe initialisation failed: ", s.as_str()),
            Error::Io(s) => concat_text("daemon IO error: ", s.as_str()),
            Error::SignalMentci(s) => concat_text("signal-mentci frame error: ", s.as_str()),
            Error::SignalFrame(s) => concat_text("signal frame error: ", s.as_str()),
            Error::FrameTooLarge { maximum, found } => {
                let mut text = concat_text(
                    "daemon frame too large: maximum ",
                    decimal_string(*maximum as u64).as_str(),
                );
                push_str(&mut text, " bytes, found ");
                push_str(&mut text, decimal_string(*found as u64).as_str());
                text
            },
            Error::UnexpectedDaemonFrame(s) => concat_text("unexpected daemon frame: ", s.as_str()),
            Error::UnexpectedControlFrame(s) => concat_text("unexpected control frame: ", s.as_str()),
            Error::ControlParse(s) => concat_text("control socket parse error: ", s.as_str()),
            Error::ControlRequest(s) => concat_text("control request channel failed: ", s.as_str()),
            Error::ControlReply(s) => concat_text("control reply channel failed: ", s.as_str()),
        }
    }
}

} // verus!
