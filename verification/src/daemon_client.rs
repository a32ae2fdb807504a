//! The Mentci daemon client's own state and decisions: which sockets it
//! talks to, how large a frame it accepts, what it records of an exchange and
//! how it reads a reply frame. The socket I/O and the frame encoding are done
//! around it.

use vstd::prelude::*;

use crate::error::Error;
use crate::sockets::{option_text, socket_path, socket_path_spec, SocketEnvironment};
use crate::text::{concat_text, owned};

verus! {

/// The largest frame body the client reads: 16 MiB.
pub const MAXIMUM_FRAME_BYTES: usize = 16_777_216;

#[derive(Clone, Debug)]
pub struct DaemonClient {
    ordinary_socket: String,
    meta_socket: String,
    maximum_frame_bytes: usize,
}

pub struct DaemonClientView {
    pub ordinary_socket: Seq<char>,
    pub meta_socket: Seq<char>,
    pub maximum_frame_bytes: usize,
}

impl View for DaemonClient {
    type V = DaemonClientView;

    closed spec fn view(&self) -> DaemonClientView {
        DaemonClientView {
            ordinary_socket: self.ordinary_socket@,
            meta_socket: self.meta_socket@,
            maximum_frame_bytes: self.maximum_frame_bytes,
        }
    }
}

/// Which daemon socket an exchange went through.
#[derive(Clone, Copy, Debug, Eq, PartialEq, Structural)]
pub enum SocketKind {
    Mentci,
    MetaMentci,
}

pub open spec fn socket_kind_text(kind: SocketKind) -> Seq<char> {
    match kind {
        SocketKind::Mentci => "Mentci"@,
        SocketKind::MetaMentci => "MetaMentci"@,
    }
}

impl SocketKind {
    pub fn label(self) -> (label: &'static str)
        ensures
            label@ == socket_kind_text(self),
    {
        match self {
            SocketKind::Mentci => "Mentci",
            SocketKind::MetaMentci => "MetaMentci",
        }
    }
}

/// One exchange with the daemon, as the transcript shows it.
#[derive(Clone, Debug)]
pub struct DaemonTranscriptEntry {
    pub socket_kind: SocketKind,
    pub operation: String,
    pub socket_path: String,
    pub request_nota: String,
    pub reply_nota: String,
}

/// The ordinary socket path the environment gives.
pub open spec fn ordinary_socket_spec(env: SocketEnvironment) -> Seq<char> {
    socket_path_spec(
        option_text(env.mentci_socket),
        option_text(env.runtime_directory),
        "mentci.socket"@,
        "/tmp/mentci.socket"@,
    )
}

/// The meta socket path the environment gives.
pub open spec fn meta_socket_spec(env: SocketEnvironment) -> Seq<char> {
    socket_path_spec(
        option_text(env.mentci_meta_socket),
        option_text(env.runtime_directory),
        "mentci-meta.socket"@,
        "/tmp/mentci-meta.socket"@,
    )
}

/// The big-endian value of a four-byte length prefix.
pub open spec fn be_length(header: [u8; 4]) -> nat {
    header[0] as nat * 16777216 + header[1] as nat * 65536 + header[2] as nat * 256
        + header[3] as nat
}

/// A reply frame as the client reads it: which shape its body has, with the
/// value the client takes from it and the debug text it shows otherwise.
pub enum DaemonFrame<R, E> {
    /// A reply accepted by the daemon whose head sub-reply is `Ok`.
    AcceptedOk(R),
    /// A reply accepted by the daemon whose head sub-reply is not `Ok`, with
    /// that sub-reply's debug text.
    AcceptedOther(String),
    /// A reply the daemon rejected, with the reason's debug text.
    Rejected(String),
    /// A subscription event, with the debug text of the whole frame body.
    SubscriptionEvent(E, String),
    /// Any other frame body, with its debug text.
    Other(String),
}

/// The text a reply frame shows in the transcript, given the NOTA texts of
/// its reply and event.
pub open spec fn reply_nota_spec(frame: DaemonFrame<String, String>) -> core::result::Result<
    Seq<char>,
    Error,
> {
    match frame {
        DaemonFrame::AcceptedOk(nota) => Ok(nota@),
        DaemonFrame::AcceptedOther(debug) => Ok(debug@),
        DaemonFrame::Rejected(debug) => Ok(debug@),
        DaemonFrame::SubscriptionEvent(nota, _) => Ok(nota@),
        DaemonFrame::Other(debug) => Err(Error::UnexpectedDaemonFrame(debug)),
    }
}

/// `e` is the unexpected-frame error that shows `text`.
pub open spec fn reply_output_error(text: Seq<char>, e: Error) -> bool {
    e matches Error::UnexpectedDaemonFrame(s) && s@ == text
}

impl DaemonClient {
    pub fn from_environment(environment: &SocketEnvironment) -> (client: Self)
        ensures
            client@.ordinary_socket == ordinary_socket_spec(*environment),
            client@.meta_socket == meta_socket_spec(*environment),
            client@.maximum_frame_bytes == MAXIMUM_FRAME_BYTES,
    {
        let ordinary = Self::ordinary_socket_from_environment(environment);
        Self::new(ordinary.as_str()).with_meta_socket(
            Self::meta_socket_from_environment(environment).as_str(),
        )
    }

    pub fn new(ordinary_socket: &str) -> (client: Self)
        ensures
            client@.ordinary_socket == ordinary_socket@,
            client@.meta_socket == "/tmp/mentci-meta.socket"@,
            client@.maximum_frame_bytes == MAXIMUM_FRAME_BYTES,
    {
        DaemonClient {
            ordinary_socket: owned(ordinary_socket),
            meta_socket: owned("/tmp/mentci-meta.socket"),
            maximum_frame_bytes: MAXIMUM_FRAME_BYTES,
        }
    }

    pub fn with_meta_socket(self, meta_socket: &str) -> (client: Self)
        ensures
            client@ == (DaemonClientView { meta_socket: meta_socket@, ..self@ }),
    {
        DaemonClient { meta_socket: owned(meta_socket), ..self }
    }

    pub fn ordinary_socket(&self) -> (path: &String)
        ensures
            path@ == self@.ordinary_socket,
    {
        &self.ordinary_socket
    }

    pub fn meta_socket(&self) -> (path: &String)
        ensures
            path@ == self@.meta_socket,
    {
        &self.meta_socket
    }

    pub fn maximum_frame_bytes(&self) -> (maximum: usize)
        ensures
            maximum == self@.maximum_frame_bytes,
    {
        self.maximum_frame_bytes
    }

    /// The transcript entry of an interface-state observation on the
    /// ordinary socket.
    pub fn interface_state_entry(&self, request_nota: String, reply_nota: String) -> (entry:
        DaemonTranscriptEntry)
        ensures
            entry.socket_kind == SocketKind::Mentci,
            entry.operation@ == "ObserveInterfaceState"@,
            entry.socket_path@ == self@.ordinary_socket,
            entry.request_nota == request_nota,
            entry.reply_nota == reply_nota,
    {
        DaemonTranscriptEntry {
            socket_kind: SocketKind::Mentci,
            operation: owned("ObserveInterfaceState"),
            socket_path: self.ordinary_socket.clone(),
            request_nota,
            reply_nota,
        }
    }

    pub fn meta_mode_placeholder(&self) -> (entry: DaemonTranscriptEntry)
        ensures
            entry.socket_kind == SocketKind::MetaMentci,
            entry.operation@ == "MetaMode"@,
            entry.socket_path@ == self@.meta_socket,
            entry.request_nota@ == "(meta mode selected)"@,
            entry.reply_nota@
                == "mentci-daemon does not expose a live meta socket yet; startup configuration is still supplied as one binary meta-signal Configure file."@,
    {
        DaemonTranscriptEntry {
            socket_kind: SocketKind::MetaMentci,
            operation: owned("MetaMode"),
            socket_path: self.meta_socket.clone(),
            request_nota: owned("(meta mode selected)"),
            reply_nota: owned(
                "mentci-daemon does not expose a live meta socket yet; startup configuration is still supplied as one binary meta-signal Configure file.",
            ),
        }
    }

    /// The body length a frame's four-byte big-endian prefix announces, or
    /// `FrameTooLarge` where it is over the client's limit.
    pub fn frame_length(&self, header: [u8; 4]) -> (length: Result<usize, Error>)
        ensures
            be_length(header) <= self@.maximum_frame_bytes ==> length == Ok::<usize, Error>(
                be_length(header) as usize,
            ),
            be_length(header) > self@.maximum_frame_bytes ==> length == Err::<usize, Error>(
                Error::FrameTooLarge {
                    maximum: self@.maximum_frame_bytes,
                    found: be_length(header) as usize,
                },
            ),
    {
        let value: u32 = (header[0] as u32) * 16777216 + (header[1] as u32) * 65536 + (header[2] as u32)
            * 256 + header[3] as u32;
        let length = value as usize;
        if length > self.maximum_frame_bytes {
            return Err(Error::FrameTooLarge { maximum: self.maximum_frame_bytes, found: length });
        }
        Ok(length)
    }

    /// The text of a reply frame for the transcript.
    pub fn reply_nota(&self, frame: DaemonFrame<String, String>) -> (text: Result<String, Error>)
        ensures
            match text {
                Ok(s) => reply_nota_spec(frame) == Ok::<Seq<char>, Error>(s@),
                Err(e) => reply_nota_spec(frame) == Err::<Seq<char>, Error>(e),
            },
    {
        match frame {
            DaemonFrame::AcceptedOk(nota) => Ok(nota),
            DaemonFrame::AcceptedOther(debug) => Ok(debug),
            DaemonFrame::Rejected(debug) => Ok(debug),
            DaemonFrame::SubscriptionEvent(nota, _) => Ok(nota),
            DaemonFrame::Other(debug) => Err(Error::UnexpectedDaemonFrame(debug)),
        }
    }

    /// The typed reply of an accepted frame; every other frame is an
    /// unexpected one, a rejected reply shown with its reason.
    pub fn reply_output<R, E>(&self, frame: DaemonFrame<R, E>) -> (output: Result<R, Error>)
        ensures
            match frame {
                DaemonFrame::AcceptedOk(reply) => output == Ok::<R, Error>(reply),
                DaemonFrame::AcceptedOther(debug) => output is Err && reply_output_error(
                    debug@,
                    output->Err_0,
                ),
                DaemonFrame::Rejected(debug) => output is Err && reply_output_error(
                    "rejected: "@ + debug@,
                    output->Err_0,
                ),
                DaemonFrame::SubscriptionEvent(_, debug) => output is Err && reply_output_error(
                    debug@,
                    output->Err_0,
                ),
                DaemonFrame::Other(debug) => output is Err && reply_output_error(
                    debug@,
                    output->Err_0,
                ),
            },
    {
        match frame {
            DaemonFrame::AcceptedOk(reply) => Ok(reply),
            DaemonFrame::AcceptedOther(debug) => Err(Error::UnexpectedDaemonFrame(debug)),
            DaemonFrame::Rejected(debug) => Err(
                Error::UnexpectedDaemonFrame(concat_text("rejected: ", debug.as_str())),
            ),
            DaemonFrame::SubscriptionEvent(_, debug) => Err(Error::UnexpectedDaemonFrame(debug)),
            DaemonFrame::Other(debug) => Err(Error::UnexpectedDaemonFrame(debug)),
        }
    }

    fn ordinary_socket_from_environment(environment: &SocketEnvironment) -> (path: String)
        ensures
            path@ == ordinary_socket_spec(*environment),
    {
        socket_path(
            &environment.mentci_socket,
            &environment.runtime_directory,
            "mentci.socket",
            "/tmp/mentci.socket",
        )
    }

    fn meta_socket_from_environment(environment: &SocketEnvironment) -> (path: String)
        ensures
            path@ == meta_socket_spec(*environment),
    {
        socket_path(
            &environment.mentci_meta_socket,
            &environment.runtime_directory,
            "mentci-meta.socket",
            "/tmp/mentci-meta.socket",
        )
    }
}

} // verus!
