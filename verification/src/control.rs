//! Remote-control surface for the shell: who may drive the client, and the
//! typed control vocabulary exchanged over the control socket.

use vstd::prelude::*;

use crate::mentci::{ApprovalDecision, QuestionIdentifier};
use crate::sockets::{option_text, socket_path, socket_path_spec, SocketEnvironment};
use crate::text::owned;

verus! {

/// Which party may drive this client instance.
#[derive(Debug, Default, Clone, Copy, PartialEq, Eq, Structural)]
pub enum RemoteControlMode {
    #[default]
    LocalOnly,
    RemoteEnabled,
    RemotePresentation,
    DualWrite,
}

/// The remote controller may drive in every mode but `LocalOnly`.
pub open spec fn remote_may_drive(mode: RemoteControlMode) -> bool {
    mode != RemoteControlMode::LocalOnly
}

/// The local user may drive in every mode but `RemotePresentation`.
pub open spec fn local_may_drive(mode: RemoteControlMode) -> bool {
    mode != RemoteControlMode::RemotePresentation
}

impl RemoteControlMode {
    pub fn remote_can_drive(self) -> (can: bool)
        ensures
            can == remote_may_drive(self),
    {
        match self {
            RemoteControlMode::RemoteEnabled | RemoteControlMode::RemotePresentation
            | RemoteControlMode::DualWrite => true,
            RemoteControlMode::LocalOnly => false,
        }
    }

    pub fn local_can_drive(self) -> (can: bool)
        ensures
            can == local_may_drive(self),
    {
        !matches!(self, RemoteControlMode::RemotePresentation)
    }

    pub fn label(self) -> (label: &'static str)
        ensures
            label@ == mode_text(self),
    {
        match self {
            RemoteControlMode::LocalOnly => "local only",
            RemoteControlMode::RemoteEnabled => "remote enabled",
            RemoteControlMode::RemotePresentation => "remote presentation",
            RemoteControlMode::DualWrite => "dual write",
        }
    }
}

pub open spec fn mode_text(mode: RemoteControlMode) -> Seq<char> {
    match mode {
        RemoteControlMode::LocalOnly => "local only"@,
        RemoteControlMode::RemoteEnabled => "remote enabled"@,
        RemoteControlMode::RemotePresentation => "remote presentation"@,
        RemoteControlMode::DualWrite => "dual write"@,
    }
}

/// Law: in every mode someone can drive the client; only `DualWrite` and
/// `RemoteEnabled` let both drive, `LocalOnly` only the local user and
/// `RemotePresentation` only the remote controller.
pub proof fn lemma_someone_drives(mode: RemoteControlMode)
    ensures
        remote_may_drive(mode) || local_may_drive(mode),
        remote_may_drive(mode) && local_may_drive(mode) <==> (mode == RemoteControlMode::RemoteEnabled
            || mode == RemoteControlMode::DualWrite),
        !remote_may_drive(mode) <==> mode == RemoteControlMode::LocalOnly,
        !local_may_drive(mode) <==> mode == RemoteControlMode::RemotePresentation,
{
}

/// A command sent over the control socket.
#[derive(Debug, Clone, PartialEq, Eq)]
pub enum GuiControlInput {
    ObserveState,
    SetRemoteControl(RemoteControlMode),
    TriggerObserve,
    SelectQuestion(QuestionIdentifier),
    AnswerSelected(ApprovalDecision),
}

/// Commands that drive the client, which only a remote controller allowed
/// to drive may send: all but observing the state and setting the mode.
pub open spec fn drives_client(input: GuiControlInput) -> bool {
    !(input is ObserveState || input is SetRemoteControl)
}

impl GuiControlInput {
    pub fn requires_remote_drive(&self) -> (drives: bool)
        ensures
            drives == drives_client(*self),
    {
        !matches!(self, GuiControlInput::ObserveState | GuiControlInput::SetRemoteControl(_))
    }
}

/// The client's state as the control socket reports it.
#[derive(Debug, Clone, PartialEq, Eq)]
pub struct GuiControlState {
    pub mode: RemoteControlMode,
    pub pending_questions: u64,
    pub answered_questions: u64,
    pub selected_question: Option<QuestionIdentifier>,
    pub ordinary_request_in_flight: bool,
    pub transcript_entries: u64,
}

/// The reply to a control command.
#[derive(Debug, Clone, PartialEq, Eq)]
pub enum GuiControlOutput {
    State(GuiControlState),
    Accepted(GuiControlState),
    Rejected(GuiControlRejection),
}

#[derive(Debug, Clone, Copy, PartialEq, Eq, Structural)]
pub struct GuiControlRejection {
    pub reason: GuiControlRejectionReason,
}

#[derive(Debug, Clone, Copy, PartialEq, Eq, Structural)]
pub enum GuiControlRejectionReason {
    RemoteControlDisabled,
    NoSelectedQuestion,
}

impl GuiControlRejection {
    pub fn new(reason: GuiControlRejectionReason) -> (rejection: Self)
        ensures
            rejection.reason == reason,
    {
        Self { reason }
    }
}

/// Where the control socket lives.
#[derive(Debug, Clone)]
pub struct GuiControlEndpoint {
    socket_path: String,
}

impl View for GuiControlEndpoint {
    type V = Seq<char>;

    closed spec fn view(&self) -> Seq<char> {
        self.socket_path@
    }
}

/// The control socket path the environment gives.
pub open spec fn control_socket_spec(env: SocketEnvironment) -> Seq<char> {
    socket_path_spec(
        option_text(env.control_socket),
        option_text(env.runtime_directory),
        "mentci-egui.socket"@,
        "/tmp/mentci-egui.socket"@,
    )
}

impl GuiControlEndpoint {
    pub fn from_environment(environment: &SocketEnvironment) -> (endpoint: Self)
        ensures
            endpoint@ == control_socket_spec(*environment),
    {
        GuiControlEndpoint {
            socket_path: socket_path(
                &environment.control_socket,
                &environment.runtime_directory,
                "mentci-egui.socket",
                "/tmp/mentci-egui.socket",
            ),
        }
    }

    pub fn new(path: &str) -> (endpoint: Self)
        ensures
            endpoint@ == path@,
    {
        GuiControlEndpoint { socket_path: owned(path) }
    }

    pub fn socket_path(&self) -> (path: &str)
        ensures
            path@ == self@,
    {
        self.socket_path.as_str()
    }
}

/// The client side of the control socket.
#[derive(Debug, Clone)]
pub struct GuiControlClient {
    endpoint: GuiControlEndpoint,
}

impl GuiControlClient {
    pub fn new(endpoint: GuiControlEndpoint) -> (client: Self)
        ensures
            client.endpoint()@ == endpoint@,
    {
        Self { endpoint }
    }

    pub closed spec fn endpoint(&self) -> GuiControlEndpoint {
        self.endpoint
    }

    /// The socket path the client connects to.
    pub fn socket_path(&self) -> (path: &str)
        ensures
            path@ == self.endpoint()@,
    {
        self.endpoint.socket_path()
    }
}

} // verus!
