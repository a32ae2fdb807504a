//! The shell's own decisions, taken apart from the window and the daemon
//! model that surround them: when to bootstrap, when an ordinary request may
//! leave, how a control command is answered, what the header and the
//! approval card show, and which colour scheme to follow.

use vstd::prelude::*;

use crate::control::{
    drives_client, local_may_drive, mode_text, remote_may_drive, GuiControlInput, GuiControlOutput,
    GuiControlRejection, GuiControlRejectionReason, GuiControlState, RemoteControlMode,
};
use crate::mentci::{
    ApprovalDecision, ApprovalSource, CriomeAccess, MentciReply, MentciReplyView, QuestionIdentifier,
};
use crate::text::{concat_text, decimal_string, decimal_text, push_str};

verus! {

/// The shell's flags and remote-control mode.
#[derive(Debug)]
pub struct ShellState {
    bootstrap_done: bool,
    control_server_started: bool,
    ordinary_request_in_flight: bool,
    remote_control_mode: RemoteControlMode,
}

pub struct ShellStateView {
    pub bootstrap_done: bool,
    pub control_server_started: bool,
    pub ordinary_request_in_flight: bool,
    pub remote_control_mode: RemoteControlMode,
}

impl View for ShellState {
    type V = ShellStateView;

    closed spec fn view(&self) -> ShellStateView {
        ShellStateView {
            bootstrap_done: self.bootstrap_done,
            control_server_started: self.control_server_started,
            ordinary_request_in_flight: self.ordinary_request_in_flight,
            remote_control_mode: self.remote_control_mode,
        }
    }
}

/// What the shell knows of the approval model and its transcript when it
/// reports its state.
#[derive(Debug, Clone)]
pub struct ApprovalSummary {
    pub pending_count: usize,
    pub answered_count: usize,
    pub selected_question: Option<QuestionIdentifier>,
    pub transcript_entries: usize,
}

/// What a control command asks the shell to do.
#[derive(Debug, Clone, PartialEq, Eq)]
pub enum ControlEffect {
    Nothing,
    RequestInterfaceState,
    SelectQuestion(QuestionIdentifier),
    AnswerSelected(ApprovalDecision),
}

/// How a control command is answered, once its effect is done.
#[derive(Debug, Clone, Copy, PartialEq, Eq, Structural)]
pub enum ControlReply {
    State,
    Accepted,
    Rejected(GuiControlRejectionReason),
}

/// The outcome of a control command: the effect to perform, then the reply.
#[derive(Debug, Clone, PartialEq, Eq)]
pub struct ControlRoute {
    pub effect: ControlEffect,
    pub reply: ControlReply,
}

/// The route of a control command given the mode and whether a question
/// is selected, and the mode afterwards.
pub open spec fn route_spec(
    mode: RemoteControlMode,
    input: GuiControlInput,
    has_current_question: bool,
) -> (ControlRoute, RemoteControlMode) {
    if drives_client(input) && !remote_may_drive(mode) {
        (
            ControlRoute {
                effect: ControlEffect::Nothing,
                reply: ControlReply::Rejected(GuiControlRejectionReason::RemoteControlDisabled),
            },
            mode,
        )
    } else {
        match input {
            GuiControlInput::ObserveState => (
                ControlRoute { effect: ControlEffect::Nothing, reply: ControlReply::State },
                mode,
            ),
            GuiControlInput::SetRemoteControl(new_mode) => (
                ControlRoute { effect: ControlEffect::Nothing, reply: ControlReply::Accepted },
                new_mode,
            ),
            GuiControlInput::TriggerObserve => (
                ControlRoute {
                    effect: ControlEffect::RequestInterfaceState,
                    reply: ControlReply::Accepted,
                },
                mode,
            ),
            GuiControlInput::SelectQuestion(question) => (
                ControlRoute {
                    effect: ControlEffect::SelectQuestion(question),
                    reply: ControlReply::Accepted,
                },
                mode,
            ),
            GuiControlInput::AnswerSelected(decision) => if !has_current_question {
                (
                    ControlRoute {
                        effect: ControlEffect::Nothing,
                        reply: ControlReply::Rejected(
                            GuiControlRejectionReason::NoSelectedQuestion,
                        ),
                    },
                    mode,
                )
            } else {
                (
                    ControlRoute {
                        effect: ControlEffect::AnswerSelected(decision),
                        reply: ControlReply::Accepted,
                    },
                    mode,
                )
            },
        }
    }
}

impl ShellState {
    pub fn new() -> (state: Self)
        ensures
            state@ == (ShellStateView {
                bootstrap_done: false,
                control_server_started: false,
                ordinary_request_in_flight: false,
                remote_control_mode: RemoteControlMode::LocalOnly,
            }),
    {
        ShellState {
            bootstrap_done: false,
            control_server_started: false,
            ordinary_request_in_flight: false,
            remote_control_mode: RemoteControlMode::LocalOnly,
        }
    }

    pub fn remote_control_mode(&self) -> (mode: RemoteControlMode)
        ensures
            mode == self@.remote_control_mode,
    {
        self.remote_control_mode
    }

    pub fn ordinary_request_in_flight(&self) -> (in_flight: bool)
        ensures
            in_flight == self@.ordinary_request_in_flight,
    {
        self.ordinary_request_in_flight
    }

    /// Whether the first frame's bootstrap is to run now: true once, on the
    /// first call.
    pub fn bootstrap(&mut self) -> (run: bool)
        ensures
            run == !old(self)@.bootstrap_done,
            final(self)@ == (ShellStateView { bootstrap_done: true, ..old(self)@ }),
    {
        if self.bootstrap_done {
            return false;
        }
        self.bootstrap_done = true;
        true
    }

    /// Whether the control server is to be started now: true once.
    pub fn claim_control_server_start(&mut self) -> (start: bool)
        ensures
            start == !old(self)@.control_server_started,
            final(self)@ == (ShellStateView { control_server_started: true, ..old(self)@ }),
    {
        if self.control_server_started {
            return false;
        }
        self.control_server_started = true;
        true
    }

    /// An interface-state request may leave only when no ordinary request is
    /// in flight.
    pub fn may_request_interface_state(&self) -> (may: bool)
        ensures
            may == !self@.ordinary_request_in_flight,
    {
        !self.ordinary_request_in_flight
    }

    /// An ordinary request has been sent to the daemon.
    pub fn note_request_dispatched(&mut self)
        ensures
            final(self)@ == (ShellStateView { ordinary_request_in_flight: true, ..old(self)@ }),
    {
        self.ordinary_request_in_flight = true;
    }

    /// The daemon's answer to the ordinary request came back, reply or error.
    pub fn note_reply_received(&mut self)
        ensures
            final(self)@ == (ShellStateView { ordinary_request_in_flight: false, ..old(self)@ }),
    {
        self.ordinary_request_in_flight = false;
    }

    /// Decides a control command. A command that drives the client is
    /// refused, with nothing done, unless the mode lets the remote drive;
    /// setting the mode and observing the state are always taken.
    pub fn route_control_input(&mut self, input: GuiControlInput, has_current_question: bool) -> (route:
        ControlRoute)
        ensures
            (route, final(self)@.remote_control_mode) == route_spec(
                old(self)@.remote_control_mode,
                input,
                has_current_question,
            ),
            final(self)@ == (ShellStateView {
                remote_control_mode: final(self)@.remote_control_mode,
                ..old(self)@
            }),
    {
        if input.requires_remote_drive() && !self.remote_control_mode.remote_can_drive() {
            return ControlRoute {
                effect: ControlEffect::Nothing,
                reply: ControlReply::Rejected(GuiControlRejectionReason::RemoteControlDisabled),
            };
        }
        match input {
            GuiControlInput::ObserveState => ControlRoute {
                effect: ControlEffect::Nothing,
                reply: ControlReply::State,
            },
            GuiControlInput::SetRemoteControl(mode) => {
                self.remote_control_mode = mode;
                ControlRoute { effect: ControlEffect::Nothing, reply: ControlReply::Accepted }
            },
            GuiControlInput::TriggerObserve => ControlRoute {
                effect: ControlEffect::RequestInterfaceState,
                reply: ControlReply::Accepted,
            },
            GuiControlInput::SelectQuestion(question) => ControlRoute {
                effect: ControlEffect::SelectQuestion(question),
                reply: ControlReply::Accepted,
            },
            GuiControlInput::AnswerSelected(decision) => {
                if !has_current_question {
                    return ControlRoute {
                        effect: ControlEffect::Nothing,
                        reply: ControlReply::Rejected(
                            GuiControlRejectionReason::NoSelectedQuestion,
                        ),
                    };
                }
                ControlRoute {
                    effect: ControlEffect::AnswerSelected(decision),
                    reply: ControlReply::Accepted,
                }
            },
        }
    }

    /// The state the control socket reports.
    pub fn control_state(&self, summary: &ApprovalSummary) -> (state: GuiControlState)
        ensures
            state.mode == self@.remote_control_mode,
            state.pending_questions == summary.pending_count,
            state.answered_questions == summary.answered_count,
            state.selected_question == summary.selected_question,
            state.ordinary_request_in_flight == self@.ordinary_request_in_flight,
            state.transcript_entries == summary.transcript_entries,
    {
        GuiControlState {
            mode: self.remote_control_mode,
            pending_questions: summary.pending_count as u64,
            answered_questions: summary.answered_count as u64,
            selected_question: match &summary.selected_question {
                Some(question) => Some(question.copy()),
                None => None,
            },
            ordinary_request_in_flight: self.ordinary_request_in_flight,
            transcript_entries: summary.transcript_entries as u64,
        }
    }

    /// The reply to a control command, once its effect is done.
    pub fn control_output(&self, reply: ControlReply, summary: &ApprovalSummary) -> (output:
        GuiControlOutput)
        ensures
            match reply {
                ControlReply::State => output matches GuiControlOutput::State(s)
                    && s.mode == self@.remote_control_mode,
                ControlReply::Accepted => output matches GuiControlOutput::Accepted(s)
                    && s.mode == self@.remote_control_mode,
                ControlReply::Rejected(reason) => output == GuiControlOutput::Rejected(
                    GuiControlRejection { reason },
                ),
            },
            output matches GuiControlOutput::State(s) ==> s == self.control_state_spec(*summary),
            output matches GuiControlOutput::Accepted(s) ==> s == self.control_state_spec(*summary),
    {
        match reply {
            ControlReply::State => GuiControlOutput::State(self.control_state(summary)),
            ControlReply::Accepted => GuiControlOutput::Accepted(self.control_state(summary)),
            ControlReply::Rejected(reason) => GuiControlOutput::Rejected(
                GuiControlRejection::new(reason),
            ),
        }
    }

    /// The state reported for `summary`.
    pub open spec fn control_state_spec(&self, summary: ApprovalSummary) -> GuiControlState {
        GuiControlState {
            mode: self@.remote_control_mode,
            pending_questions: summary.pending_count as u64,
            answered_questions: summary.answered_count as u64,
            selected_question: summary.selected_question,
            ordinary_request_in_flight: self@.ordinary_request_in_flight,
            transcript_entries: summary.transcript_entries as u64,
        }
    }

    /// The local observe button works when no request is in flight and the
    /// local user may drive.
    pub fn observe_enabled(&self) -> (enabled: bool)
        ensures
            enabled == (!self@.ordinary_request_in_flight && local_may_drive(
                self@.remote_control_mode,
            )),
    {
        !self.ordinary_request_in_flight && self.remote_control_mode.local_can_drive()
    }

    /// The approval card offers answers when the local user may drive and the
    /// daemon can write to criome.
    pub fn can_answer(&self, access: Option<CriomeAccess>) -> (can: bool)
        ensures
            can == (local_may_drive(self@.remote_control_mode) && access == Some(
                CriomeAccess::ReadWrite,
            )),
    {
        self.remote_control_mode.local_can_drive() && matches!(access, Some(CriomeAccess::ReadWrite))
    }

    /// The header's remote-control caption.
    pub fn remote_caption(&self) -> (caption: String)
        ensures
            caption@ == "remote: "@ + mode_text(self@.remote_control_mode),
    {
        concat_text("remote: ", self.remote_control_mode.label())
    }
}

/// Law: a command that drives the client is refused, with nothing done and
/// the mode kept, whenever the mode does not let the remote drive.
pub proof fn lemma_drive_commands_need_remote(
    mode: RemoteControlMode,
    input: GuiControlInput,
    has_current_question: bool,
)
    requires
        drives_client(input),
        !remote_may_drive(mode),
    ensures
        route_spec(mode, input, has_current_question) == (
            ControlRoute {
                effect: ControlEffect::Nothing,
                reply: ControlReply::Rejected(GuiControlRejectionReason::RemoteControlDisabled),
            },
            mode,
        ),
{
}

/// Law: observing the state and setting the mode are taken in every mode, so
/// a controller can always see the client and enable itself; after
/// `SetRemoteControl(m)` the mode is `m`.
pub proof fn lemma_mode_commands_always_taken(
    mode: RemoteControlMode,
    new_mode: RemoteControlMode,
    has_current_question: bool,
)
    ensures
        route_spec(mode, GuiControlInput::ObserveState, has_current_question) == (
            ControlRoute { effect: ControlEffect::Nothing, reply: ControlReply::State },
            mode,
        ),
        route_spec(mode, GuiControlInput::SetRemoteControl(new_mode), has_current_question) == (
            ControlRoute { effect: ControlEffect::Nothing, reply: ControlReply::Accepted },
            new_mode,
        ),
{
}

/// Law: only the mode command changes the mode, and an answer is never
/// passed on without a selected question.
pub proof fn lemma_route_effects(
    mode: RemoteControlMode,
    input: GuiControlInput,
    has_current_question: bool,
)
    ensures
        !(input is SetRemoteControl) ==> route_spec(mode, input, has_current_question).1 == mode,
        route_spec(mode, input, has_current_question).0.effect is AnswerSelected
            ==> has_current_question && remote_may_drive(mode),
        route_spec(mode, input, has_current_question).0.effect != ControlEffect::Nothing
            ==> route_spec(mode, input, has_current_question).0.reply == ControlReply::Accepted,
{
}

/// Law: when the remote may drive, a selection and an answer are passed on
/// as they came, the answer only while a question is selected, and both are
/// accepted with the mode kept.
pub proof fn lemma_commands_pass_on_their_payload(
    mode: RemoteControlMode,
    question: QuestionIdentifier,
    decision: ApprovalDecision,
    has_current_question: bool,
)
    requires
        remote_may_drive(mode),
    ensures
        route_spec(mode, GuiControlInput::AnswerSelected(decision), true) == (
            ControlRoute {
                effect: ControlEffect::AnswerSelected(decision),
                reply: ControlReply::Accepted,
            },
            mode,
        ),
        route_spec(mode, GuiControlInput::AnswerSelected(decision), false).0.reply
            == ControlReply::Rejected(GuiControlRejectionReason::NoSelectedQuestion),
        route_spec(mode, GuiControlInput::SelectQuestion(question), has_current_question) == (
            ControlRoute {
                effect: ControlEffect::SelectQuestion(question),
                reply: ControlReply::Accepted,
            },
            mode,
        ),
        route_spec(mode, GuiControlInput::TriggerObserve, has_current_question).0.effect
            == ControlEffect::RequestInterfaceState,
{
}

pub open spec fn criome_access_text(access: Option<CriomeAccess>) -> Seq<char> {
    match access {
        Some(CriomeAccess::ReadWrite) => "criome: read-write"@,
        Some(CriomeAccess::ReadOnly) => "criome: read-only"@,
        None => "criome: observation-only"@,
    }
}

/// The approval card's line on the daemon's criome access.
pub fn criome_access_label(access: Option<CriomeAccess>) -> (label: &'static str)
    ensures
        label@ == criome_access_text(access),
{
    match access {
        Some(CriomeAccess::ReadWrite) => "criome: read-write",
        Some(CriomeAccess::ReadOnly) => "criome: read-only",
        None => "criome: observation-only",
    }
}

pub open spec fn approval_source_text(source: ApprovalSource) -> Seq<char> {
    match source {
        ApprovalSource::CriomeEscalation => "criome escalation"@,
        ApprovalSource::AgentQuestion => "agent question"@,
        ApprovalSource::LocalSystemPrompt => "local system prompt"@,
    }
}

/// The approval card's name for where a question came from.
pub fn approval_source_label(source: ApprovalSource) -> (label: &'static str)
    ensures
        label@ == approval_source_text(source),
{
    match source {
        ApprovalSource::CriomeEscalation => "criome escalation",
        ApprovalSource::AgentQuestion => "agent question",
        ApprovalSource::LocalSystemPrompt => "local system prompt",
    }
}

/// Whether `question` is the one the approval cursor is on.
pub fn is_current_question(current: &Option<QuestionIdentifier>, question: &QuestionIdentifier) -> (is_current:
    bool)
    ensures
        is_current == (current matches Some(selected) && selected@ == question@),
{
    match current {
        Some(selected) => crate::text::same_text(selected.as_str(), question.as_str()),
        None => false,
    }
}

/// The pending-count line of the approval card.
pub fn pending_caption(pending: usize) -> (caption: String)
    ensures
        caption@ == decimal_text(pending as nat) + " pending"@,
{
    let mut caption = decimal_string(pending as u64);
    push_str(&mut caption, " pending");
    caption
}

/// The header's approval summary line.
pub fn approval_counts_caption(pending: usize, answered: usize) -> (caption: String)
    ensures
        caption@ == "pending "@ + decimal_text(pending as nat) + " | answered "@ + decimal_text(
            answered as nat,
        ),
{
    let mut caption = concat_text("pending ", decimal_string(pending as u64).as_str());
    push_str(&mut caption, " | answered ");
    push_str(&mut caption, decimal_string(answered as u64).as_str());
    caption
}

pub open spec fn reply_operation_text(reply: MentciReplyView) -> Seq<char> {
    match reply {
        MentciReplyView::QuestionPresented => "QuestionPresented"@,
        MentciReplyView::UpdateAccepted => "UpdateAccepted"@,
        MentciReplyView::InterfaceObservationOpened => "InterfaceObservationOpened"@,
        MentciReplyView::VerdictAccepted => "VerdictAccepted"@,
        MentciReplyView::AnswerProposalAdmitted => "AnswerProposalAdmitted"@,
        MentciReplyView::InterfaceObservationRetracted => "InterfaceObservationRetracted"@,
        MentciReplyView::Rejection => "Rejection"@,
        MentciReplyView::InterceptPoliciesListed(_) => "InterceptPoliciesListed"@,
        MentciReplyView::InterceptPolicyCreated(_) => "InterceptPolicyCreated"@,
        MentciReplyView::InterceptPolicyReplaced(_) => "InterceptPolicyReplaced"@,
        MentciReplyView::InterceptPolicyCancelled(_) => "InterceptPolicyCancelled"@,
    }
}

/// The transcript header of a reply: the name of its variant.
pub fn reply_operation_name(reply: &MentciReply) -> (name: &'static str)
    ensures
        name@ == reply_operation_text(reply@),
{
    match reply {
        MentciReply::QuestionPresented => "QuestionPresented",
        MentciReply::UpdateAccepted => "UpdateAccepted",
        MentciReply::InterfaceObservationOpened => "InterfaceObservationOpened",
        MentciReply::VerdictAccepted => "VerdictAccepted",
        MentciReply::AnswerProposalAdmitted => "AnswerProposalAdmitted",
        MentciReply::InterfaceObservationRetracted => "InterfaceObservationRetracted",
        MentciReply::Rejection => "Rejection",
        MentciReply::InterceptPoliciesListed(_) => "InterceptPoliciesListed",
        MentciReply::InterceptPolicyCreated(_) => "InterceptPolicyCreated",
        MentciReply::InterceptPolicyReplaced(_) => "InterceptPolicyReplaced",
        MentciReply::InterceptPolicyCancelled(_) => "InterceptPolicyCancelled",
    }
}

/// The transcript header of a failed daemon exchange.
pub fn failed_exchange_operation() -> (name: &'static str)
    ensures
        name@ == "ObserveInterfaceState (error)"@,
{
    "ObserveInterfaceState (error)"
}

/// The desktop's colour scheme.
#[derive(Clone, Copy, Debug, Eq, PartialEq, Structural)]
pub enum SystemColorScheme {
    Dark,
    Light,
}

/// What the `dark-light` crate reports of the desktop's preference.
#[derive(Clone, Copy, Debug, Eq, PartialEq, Structural)]
pub enum DarkLightMode {
    Dark,
    Light,
    Default,
}

impl SystemColorScheme {
    /// The desktop portal's `color-scheme` value: 1 prefers dark, 2 prefers
    /// light, anything else states no preference.
    pub fn from_portal_value(value: u32) -> (scheme: Option<Self>)
        ensures
            value == 1 ==> scheme == Some(SystemColorScheme::Dark),
            value == 2 ==> scheme == Some(SystemColorScheme::Light),
            value != 1 && value != 2 ==> scheme is None,
    {
        match value {
            1 => Some(SystemColorScheme::Dark),
            2 => Some(SystemColorScheme::Light),
            _ => None,
        }
    }

    /// `dark-light`'s answer; its `Default` states no preference and so does
    /// not force the light scheme before the other sources are asked.
    pub fn from_dark_light(mode: DarkLightMode) -> (scheme: Option<Self>)
        ensures
            mode == DarkLightMode::Dark ==> scheme == Some(SystemColorScheme::Dark),
            mode == DarkLightMode::Light ==> scheme == Some(SystemColorScheme::Light),
            mode == DarkLightMode::Default ==> scheme is None,
    {
        match mode {
            DarkLightMode::Dark => Some(SystemColorScheme::Dark),
            DarkLightMode::Light => Some(SystemColorScheme::Light),
            DarkLightMode::Default => None,
        }
    }

    /// The scheme to follow: the portal's preference, else `dark-light`'s,
    /// else light.
    pub fn from_sources(portal: Option<Self>, dark_light: Option<Self>) -> (scheme: Self)
        ensures
            scheme == match portal {
                Some(s) => s,
                None => match dark_light {
                    Some(s) => s,
                    None => SystemColorScheme::Light,
                },
            },
    {
        match portal {
            Some(scheme) => scheme,
            None => match dark_light {
                Some(scheme) => scheme,
                None => SystemColorScheme::Light,
            },
        }
    }

    pub fn is_dark(self) -> (dark: bool)
        ensures
            dark == (self == SystemColorScheme::Dark),
    {
        matches!(self, SystemColorScheme::Dark)
    }
}

} // verus!
