use mentci_egui::control::{
    GuiControlEndpoint, GuiControlInput, GuiControlOutput, GuiControlRejection,
    GuiControlRejectionReason, GuiControlState, RemoteControlMode,
};
use mentci_egui::mentci::{ApprovalDecision, QuestionIdentifier};
use mentci_egui::shell::{ApprovalSummary, ControlEffect, ControlReply, ShellState};
use mentci_egui::sockets::SocketEnvironment;

fn empty_summary() -> ApprovalSummary {
    ApprovalSummary {
        pending_count: 0,
        answered_count: 0,
        selected_question: None,
        transcript_entries: 0,
    }
}

/// Decides a command and answers it as the shell does, with no model effect.
fn apply_control_input(shell: &mut ShellState, input: GuiControlInput) -> GuiControlOutput {
    let route = shell.route_control_input(input, false);
    shell.control_output(route.reply, &empty_summary())
}

#[test]
fn remote_control_mode_exposes_local_and_remote_drive_policy() {
    assert!(!RemoteControlMode::LocalOnly.remote_can_drive());
    assert!(RemoteControlMode::RemoteEnabled.remote_can_drive());
    assert!(RemoteControlMode::RemotePresentation.remote_can_drive());
    assert!(RemoteControlMode::DualWrite.remote_can_drive());
    assert!(!RemoteControlMode::RemotePresentation.local_can_drive());
    assert!(RemoteControlMode::DualWrite.local_can_drive());
}

#[test]
fn remote_control_rejects_drive_commands_until_enabled() {
    let mut shell = ShellState::new();

    let output = apply_control_input(&mut shell, GuiControlInput::TriggerObserve);

    assert!(matches!(
        output,
        GuiControlOutput::Rejected(GuiControlRejection {
            reason: GuiControlRejectionReason::RemoteControlDisabled
        })
    ));
}

#[test]
fn remote_control_mode_change_enables_drive_commands() {
    let mut shell = ShellState::new();

    let enabled = apply_control_input(
        &mut shell,
        GuiControlInput::SetRemoteControl(RemoteControlMode::DualWrite),
    );
    assert!(matches!(enabled, GuiControlOutput::Accepted(_)));

    let observed = apply_control_input(&mut shell, GuiControlInput::ObserveState);
    assert!(matches!(
        observed,
        GuiControlOutput::State(GuiControlState {
            mode: RemoteControlMode::DualWrite,
            ..
        })
    ));
}

#[test]
fn mode_labels_name_each_mode() {
    assert_eq!(RemoteControlMode::LocalOnly.label(), "local only");
    assert_eq!(RemoteControlMode::RemoteEnabled.label(), "remote enabled");
    assert_eq!(RemoteControlMode::RemotePresentation.label(), "remote presentation");
    assert_eq!(RemoteControlMode::DualWrite.label(), "dual write");
    assert_eq!(RemoteControlMode::default(), RemoteControlMode::LocalOnly);
}

#[test]
fn someone_can_drive_in_every_mode() {
    for mode in [
        RemoteControlMode::LocalOnly,
        RemoteControlMode::RemoteEnabled,
        RemoteControlMode::RemotePresentation,
        RemoteControlMode::DualWrite,
    ] {
        assert!(mode.remote_can_drive() || mode.local_can_drive());
    }
}

#[test]
fn only_state_and_mode_commands_skip_the_drive_check() {
    assert!(!GuiControlInput::ObserveState.requires_remote_drive());
    assert!(!GuiControlInput::SetRemoteControl(RemoteControlMode::LocalOnly).requires_remote_drive());
    assert!(GuiControlInput::TriggerObserve.requires_remote_drive());
    assert!(GuiControlInput::SelectQuestion(QuestionIdentifier::new("q-1")).requires_remote_drive());
    assert!(GuiControlInput::AnswerSelected(ApprovalDecision::Defer).requires_remote_drive());
}

#[test]
fn every_drive_command_is_refused_in_local_only_mode() {
    for input in [
        GuiControlInput::TriggerObserve,
        GuiControlInput::SelectQuestion(QuestionIdentifier::new("q-1")),
        GuiControlInput::AnswerSelected(ApprovalDecision::Reject),
    ] {
        let mut shell = ShellState::new();
        let route = shell.route_control_input(input, true);
        assert_eq!(route.effect, ControlEffect::Nothing);
        assert_eq!(
            route.reply,
            ControlReply::Rejected(GuiControlRejectionReason::RemoteControlDisabled)
        );
        assert_eq!(shell.remote_control_mode(), RemoteControlMode::LocalOnly);
    }
}

#[test]
fn answer_without_selected_question_is_refused() {
    let mut shell = ShellState::new();
    shell.route_control_input(
        GuiControlInput::SetRemoteControl(RemoteControlMode::RemoteEnabled),
        false,
    );
    let route = shell.route_control_input(
        GuiControlInput::AnswerSelected(ApprovalDecision::ApproveSuggestedAnswer),
        false,
    );
    assert_eq!(
        route.reply,
        ControlReply::Rejected(GuiControlRejectionReason::NoSelectedQuestion)
    );
    let output = shell.control_output(route.reply, &empty_summary());
    assert_eq!(
        output,
        GuiControlOutput::Rejected(GuiControlRejection::new(
            GuiControlRejectionReason::NoSelectedQuestion
        ))
    );
    let route = shell.route_control_input(
        GuiControlInput::AnswerSelected(ApprovalDecision::ApproveSuggestedAnswer),
        true,
    );
    assert_eq!(
        route.effect,
        ControlEffect::AnswerSelected(ApprovalDecision::ApproveSuggestedAnswer)
    );
    assert_eq!(route.reply, ControlReply::Accepted);
}

#[test]
fn selecting_a_question_passes_it_on() {
    let mut shell = ShellState::new();
    shell.route_control_input(
        GuiControlInput::SetRemoteControl(RemoteControlMode::RemotePresentation),
        false,
    );
    let route =
        shell.route_control_input(GuiControlInput::SelectQuestion(QuestionIdentifier::new("q-7")), false);
    assert_eq!(
        route.effect,
        ControlEffect::SelectQuestion(QuestionIdentifier::new("q-7"))
    );
    let route = shell.route_control_input(GuiControlInput::TriggerObserve, false);
    assert_eq!(route.effect, ControlEffect::RequestInterfaceState);
}

#[test]
fn control_state_reports_counts_and_flags() {
    let mut shell = ShellState::new();
    shell.note_request_dispatched();
    let summary = ApprovalSummary {
        pending_count: 1,
        answered_count: 2,
        selected_question: Some(QuestionIdentifier::new("q-3")),
        transcript_entries: 3,
    };
    let state = shell.control_state(&summary);
    assert_eq!(
        state,
        GuiControlState {
            mode: RemoteControlMode::LocalOnly,
            pending_questions: 1,
            answered_questions: 2,
            selected_question: Some(QuestionIdentifier::new("q-3")),
            ordinary_request_in_flight: true,
            transcript_entries: 3,
        }
    );
}

#[test]
fn endpoint_follows_the_environment() {
    let mut environment = SocketEnvironment::default();
    assert_eq!(
        GuiControlEndpoint::from_environment(&environment).socket_path(),
        "/tmp/mentci-egui.socket"
    );
    environment.runtime_directory = Some("/run/user/1000".to_string());
    assert_eq!(
        GuiControlEndpoint::from_environment(&environment).socket_path(),
        "/run/user/1000/mentci-egui.socket"
    );
    environment.runtime_directory = Some("/run/user/1000/".to_string());
    assert_eq!(
        GuiControlEndpoint::from_environment(&environment).socket_path(),
        "/run/user/1000/mentci-egui.socket"
    );
    environment.control_socket = Some("/srv/control.socket".to_string());
    assert_eq!(
        GuiControlEndpoint::from_environment(&environment).socket_path(),
        "/srv/control.socket"
    );
    assert_eq!(GuiControlEndpoint::new("/x/y").socket_path(), "/x/y");
}

#[test]
fn control_client_connects_to_its_endpoint() {
    let client = mentci_egui::control::GuiControlClient::new(GuiControlEndpoint::new("/run/c.socket"));
    assert_eq!(client.socket_path(), "/run/c.socket");
}
