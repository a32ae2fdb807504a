use mentci_egui::mentci::{ApprovalSource, CriomeAccess, MentciReply, QuestionIdentifier};
use mentci_egui::shell::{
    approval_counts_caption, approval_source_label, criome_access_label, failed_exchange_operation,
    is_current_question, pending_caption, reply_operation_name, ShellState,
};
use mentci_egui::control::{GuiControlInput, RemoteControlMode};
use mentci_egui::workbench::{
    connection_chip_text, diagnostic_line, diagnostics_heading, graphs_placeholder, inspector_lines,
    offers_reconnect, pinned_line, reconnect_event, status_glyph, ChipDaemon, ConnectionView,
    DaemonStatus, DiagnosticSeverity, WorkbenchEvent,
};

#[test]
fn bootstrap_and_control_server_start_once() {
    let mut shell = ShellState::new();
    assert!(shell.bootstrap());
    assert!(!shell.bootstrap());
    assert!(shell.claim_control_server_start());
    assert!(!shell.claim_control_server_start());
}

#[test]
fn one_ordinary_request_in_flight_at_a_time() {
    let mut shell = ShellState::new();
    assert!(shell.may_request_interface_state());
    assert!(shell.observe_enabled());
    shell.note_request_dispatched();
    assert!(!shell.may_request_interface_state());
    assert!(!shell.observe_enabled());
    assert!(shell.ordinary_request_in_flight());
    shell.note_reply_received();
    assert!(shell.may_request_interface_state());
}

#[test]
fn local_input_locks_in_presentation_mode() {
    let mut shell = ShellState::new();
    assert!(shell.can_answer(Some(CriomeAccess::ReadWrite)));
    assert!(!shell.can_answer(Some(CriomeAccess::ReadOnly)));
    assert!(!shell.can_answer(None));
    shell.route_control_input(
        GuiControlInput::SetRemoteControl(RemoteControlMode::RemotePresentation),
        false,
    );
    assert!(!shell.observe_enabled());
    assert!(!shell.can_answer(Some(CriomeAccess::ReadWrite)));
    assert_eq!(shell.remote_caption(), "remote: remote presentation");
}

#[test]
fn approval_card_labels() {
    assert_eq!(criome_access_label(Some(CriomeAccess::ReadWrite)), "criome: read-write");
    assert_eq!(criome_access_label(Some(CriomeAccess::ReadOnly)), "criome: read-only");
    assert_eq!(criome_access_label(None), "criome: observation-only");
    assert_eq!(approval_source_label(ApprovalSource::CriomeEscalation), "criome escalation");
    assert_eq!(approval_source_label(ApprovalSource::AgentQuestion), "agent question");
    assert_eq!(approval_source_label(ApprovalSource::LocalSystemPrompt), "local system prompt");
    let q = QuestionIdentifier::new("q-1");
    assert!(is_current_question(&Some(QuestionIdentifier::new("q-1")), &q));
    assert!(!is_current_question(&Some(QuestionIdentifier::new("q-2")), &q));
    assert!(!is_current_question(&None, &q));
    assert_eq!(pending_caption(3), "3 pending");
    assert_eq!(approval_counts_caption(4, 12), "pending 4 | answered 12");
}

#[test]
fn transcript_headers_name_the_reply() {
    assert_eq!(reply_operation_name(&MentciReply::InterfaceObservationOpened), "InterfaceObservationOpened");
    assert_eq!(reply_operation_name(&MentciReply::Rejection), "Rejection");
    assert_eq!(reply_operation_name(&MentciReply::InterceptPolicyCancelled("p".to_string())), "InterceptPolicyCancelled");
    assert_eq!(failed_exchange_operation(), "ObserveInterfaceState (error)");
}

#[test]
fn workbench_chips_and_strips() {
    let connection = ConnectionView {
        label: "criome".to_string(),
        status: DaemonStatus::Connected,
        version: Some("0.3".to_string()),
        note: None,
    };
    assert_eq!(connection_chip_text(&connection), "● criome · connected · v0.3");
    let connection = ConnectionView {
        label: "nexus".to_string(),
        status: DaemonStatus::Disconnected,
        version: None,
        note: Some("refused".to_string()),
    };
    assert_eq!(connection_chip_text(&connection), "○ nexus · disconnected");
    assert!(offers_reconnect(DaemonStatus::Disconnected));
    assert!(!offers_reconnect(DaemonStatus::Handshaking));
    assert_eq!(status_glyph(DaemonStatus::Connecting), "◐");
    assert_eq!(reconnect_event(ChipDaemon::Nexus), WorkbenchEvent::ReconnectNexus);
    assert_eq!(diagnostics_heading(2), "⚠ DIAGNOSTICS (2)");
    assert_eq!(diagnostic_line(DiagnosticSeverity::Error, "E1", "bad"), "✗ E1 · bad");
    assert_eq!(inspector_lines(&None), vec!["(no selection)".to_string()]);
    assert_eq!(
        inspector_lines(&Some(("Graph".to_string(), "main".to_string()))),
        vec!["kind: Graph".to_string(), "name: main".to_string()]
    );
    assert_eq!(pinned_line("main"), "• main");
    assert_eq!(graphs_placeholder(0), Some("(no graphs yet)"));
    assert_eq!(graphs_placeholder(1), None);
}
