use mentci_egui::mentci::{MentciReply, MentciRequest};
use mentci_egui::policy_editor::{
    ExpiryAction, InterceptPolicy, InterceptPolicyWindow, PolicyEditorError, PolicyEditorState,
    PolicyForm, PolicyOverlapMode,
};

#[test]
fn policy_editor_builds_create_request_from_form_fields() {
    let mut editor = PolicyEditorState::new();
    editor.form.session_slot = "session-a".to_string();
    editor.form.target_key = "spirit-process-main".to_string();
    editor.form.operation_names = "Record\nObserve".to_string();
    editor.form.duration_seconds = "12".to_string();
    editor.form.expiry_action = ExpiryAction::AutoReject;
    editor.form.priority = "7".to_string();
    editor.form.overlap_mode = PolicyOverlapMode::RejectSamePriorityOverlap;

    let request = editor.create_request().expect("create request");
    let MentciRequest::CreateInterceptPolicy(proposal) = request else {
        panic!("expected create policy request");
    };

    assert_eq!(proposal.session_slot.as_str(), "session-a");
    assert_eq!(proposal.target_key.as_str(), "spirit-process-main");
    assert_eq!(proposal.operation_names.len(), 2);
    assert_eq!(proposal.duration_nanos, 12_000_000_000);
    assert_eq!(proposal.expiry_action, ExpiryAction::AutoReject);
    assert_eq!(proposal.priority, 7);
    assert_eq!(
        proposal.overlap_mode,
        PolicyOverlapMode::RejectSamePriorityOverlap
    );
}

#[test]
fn policy_editor_requires_at_least_one_operation_name() {
    let mut editor = PolicyEditorState::new();
    editor.form.operation_names = "  \n , ".to_string();

    let error = editor.create_request().expect_err("operation required");

    assert_eq!(error, PolicyEditorError::MissingOperationName);
}

#[test]
fn policy_editor_rejects_zero_duration() {
    let mut editor = PolicyEditorState::new();
    editor.form.duration_seconds = "0".to_string();

    let error = editor.replace_request().expect_err("duration required");

    assert_eq!(error, PolicyEditorError::InvalidDurationSeconds);
}

fn policy(identifier: &str, names: &[&str], seconds: u64, priority: u64) -> InterceptPolicy {
    InterceptPolicy {
        identifier: identifier.to_string(),
        session_slot: " session-b ".to_string(),
        target_key: "target-b".to_string(),
        operation_names: names.iter().map(|n| n.to_string()).collect(),
        window: InterceptPolicyWindow {
            starts_at: 5_000_000_000,
            expires_at: 5_000_000_000 + seconds * 1_000_000_000 + 999,
        },
        expiry_action: ExpiryAction::AutoApprove,
        priority,
    }
}

#[test]
fn default_form_proposes_the_default_policy() {
    let form = PolicyForm::default();
    let proposal = form.proposal().expect("default form is valid");
    assert_eq!(proposal.session_slot, "mentci-egui");
    assert_eq!(proposal.target_key, "spirit-process-main");
    assert_eq!(proposal.operation_names, vec!["Record".to_string(), "Observe".to_string()]);
    assert_eq!(proposal.duration_nanos, 300_000_000_000);
    assert_eq!(proposal.expiry_action, ExpiryAction::LeaveParked);
    assert_eq!(proposal.priority, 10);
    assert_eq!(
        proposal.overlap_mode,
        PolicyOverlapMode::ReplaceSamePriorityOverlap
    );
    assert_eq!(form.expiry_action_label(), "leave-parked");
    assert_eq!(form.overlap_mode_label(), "replace overlap");
}

#[test]
fn form_fields_are_trimmed_and_split() {
    let mut form = PolicyForm::default();
    form.session_slot = "\t slot \u{3000}".to_string();
    form.operation_names = " Record ,\r\nObserve,, Spawn \n".to_string();
    form.duration_seconds = " +3 ".to_string();
    form.priority = "007".to_string();
    let proposal = form.proposal().expect("valid form");
    assert_eq!(proposal.session_slot, "slot");
    assert_eq!(
        proposal.operation_names,
        vec!["Record".to_string(), "Observe".to_string(), "Spawn".to_string()]
    );
    assert_eq!(proposal.duration_nanos, 3_000_000_000);
    assert_eq!(proposal.priority, 7);
}

#[test]
fn each_form_error_has_its_input() {
    let mut form = PolicyForm::default();
    form.session_slot = "   ".to_string();
    assert_eq!(form.proposal(), Err(PolicyEditorError::MissingSessionSlot));

    let mut form = PolicyForm::default();
    form.target_key = "".to_string();
    assert_eq!(form.proposal(), Err(PolicyEditorError::MissingTargetKey));

    let mut form = PolicyForm::default();
    form.duration_seconds = "-5".to_string();
    assert_eq!(form.proposal(), Err(PolicyEditorError::InvalidDurationSeconds));

    let mut form = PolicyForm::default();
    form.duration_seconds = "18446744073709551615".to_string();
    assert_eq!(form.proposal(), Err(PolicyEditorError::DurationTooLarge));

    let mut form = PolicyForm::default();
    form.duration_seconds = "18446744073709551616".to_string();
    assert_eq!(form.proposal(), Err(PolicyEditorError::InvalidDurationSeconds));

    let mut form = PolicyForm::default();
    form.priority = "ten".to_string();
    assert_eq!(form.proposal(), Err(PolicyEditorError::InvalidPriority));

    let mut form = PolicyForm::default();
    form.priority = "+".to_string();
    assert_eq!(form.proposal(), Err(PolicyEditorError::InvalidPriority));

    assert_eq!(
        PolicyEditorError::DurationTooLarge.message(),
        "duration seconds is too large"
    );
    assert_eq!(
        PolicyEditorError::MissingOperationName.message(),
        "at least one operation name is required"
    );
}

#[test]
fn edited_policy_proposes_itself() {
    let edited = policy("p-1", &["Record", "Observe"], 42, 18446744073709551615);
    let mut form = PolicyForm::default();
    form.absorb_policy(&edited);
    assert_eq!(form.session_slot, " session-b ");
    assert_eq!(form.operation_names, "Record\nObserve");
    assert_eq!(form.duration_seconds, "42");
    assert_eq!(form.priority, "18446744073709551615");
    let proposal = form.proposal().expect("edited policy is valid");
    assert_eq!(proposal.session_slot, "session-b");
    assert_eq!(proposal.target_key, "target-b");
    assert_eq!(proposal.operation_names, edited.operation_names);
    assert_eq!(proposal.duration_nanos, 42_000_000_000);
    assert_eq!(proposal.priority, 18446744073709551615);
    assert_eq!(proposal.expiry_action, ExpiryAction::AutoApprove);
    assert_eq!(
        proposal.overlap_mode,
        PolicyOverlapMode::ReplaceSamePriorityOverlap
    );
}

#[test]
fn window_seconds_saturate_at_zero() {
    let window = InterceptPolicyWindow {
        starts_at: 10,
        expires_at: 5,
    };
    assert_eq!(window.duration_seconds(), 0);
    let window = InterceptPolicyWindow {
        starts_at: 0,
        expires_at: 2_999_999_999,
    };
    assert_eq!(window.duration_seconds(), 2);
}

#[test]
fn replies_update_policies_selection_and_feedback() {
    let mut editor = PolicyEditorState::new();
    assert_eq!(editor.list_request(), MentciRequest::ListInterceptPolicies);
    assert_eq!(editor.cancel_request(), None);

    editor.absorb_reply(&MentciReply::InterceptPoliciesListed(vec![
        policy("p-1", &["Record"], 10, 1),
        policy("p-2", &["Observe"], 20, 2),
    ]));
    assert_eq!(editor.policies().len(), 2);
    assert_eq!(editor.feedback(), Some("2 active policies"));
    assert_eq!(editor.selected_policy(), None);

    editor.select_policy("p-2".to_string());
    assert_eq!(editor.selected_policy(), Some(&"p-2".to_string()));
    assert_eq!(editor.feedback(), Some("editing p-2"));
    assert_eq!(editor.form.operation_names, "Observe");
    assert_eq!(editor.form.duration_seconds, "20");
    assert_eq!(
        editor.cancel_request(),
        Some(MentciRequest::CancelInterceptPolicy("p-2".to_string()))
    );

    let mut replaced = policy("p-2", &["Spawn"], 30, 3);
    replaced.priority = 9;
    editor.absorb_reply(&MentciReply::InterceptPolicyReplaced(replaced.clone()));
    assert_eq!(editor.policies().len(), 2);
    assert_eq!(editor.policies()[1], replaced);
    assert_eq!(editor.feedback(), Some("replaced p-2"));

    editor.absorb_reply(&MentciReply::InterceptPolicyCreated(policy("p-3", &["Record"], 5, 0)));
    assert_eq!(editor.policies().len(), 3);
    assert_eq!(editor.selected_policy(), Some(&"p-3".to_string()));
    assert_eq!(editor.feedback(), Some("created p-3"));

    editor.absorb_reply(&MentciReply::InterceptPolicyCancelled("p-3".to_string()));
    assert_eq!(editor.policies().len(), 2);
    assert_eq!(editor.selected_policy(), None);
    assert_eq!(editor.feedback(), Some("cancelled p-3"));

    editor.select_policy("p-1".to_string());
    editor.absorb_reply(&MentciReply::InterceptPoliciesListed(vec![policy("p-2", &["Record"], 1, 1)]));
    assert_eq!(editor.selected_policy(), None);
    assert_eq!(editor.feedback(), Some("1 active policies"));

    editor.absorb_reply(&MentciReply::Rejection);
    assert_eq!(
        editor.feedback(),
        Some("daemon rejected policy request; see transcript")
    );
    let before = editor.clone();
    editor.absorb_reply(&MentciReply::QuestionPresented);
    assert_eq!(editor, before);

    editor.select_policy("unknown".to_string());
    assert_eq!(editor.selected_policy(), Some(&"unknown".to_string()));
    assert_eq!(editor.feedback(), Some("daemon rejected policy request; see transcript"));

    editor.clear_selection();
    assert_eq!(editor.selected_policy(), None);
    assert_eq!(editor.form, PolicyForm::default());
    assert_eq!(editor.feedback(), Some("new policy"));

    editor.record_error(PolicyEditorError::InvalidPriority.message());
    assert_eq!(
        editor.feedback(),
        Some("priority must be a non-negative integer")
    );
}

#[test]
fn created_policy_with_known_identifier_takes_its_place() {
    let mut editor = PolicyEditorState::new();
    editor.absorb_reply(&MentciReply::InterceptPoliciesListed(vec![
        policy("p-1", &["Record"], 10, 1),
        policy("p-2", &["Observe"], 20, 2),
    ]));
    editor.absorb_reply(&MentciReply::InterceptPolicyCreated(policy("p-1", &["Spawn"], 1, 4)));
    let identifiers: Vec<&str> = editor
        .policies()
        .iter()
        .map(|p| p.identifier.as_str())
        .collect();
    assert_eq!(identifiers, vec!["p-1", "p-2"]);
    assert_eq!(editor.policies()[0].priority, 4);
    editor.absorb_reply(&MentciReply::InterceptPolicyCancelled("p-9".to_string()));
    assert_eq!(editor.policies().len(), 2);
    assert_eq!(editor.selected_policy(), Some(&"p-1".to_string()));
}
