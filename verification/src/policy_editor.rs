//! Local form state for Mentci intercept-policy controls.
//!
//! This module owns only view-state and typed request construction. The
//! Mentci daemon and criome remain the policy source of truth; the policy
//! values below hold, as plain values, what the editor reads of them.

use vstd::prelude::*;

use crate::text::{
    copy_strings, decimal_string, decimal_text, join_lines, join_lines_of, operation_names_of,
    owned, parse_trimmed_u64, parse_u64, strings_view, trim, trimmed_text,
};
use crate::text::operation_names as listed_names;
use crate::text::{
    concat_text, is_clean_name, is_white_space, lemma_decimal_text_value, lemma_names_roundtrip,
    lemma_parse_decimal_roundtrip, push_str, trim_end, trim_start,
};
use crate::mentci::{MentciReply, MentciReplyView, MentciRequest, MentciRequestView, policies_view};

verus! {

pub const NANOS_PER_SECOND: u64 = 1_000_000_000;

/// What happens to a parked request when its policy window expires.
#[derive(Clone, Copy, Debug, PartialEq, Eq, Structural)]
pub enum ExpiryAction {
    AutoApprove,
    AutoReject,
    LeaveParked,
}

/// How a new policy treats an active one of the same priority.
#[derive(Clone, Copy, Debug, PartialEq, Eq, Structural)]
pub enum PolicyOverlapMode {
    RejectSamePriorityOverlap,
    ReplaceSamePriorityOverlap,
}

/// The time window of an active policy, in nanoseconds.
#[derive(Clone, Copy, Debug, PartialEq, Eq, Structural)]
pub struct InterceptPolicyWindow {
    pub starts_at: u64,
    pub expires_at: u64,
}

/// Whole seconds between the start and the expiry of a window (none when it
/// expires before it starts).
pub open spec fn window_seconds(w: InterceptPolicyWindow) -> nat {
    (if w.expires_at >= w.starts_at {
        (w.expires_at - w.starts_at) as nat
    } else {
        0nat
    }) / (NANOS_PER_SECOND as nat)
}

impl InterceptPolicyWindow {
    pub fn duration_seconds(&self) -> (seconds: u64)
        ensures
            seconds == window_seconds(*self),
    {
        self.expires_at.saturating_sub(self.starts_at) / NANOS_PER_SECOND
    }
}

/// An intercept policy as the daemon reports it.
#[derive(Clone, Debug, PartialEq, Eq)]
pub struct InterceptPolicy {
    pub identifier: String,
    pub session_slot: String,
    pub target_key: String,
    pub operation_names: Vec<String>,
    pub window: InterceptPolicyWindow,
    pub expiry_action: ExpiryAction,
    pub priority: u64,
}

pub struct InterceptPolicyView {
    pub identifier: Seq<char>,
    pub session_slot: Seq<char>,
    pub target_key: Seq<char>,
    pub operation_names: Seq<Seq<char>>,
    pub window: InterceptPolicyWindow,
    pub expiry_action: ExpiryAction,
    pub priority: u64,
}

impl View for InterceptPolicy {
    type V = InterceptPolicyView;

    open spec fn view(&self) -> InterceptPolicyView {
        InterceptPolicyView {
            identifier: self.identifier@,
            session_slot: self.session_slot@,
            target_key: self.target_key@,
            operation_names: strings_view(self.operation_names@),
            window: self.window,
            expiry_action: self.expiry_action,
            priority: self.priority,
        }
    }
}

impl InterceptPolicy {
    /// A copy of this policy.
    pub fn copy(&self) -> (r: InterceptPolicy)
        ensures
            r@ == self@,
    {
        InterceptPolicy {
            identifier: self.identifier.clone(),
            session_slot: self.session_slot.clone(),
            target_key: self.target_key.clone(),
            operation_names: copy_strings(&self.operation_names),
            window: self.window,
            expiry_action: self.expiry_action,
            priority: self.priority,
        }
    }
}

/// A policy the editor proposes to the daemon.
#[derive(Clone, Debug, PartialEq, Eq)]
pub struct InterceptPolicyProposal {
    pub session_slot: String,
    pub target_key: String,
    pub operation_names: Vec<String>,
    pub duration_nanos: u64,
    pub expiry_action: ExpiryAction,
    pub priority: u64,
    pub overlap_mode: PolicyOverlapMode,
}

pub struct InterceptPolicyProposalView {
    pub session_slot: Seq<char>,
    pub target_key: Seq<char>,
    pub operation_names: Seq<Seq<char>>,
    pub duration_nanos: u64,
    pub expiry_action: ExpiryAction,
    pub priority: u64,
    pub overlap_mode: PolicyOverlapMode,
}

impl View for InterceptPolicyProposal {
    type V = InterceptPolicyProposalView;

    open spec fn view(&self) -> InterceptPolicyProposalView {
        InterceptPolicyProposalView {
            session_slot: self.session_slot@,
            target_key: self.target_key@,
            operation_names: strings_view(self.operation_names@),
            duration_nanos: self.duration_nanos,
            expiry_action: self.expiry_action,
            priority: self.priority,
            overlap_mode: self.overlap_mode,
        }
    }
}

/// Why the form cannot become a proposal.
#[derive(Clone, Copy, Debug, PartialEq, Eq, Structural)]
pub enum PolicyEditorError {
    MissingSessionSlot,
    MissingTargetKey,
    MissingOperationName,
    InvalidDurationSeconds,
    DurationTooLarge,
    InvalidPriority,
}

pub open spec fn editor_error_text(e: PolicyEditorError) -> Seq<char> {
    match e {
        PolicyEditorError::MissingSessionSlot => "session slot is required"@,
        PolicyEditorError::MissingTargetKey => "target key is required"@,
        PolicyEditorError::MissingOperationName => "at least one operation name is required"@,
        PolicyEditorError::InvalidDurationSeconds => "duration seconds must be a positive integer"@,
        PolicyEditorError::DurationTooLarge => "duration seconds is too large"@,
        PolicyEditorError::InvalidPriority => "priority must be a non-negative integer"@,
    }
}

impl PolicyEditorError {
    /// The human-readable text of the error.
    pub fn message(&self) -> (text: &'static str)
        ensures
            text@ == editor_error_text(*self),
    {
        match self {
            PolicyEditorError::MissingSessionSlot => "session slot is required",
            PolicyEditorError::MissingTargetKey => "target key is required",
            PolicyEditorError::MissingOperationName => "at least one operation name is required",
            PolicyEditorError::InvalidDurationSeconds => "duration seconds must be a positive integer",
            PolicyEditorError::DurationTooLarge => "duration seconds is too large",
            PolicyEditorError::InvalidPriority => "priority must be a non-negative integer",
        }
    }
}

/// The editable fields of the policy form, as the user typed them.
#[derive(Clone, Debug, PartialEq, Eq)]
pub struct PolicyForm {
    pub session_slot: String,
    pub target_key: String,
    pub operation_names: String,
    pub duration_seconds: String,
    pub expiry_action: ExpiryAction,
    pub priority: String,
    pub overlap_mode: PolicyOverlapMode,
}

pub struct PolicyFormView {
    pub session_slot: Seq<char>,
    pub target_key: Seq<char>,
    pub operation_names: Seq<char>,
    pub duration_seconds: Seq<char>,
    pub expiry_action: ExpiryAction,
    pub priority: Seq<char>,
    pub overlap_mode: PolicyOverlapMode,
}

impl View for PolicyForm {
    type V = PolicyFormView;

    open spec fn view(&self) -> PolicyFormView {
        PolicyFormView {
            session_slot: self.session_slot@,
            target_key: self.target_key@,
            operation_names: self.operation_names@,
            duration_seconds: self.duration_seconds@,
            expiry_action: self.expiry_action,
            priority: self.priority@,
            overlap_mode: self.overlap_mode,
        }
    }
}

/// The form a new policy starts from.
pub open spec fn default_form() -> PolicyFormView {
    PolicyFormView {
        session_slot: "mentci-egui"@,
        target_key: "spirit-process-main"@,
        operation_names: "Record\nObserve"@,
        duration_seconds: "300"@,
        expiry_action: ExpiryAction::LeaveParked,
        priority: "10"@,
        overlap_mode: PolicyOverlapMode::ReplaceSamePriorityOverlap,
    }
}

impl Default for PolicyForm {
    fn default() -> (form: Self)
        ensures
            form@ == default_form(),
    {
        PolicyForm {
            session_slot: owned("mentci-egui"),
            target_key: owned("spirit-process-main"),
            operation_names: owned("Record\nObserve"),
            duration_seconds: owned("300"),
            expiry_action: ExpiryAction::LeaveParked,
            priority: owned("10"),
            overlap_mode: PolicyOverlapMode::ReplaceSamePriorityOverlap,
        }
    }
}

/// The policy duration, in nanoseconds, that the seconds field asks for.
pub open spec fn duration_spec(text: Seq<char>) -> Result<u64, PolicyEditorError> {
    match parse_u64(trim(text)) {
        None => Err(PolicyEditorError::InvalidDurationSeconds),
        Some(seconds) => if seconds == 0 {
            Err(PolicyEditorError::InvalidDurationSeconds)
        } else if seconds * NANOS_PER_SECOND > u64::MAX {
            Err(PolicyEditorError::DurationTooLarge)
        } else {
            Ok((seconds * NANOS_PER_SECOND) as u64)
        },
    }
}

/// The priority that the priority field asks for.
pub open spec fn priority_spec(text: Seq<char>) -> Result<u64, PolicyEditorError> {
    match parse_u64(trim(text)) {
        None => Err(PolicyEditorError::InvalidPriority),
        Some(priority) => Ok(priority),
    }
}

/// The proposal a form makes, or the first thing wrong with it, checked in
/// this order: session slot, target key, duration, priority, operation names.
pub open spec fn proposal_spec(f: PolicyFormView) -> Result<
    InterceptPolicyProposalView,
    PolicyEditorError,
> {
    if trim(f.session_slot).len() == 0 {
        Err(PolicyEditorError::MissingSessionSlot)
    } else if trim(f.target_key).len() == 0 {
        Err(PolicyEditorError::MissingTargetKey)
    } else if duration_spec(f.duration_seconds) is Err {
        Err(duration_spec(f.duration_seconds)->Err_0)
    } else if priority_spec(f.priority) is Err {
        Err(priority_spec(f.priority)->Err_0)
    } else if operation_names_of(f.operation_names).len() == 0 {
        Err(PolicyEditorError::MissingOperationName)
    } else {
        Ok(
            InterceptPolicyProposalView {
                session_slot: trim(f.session_slot),
                target_key: trim(f.target_key),
                operation_names: operation_names_of(f.operation_names),
                duration_nanos: duration_spec(f.duration_seconds)->Ok_0,
                expiry_action: f.expiry_action,
                priority: priority_spec(f.priority)->Ok_0,
                overlap_mode: f.overlap_mode,
            },
        )
    }
}

pub open spec fn proposal_result_view(r: Result<InterceptPolicyProposal, PolicyEditorError>) -> Result<
    InterceptPolicyProposalView,
    PolicyEditorError,
> {
    match r {
        Ok(p) => Ok(p@),
        Err(e) => Err(e),
    }
}

/// The form that shows `p` for editing.
pub open spec fn form_of_policy(p: InterceptPolicyView) -> PolicyFormView {
    PolicyFormView {
        session_slot: p.session_slot,
        target_key: p.target_key,
        operation_names: join_lines(p.operation_names),
        duration_seconds: decimal_text(window_seconds(p.window)),
        expiry_action: p.expiry_action,
        priority: decimal_text(p.priority as nat),
        overlap_mode: PolicyOverlapMode::ReplaceSamePriorityOverlap,
    }
}

pub open spec fn expiry_action_text(a: ExpiryAction) -> Seq<char> {
    match a {
        ExpiryAction::AutoApprove => "auto-approve"@,
        ExpiryAction::AutoReject => "auto-reject"@,
        ExpiryAction::LeaveParked => "leave-parked"@,
    }
}

pub open spec fn overlap_mode_text(m: PolicyOverlapMode) -> Seq<char> {
    match m {
        PolicyOverlapMode::RejectSamePriorityOverlap => "reject overlap"@,
        PolicyOverlapMode::ReplaceSamePriorityOverlap => "replace overlap"@,
    }
}

impl PolicyForm {
    pub fn proposal(&self) -> (r: Result<InterceptPolicyProposal, PolicyEditorError>)
        ensures
            proposal_result_view(r) == proposal_spec(self@),
    {
        let session_slot = self.trimmed_session_slot()?;
        let target_key = self.trimmed_target_key()?;
        let duration = self.duration_nanos()?;
        let priority = self.priority()?;
        let operation_names = self.operation_names()?;
        Ok(
            InterceptPolicyProposal {
                session_slot,
                target_key,
                operation_names,
                duration_nanos: duration,
                expiry_action: self.expiry_action,
                priority,
                overlap_mode: self.overlap_mode,
            },
        )
    }

    /// Fills the form from an existing policy, to edit it.
    pub fn absorb_policy(&mut self, policy: &InterceptPolicy)
        ensures
            final(self)@ == form_of_policy(policy@),
    {
        self.session_slot = policy.session_slot.clone();
        self.target_key = policy.target_key.clone();
        self.operation_names = join_lines_of(&policy.operation_names);
        self.duration_seconds = decimal_string(policy.window.duration_seconds());
        self.expiry_action = policy.expiry_action;
        self.priority = decimal_string(policy.priority);
        self.overlap_mode = PolicyOverlapMode::ReplaceSamePriorityOverlap;
    }

    pub fn expiry_action_label(&self) -> (label: &'static str)
        ensures
            label@ == expiry_action_text(self.expiry_action),
    {
        match self.expiry_action {
            ExpiryAction::AutoApprove => "auto-approve",
            ExpiryAction::AutoReject => "auto-reject",
            ExpiryAction::LeaveParked => "leave-parked",
        }
    }

    pub fn overlap_mode_label(&self) -> (label: &'static str)
        ensures
            label@ == overlap_mode_text(self.overlap_mode),
    {
        match self.overlap_mode {
            PolicyOverlapMode::RejectSamePriorityOverlap => "reject overlap",
            PolicyOverlapMode::ReplaceSamePriorityOverlap => "replace overlap",
        }
    }

    fn trimmed_session_slot(&self) -> (r: Result<String, PolicyEditorError>)
        ensures
            r is Ok <==> trim(self.session_slot@).len() > 0,
            r is Ok ==> r->Ok_0@ == trim(self.session_slot@),
            r is Err ==> r->Err_0 == PolicyEditorError::MissingSessionSlot,
    {
        match trimmed_text(self.session_slot.as_str()) {
            Some(text) => Ok(text),
            None => Err(PolicyEditorError::MissingSessionSlot),
        }
    }

    fn trimmed_target_key(&self) -> (r: Result<String, PolicyEditorError>)
        ensures
            r is Ok <==> trim(self.target_key@).len() > 0,
            r is Ok ==> r->Ok_0@ == trim(self.target_key@),
            r is Err ==> r->Err_0 == PolicyEditorError::MissingTargetKey,
    {
        match trimmed_text(self.target_key.as_str()) {
            Some(text) => Ok(text),
            None => Err(PolicyEditorError::MissingTargetKey),
        }
    }

    fn operation_names(&self) -> (r: Result<Vec<String>, PolicyEditorError>)
        ensures
            r is Ok <==> operation_names_of(self.operation_names@).len() > 0,
            r is Ok ==> strings_view(r->Ok_0@) == operation_names_of(self.operation_names@),
            r is Err ==> r->Err_0 == PolicyEditorError::MissingOperationName,
    {
        let names = listed_names(self.operation_names.as_str());
        if names.len() == 0 {
            Err(PolicyEditorError::MissingOperationName)
        } else {
            Ok(names)
        }
    }

    fn duration_nanos(&self) -> (r: Result<u64, PolicyEditorError>)
        ensures
            r == duration_spec(self.duration_seconds@),
    {
        let seconds = match parse_trimmed_u64(self.duration_seconds.as_str()) {
            Some(seconds) => seconds,
            None => return Err(PolicyEditorError::InvalidDurationSeconds),
        };
        if seconds == 0 {
            return Err(PolicyEditorError::InvalidDurationSeconds);
        }
        match seconds.checked_mul(NANOS_PER_SECOND) {
            Some(nanos) => Ok(nanos),
            None => Err(PolicyEditorError::DurationTooLarge),
        }
    }

    fn priority(&self) -> (r: Result<u64, PolicyEditorError>)
        ensures
            r == priority_spec(self.priority@),
    {
        match parse_trimmed_u64(self.priority.as_str()) {
            Some(priority) => Ok(priority),
            None => Err(PolicyEditorError::InvalidPriority),
        }
    }
}

/// The editor's view-state: the form, the policies the daemon last reported,
/// the selected policy and the last feedback line.
#[derive(Clone, Debug, PartialEq, Eq)]
pub struct PolicyEditorState {
    pub form: PolicyForm,
    policies: Vec<InterceptPolicy>,
    selected_policy: Option<String>,
    feedback: Option<String>,
}

pub struct PolicyEditorStateView {
    pub form: PolicyFormView,
    pub policies: Seq<InterceptPolicyView>,
    pub selected_policy: Option<Seq<char>>,
    pub feedback: Option<Seq<char>>,
}

pub open spec fn text_option_view(o: Option<String>) -> Option<Seq<char>> {
    match o {
        Some(s) => Some(s@),
        None => None,
    }
}

impl View for PolicyEditorState {
    type V = PolicyEditorStateView;

    closed spec fn view(&self) -> PolicyEditorStateView {
        PolicyEditorStateView {
            form: self.form@,
            policies: policies_view(self.policies@),
            selected_policy: text_option_view(self.selected_policy),
            feedback: text_option_view(self.feedback),
        }
    }
}

/// The index of the first policy from `i` on with identifier `id`.
pub open spec fn find_policy_from(ps: Seq<InterceptPolicyView>, id: Seq<char>, i: int) -> Option<int>
    decreases ps.len() - i,
{
    if i < 0 || i >= ps.len() {
        None
    } else if ps[i].identifier == id {
        Some(i)
    } else {
        find_policy_from(ps, id, i + 1)
    }
}

/// The index of the first policy with identifier `id`.
pub open spec fn find_policy(ps: Seq<InterceptPolicyView>, id: Seq<char>) -> Option<int> {
    find_policy_from(ps, id, 0)
}

pub open spec fn lists_identifier(ps: Seq<InterceptPolicyView>, id: Seq<char>) -> bool {
    exists|i: int| 0 <= i < ps.len() && #[trigger] ps[i].identifier == id
}

/// `p` in place of the first policy with its identifier, or added last.
pub open spec fn upsert_spec(ps: Seq<InterceptPolicyView>, p: InterceptPolicyView) -> Seq<
    InterceptPolicyView,
> {
    match find_policy(ps, p.identifier) {
        Some(i) => ps.update(i, p),
        None => ps.push(p),
    }
}

/// The policies whose identifier is not `id`, in order.
pub open spec fn without_identifier(ps: Seq<InterceptPolicyView>, id: Seq<char>) -> Seq<
    InterceptPolicyView,
>
    decreases ps.len(),
{
    if ps.len() == 0 {
        ps
    } else {
        let rest = without_identifier(ps.drop_last(), id);
        if ps.last().identifier == id {
            rest
        } else {
            rest.push(ps.last())
        }
    }
}

pub open spec fn new_editor() -> PolicyEditorStateView {
    PolicyEditorStateView {
        form: default_form(),
        policies: Seq::empty(),
        selected_policy: None,
        feedback: None,
    }
}

/// The editor after picking `id`: the policy with that identifier, if any,
/// fills the form.
pub open spec fn select_spec(s: PolicyEditorStateView, id: Seq<char>) -> PolicyEditorStateView {
    match find_policy(s.policies, id) {
        Some(i) => PolicyEditorStateView {
            form: form_of_policy(s.policies[i]),
            selected_policy: Some(id),
            feedback: Some("editing "@ + s.policies[i].identifier),
            ..s
        },
        None => PolicyEditorStateView { selected_policy: Some(id), ..s },
    }
}

/// The editor after the daemon's reply `r`.
pub open spec fn absorb_reply_spec(s: PolicyEditorStateView, r: MentciReplyView) -> PolicyEditorStateView {
    match r {
        MentciReplyView::InterceptPoliciesListed(ps) => PolicyEditorStateView {
            policies: ps,
            selected_policy: match s.selected_policy {
                Some(id) => if lists_identifier(ps, id) {
                    Some(id)
                } else {
                    None
                },
                None => None,
            },
            feedback: Some(decimal_text(ps.len()) + " active policies"@),
            ..s
        },
        MentciReplyView::InterceptPolicyCreated(p) => PolicyEditorStateView {
            policies: upsert_spec(s.policies, p),
            selected_policy: Some(p.identifier),
            feedback: Some("created "@ + p.identifier),
            ..s
        },
        MentciReplyView::InterceptPolicyReplaced(p) => PolicyEditorStateView {
            policies: upsert_spec(s.policies, p),
            selected_policy: Some(p.identifier),
            feedback: Some("replaced "@ + p.identifier),
            ..s
        },
        MentciReplyView::InterceptPolicyCancelled(id) => PolicyEditorStateView {
            policies: without_identifier(s.policies, id),
            selected_policy: if s.selected_policy == Some(id) {
                None
            } else {
                s.selected_policy
            },
            feedback: Some("cancelled "@ + id),
            ..s
        },
        MentciReplyView::Rejection => PolicyEditorStateView {
            feedback: Some("daemon rejected policy request; see transcript"@),
            ..s
        },
        _ => s,
    }
}

pub open spec fn request_result_view(r: Result<MentciRequest, PolicyEditorError>) -> Result<
    MentciRequestView,
    PolicyEditorError,
> {
    match r {
        Ok(q) => Ok(q@),
        Err(e) => Err(e),
    }
}

fn position_of(policies: &Vec<InterceptPolicy>, id: &String) -> (r: Option<usize>)
    ensures
        r is None <==> find_policy(policies_view(policies@), id@) is None,
        r matches Some(i) ==> i < policies.len() && find_policy(policies_view(policies@), id@)
            == Some(i as int),
{
    let ghost ps = policies_view(policies@);
    let mut i: usize = 0;
    while i < policies.len()
        invariant
            i <= policies.len(),
            ps == policies_view(policies@),
            find_policy(ps, id@) == find_policy_from(ps, id@, i as int),
        decreases policies.len() - i,
    {
        if policies[i].identifier == *id {
            return Some(i);
        }
        i = i + 1;
    }
    None
}

impl PolicyEditorState {
    pub fn new() -> (state: Self)
        ensures
            state@ == new_editor(),
    {
        let state = PolicyEditorState {
            form: PolicyForm::default(),
            policies: Vec::new(),
            selected_policy: None,
            feedback: None,
        };
        assert(policies_view(state.policies@) =~= Seq::<InterceptPolicyView>::empty());
        state
    }

    pub fn policies(&self) -> (policies: &[InterceptPolicy])
        ensures
            policies_view(policies@) == self@.policies,
    {
        self.policies.as_slice()
    }

    pub fn selected_policy(&self) -> (selected: Option<&String>)
        ensures
            match selected {
                Some(id) => self@.selected_policy == Some(id@),
                None => self@.selected_policy is None,
            },
    {
        match &self.selected_policy {
            Some(id) => Some(id),
            None => None,
        }
    }

    pub fn feedback(&self) -> (feedback: Option<&str>)
        ensures
            match feedback {
                Some(text) => self@.feedback == Some(text@),
                None => self@.feedback is None,
            },
    {
        match &self.feedback {
            Some(text) => Some(text.as_str()),
            None => None,
        }
    }

    pub fn list_request(&self) -> (request: MentciRequest)
        ensures
            request@ == MentciRequestView::ListInterceptPolicies,
    {
        MentciRequest::ListInterceptPolicies
    }

    pub fn create_request(&self) -> (request: Result<MentciRequest, PolicyEditorError>)
        ensures
            request_result_view(request) == match proposal_spec(self@.form) {
                Ok(p) => Ok(MentciRequestView::CreateInterceptPolicy(p)),
                Err(e) => Err(e),
            },
    {
        Ok(MentciRequest::CreateInterceptPolicy(self.form.proposal()?))
    }

    pub fn replace_request(&self) -> (request: Result<MentciRequest, PolicyEditorError>)
        ensures
            request_result_view(request) == match proposal_spec(self@.form) {
                Ok(p) => Ok(MentciRequestView::ReplaceInterceptPolicy(p)),
                Err(e) => Err(e),
            },
    {
        Ok(MentciRequest::ReplaceInterceptPolicy(self.form.proposal()?))
    }

    pub fn cancel_request(&self) -> (request: Option<MentciRequest>)
        ensures
            match self@.selected_policy {
                Some(id) => request is Some && request->0@
                    == MentciRequestView::CancelInterceptPolicy(id),
                None => request is None,
            },
    {
        match &self.selected_policy {
            Some(id) => Some(MentciRequest::CancelInterceptPolicy(id.clone())),
            None => None,
        }
    }

    pub fn select_policy(&mut self, identifier: String)
        ensures
            final(self)@ == select_spec(old(self)@, identifier@),
    {
        self.selected_policy = Some(identifier.clone());
        match position_of(&self.policies, &identifier) {
            Some(i) => {
                assert(policies_view(self.policies@)[i as int] == self.policies@[i as int]@);
                self.form.absorb_policy(&self.policies[i]);
                self.feedback = Some(concat_text("editing ", self.policies[i].identifier.as_str()));
            },
            None => {},
        }
    }

    pub fn clear_selection(&mut self)
        ensures
            final(self)@ == (PolicyEditorStateView {
                form: default_form(),
                selected_policy: None,
                feedback: Some("new policy"@),
                ..old(self)@
            }),
    {
        self.selected_policy = None;
        self.form = PolicyForm::default();
        self.feedback = Some(owned("new policy"));
    }

    /// Shows the text of an error as feedback.
    pub fn record_error(&mut self, message: &str)
        ensures
            final(self)@ == (PolicyEditorStateView { feedback: Some(message@), ..old(self)@ }),
    {
        self.feedback = Some(owned(message));
    }

    pub fn absorb_reply(&mut self, reply: &MentciReply)
        ensures
            final(self)@ == absorb_reply_spec(old(self)@, reply@),
    {
        match reply {
            MentciReply::InterceptPoliciesListed(policies) => self.absorb_policy_list(policies),
            MentciReply::InterceptPolicyCreated(policy) => {
                self.upsert_policy(policy.copy());
                self.selected_policy = Some(policy.identifier.clone());
                self.feedback = Some(concat_text("created ", policy.identifier.as_str()));
            },
            MentciReply::InterceptPolicyReplaced(policy) => {
                self.upsert_policy(policy.copy());
                self.selected_policy = Some(policy.identifier.clone());
                self.feedback = Some(concat_text("replaced ", policy.identifier.as_str()));
            },
            MentciReply::InterceptPolicyCancelled(identifier) => {
                self.remove_policies(identifier);
                let clears = match &self.selected_policy {
                    Some(selected) => *selected == *identifier,
                    None => false,
                };
                if clears {
                    self.selected_policy = None;
                }
                self.feedback = Some(concat_text("cancelled ", identifier.as_str()));
            },
            MentciReply::Rejection => {
                self.feedback = Some(owned("daemon rejected policy request; see transcript"));
            },
            _ => {},
        }
    }

    fn absorb_policy_list(&mut self, policies: &Vec<InterceptPolicy>)
        ensures
            final(self)@ == absorb_reply_spec(
                old(self)@,
                MentciReplyView::InterceptPoliciesListed(policies_view(policies@)),
            ),
    {
        self.policies = copy_policies(policies);
        let mut feedback = decimal_string(self.policies.len() as u64);
        push_str(&mut feedback, " active policies");
        self.feedback = Some(feedback);
        let keeps = match &self.selected_policy {
            Some(identifier) => position_of(&self.policies, identifier).is_some(),
            None => false,
        };
        if !keeps {
            self.selected_policy = None;
        }
        proof {
            let ps = policies_view(self.policies@);
            if let Some(id) = old(self)@.selected_policy {
                lemma_find_policy_lists(ps, id);
            }
        }
    }

    fn upsert_policy(&mut self, policy: InterceptPolicy)
        ensures
            final(self)@ == (PolicyEditorStateView {
                policies: upsert_spec(old(self)@.policies, policy@),
                ..old(self)@
            }),
    {
        match position_of(&self.policies, &policy.identifier) {
            Some(i) => {
                let ghost before = self.policies@;
                self.policies.set(i, policy);
                assert(policies_view(self.policies@) =~= policies_view(before).update(
                    i as int,
                    policy@,
                ));

            },
            None => {
                let ghost before = self.policies@;
                self.policies.push(policy);
                assert(policies_view(self.policies@) =~= policies_view(before).push(policy@));
            },
        }
    }

    fn remove_policies(&mut self, identifier: &String)
        ensures
            final(self)@ == (PolicyEditorStateView {
                policies: without_identifier(old(self)@.policies, identifier@),
                ..old(self)@
            }),
    {
        let ghost ps = policies_view(self.policies@);
        let mut kept: Vec<InterceptPolicy> = Vec::new();
        let mut i: usize = 0;
        while i < self.policies.len()
            invariant
                i <= self.policies.len(),
                ps == policies_view(self.policies@),
                policies_view(kept@) == without_identifier(ps.take(i as int), identifier@),
            decreases self.policies.len() - i,
        {
            assert(ps.take(i + 1).drop_last() =~= ps.take(i as int));
            assert(ps.take(i + 1).last() == self.policies@[i as int]@);
            if self.policies[i].identifier != *identifier {
                let ghost before = kept@;
                kept.push(self.policies[i].copy());
                assert(policies_view(kept@) =~= policies_view(before).push(
                    self.policies@[i as int]@,
                ));
            }
            i = i + 1;
        }
        assert(ps.take(self.policies.len() as int) =~= ps);
        self.policies = kept;
    }
}

impl Default for PolicyEditorState {
    fn default() -> (state: Self)
        ensures
            state@ == new_editor(),
    {
        Self::new()
    }
}

/// A copy of a vector of policies.
fn copy_policies(v: &Vec<InterceptPolicy>) -> (r: Vec<InterceptPolicy>)
    ensures
        policies_view(r@) == policies_view(v@),
{
    let mut r: Vec<InterceptPolicy> = Vec::new();
    let mut i: usize = 0;
    while i < v.len()
        invariant
            i <= v.len(),
            policies_view(r@) == policies_view(v@).take(i as int),
        decreases v.len() - i,
    {
        let ghost before = r@;
        r.push(v[i].copy());
        assert(policies_view(r@) =~= policies_view(before).push(v@[i as int]@));
        assert(policies_view(v@).take(i + 1) =~= policies_view(v@).take(i as int).push(
            v@[i as int]@,
        ));
        i = i + 1;
    }
    assert(policies_view(v@).take(v.len() as int) =~= policies_view(v@));
    r
}

proof fn lemma_find_policy_from_lists(ps: Seq<InterceptPolicyView>, id: Seq<char>, i: int)
    requires
        0 <= i <= ps.len(),
    ensures
        find_policy_from(ps, id, i) is Some <==> exists|j: int| i <= j < ps.len() && #[trigger] ps[j].identifier == id,
        find_policy_from(ps, id, i) matches Some(j) ==> i <= j < ps.len() && ps[j].identifier == id,
    decreases ps.len() - i,
{
    if i < ps.len() {
        lemma_find_policy_from_lists(ps, id, i + 1);
        if ps[i].identifier != id {
            assert forall|j: int| i <= j < ps.len() && #[trigger] ps[j].identifier == id implies i + 1 <= j by {}
        }
    }
}

/// The first-match search finds a policy exactly when one is listed.
pub proof fn lemma_find_policy_lists(ps: Seq<InterceptPolicyView>, id: Seq<char>)
    ensures
        find_policy(ps, id) is Some <==> lists_identifier(ps, id),
        find_policy(ps, id) matches Some(j) ==> 0 <= j < ps.len() && ps[j].identifier == id,
{
    lemma_find_policy_from_lists(ps, id, 0);
}

proof fn lemma_trim_decimal_text(n: nat)
    ensures
        trim(decimal_text(n)) == decimal_text(n),
{
    lemma_decimal_text_value(n);
    let t = decimal_text(n);
    assert(!is_white_space(t[0]));
    assert(!is_white_space(t[t.len() - 1]));
    assert(trim_start(t) == t);
    assert(trim_end(t) == t);
}

/// Law: a policy written in the form for editing proposes that policy again,
/// when its slot and target are not blank, its operation names are clean
/// and it lasts at least a second: the slot and the target come back
/// trimmed, the duration in whole seconds, overlapping policies replaced.
pub proof fn lemma_edited_policy_proposes_itself(p: InterceptPolicyView)
    requires
        trim(p.session_slot).len() > 0,
        trim(p.target_key).len() > 0,
        p.operation_names.len() >= 1,
        forall|i: int| 0 <= i < p.operation_names.len() ==> is_clean_name(#[trigger] p.operation_names[i]),
        window_seconds(p.window) >= 1,
    ensures
        proposal_spec(form_of_policy(p)) == Ok::<InterceptPolicyProposalView, PolicyEditorError>(
            InterceptPolicyProposalView {
                session_slot: trim(p.session_slot),
                target_key: trim(p.target_key),
                operation_names: p.operation_names,
                duration_nanos: (window_seconds(p.window) * NANOS_PER_SECOND) as u64,
                expiry_action: p.expiry_action,
                priority: p.priority,
                overlap_mode: PolicyOverlapMode::ReplaceSamePriorityOverlap,
            },
        ),
{
    let f = form_of_policy(p);
    let span: nat = if p.window.expires_at >= p.window.starts_at {
        (p.window.expires_at - p.window.starts_at) as nat
    } else {
        0nat
    };
    let seconds = window_seconds(p.window);
    assert(seconds == span / 1_000_000_000);
    assert(seconds * 1_000_000_000 <= span) by (nonlinear_arith)
        requires
            seconds == span / 1_000_000_000,
    ;
    assert(span <= u64::MAX);
    lemma_trim_decimal_text(seconds);
    lemma_parse_decimal_roundtrip(seconds as u64);
    assert(duration_spec(f.duration_seconds) == Ok::<u64, PolicyEditorError>(
        (seconds * NANOS_PER_SECOND) as u64,
    ));
    lemma_trim_decimal_text(p.priority as nat);
    lemma_parse_decimal_roundtrip(p.priority);
    assert(priority_spec(f.priority) == Ok::<u64, PolicyEditorError>(p.priority));
    lemma_names_roundtrip(p.operation_names);
}

/// Law: picking a listed policy for editing and submitting the form proposes
/// that policy again, under the conditions of
/// `lemma_edited_policy_proposes_itself`.
pub proof fn lemma_selected_policy_proposes_itself(s: PolicyEditorStateView, id: Seq<char>)
    requires
        find_policy(s.policies, id) matches Some(i) && {
            let p = s.policies[i];
            &&& trim(p.session_slot).len() > 0
            &&& trim(p.target_key).len() > 0
            &&& p.operation_names.len() >= 1
            &&& forall|k: int| 0 <= k < p.operation_names.len() ==> is_clean_name(#[trigger] p.operation_names[k])
            &&& window_seconds(p.window) >= 1
        },
    ensures
        select_spec(s, id).selected_policy == Some(id),
        find_policy(s.policies, id) matches Some(i) && proposal_spec(select_spec(s, id).form)
            == Ok::<InterceptPolicyProposalView, PolicyEditorError>(
            InterceptPolicyProposalView {
                session_slot: trim(s.policies[i].session_slot),
                target_key: trim(s.policies[i].target_key),
                operation_names: s.policies[i].operation_names,
                duration_nanos: (window_seconds(s.policies[i].window) * NANOS_PER_SECOND) as u64,
                expiry_action: s.policies[i].expiry_action,
                priority: s.policies[i].priority,
                overlap_mode: PolicyOverlapMode::ReplaceSamePriorityOverlap,
            },
        ),
{
    let i = find_policy(s.policies, id)->0;
    lemma_edited_policy_proposes_itself(s.policies[i]);
}

/// No two policies share an identifier.
pub open spec fn identifiers_unique(ps: Seq<InterceptPolicyView>) -> bool {
    forall|i: int, j: int|
        0 <= i < j < ps.len() ==> #[trigger] ps[i].identifier != #[trigger] ps[j].identifier
}

proof fn lemma_without_identifier_facts(ps: Seq<InterceptPolicyView>, id: Seq<char>)
    ensures
        forall|k: int|
            0 <= k < without_identifier(ps, id).len() ==> (#[trigger] without_identifier(
                ps,
                id,
            )[k]).identifier != id && ps.contains(without_identifier(ps, id)[k]),
        identifiers_unique(ps) ==> identifiers_unique(without_identifier(ps, id)),
    decreases ps.len(),
{
    if ps.len() > 0 {
        let init = ps.drop_last();
        lemma_without_identifier_facts(init, id);
        let w = without_identifier(init, id);
        assert forall|k: int| 0 <= k < w.len() implies ps.contains(#[trigger] w[k]) by {
            let j = choose|j: int| 0 <= j < init.len() && init[j] == w[k];
            assert(ps[j] == init[j]);
        }
        if ps.last().identifier != id {
            let w2 = w.push(ps.last());
            assert forall|k: int| 0 <= k < w2.len() implies (#[trigger] w2[k]).identifier != id
                && ps.contains(w2[k]) by {
                if k < w.len() {
                    assert(w2[k] == w[k]);
                } else {
                    assert(ps[ps.len() - 1] == ps.last());
                }
            }
            if identifiers_unique(ps) {
                assert(identifiers_unique(init)) by {
                    assert forall|i: int, j: int| 0 <= i < j < init.len() implies #[trigger] init[i].identifier
                        != #[trigger] init[j].identifier by {
                        assert(init[i] == ps[i] && init[j] == ps[j]);
                    }
                }
                assert forall|i: int, j: int| 0 <= i < j < w2.len() implies #[trigger] w2[i].identifier
                    != #[trigger] w2[j].identifier by {
                    if j == w.len() {
                        let m = choose|m: int| 0 <= m < init.len() && init[m] == w[i];
                        assert(ps[m] == init[m]);
                        assert(ps[ps.len() - 1] == ps.last());
                    } else {
                        assert(w2[i] == w[i] && w2[j] == w[j]);
                    }
                }
            }
        } else {
            if identifiers_unique(ps) {
                assert forall|i: int, j: int| 0 <= i < j < init.len() implies #[trigger] init[i].identifier
                    != #[trigger] init[j].identifier by {
                    assert(init[i] == ps[i] && init[j] == ps[j]);
                }
            }
        }
    }
}

/// Law: the editor's policy list never comes to hold two policies with one
/// identifier from a reply, as long as a listing from the daemon holds none.
pub proof fn lemma_reply_keeps_identifiers_unique(s: PolicyEditorStateView, r: MentciReplyView)
    requires
        identifiers_unique(s.policies),
        r matches MentciReplyView::InterceptPoliciesListed(ps) ==> identifiers_unique(ps),
    ensures
        identifiers_unique(absorb_reply_spec(s, r).policies),
{
    match r {
        MentciReplyView::InterceptPolicyCreated(p) => lemma_upsert_unique(s.policies, p),
        MentciReplyView::InterceptPolicyReplaced(p) => lemma_upsert_unique(s.policies, p),
        MentciReplyView::InterceptPolicyCancelled(id) => lemma_without_identifier_facts(
            s.policies,
            id,
        ),
        _ => {},
    }
}

proof fn lemma_upsert_unique(ps: Seq<InterceptPolicyView>, p: InterceptPolicyView)
    requires
        identifiers_unique(ps),
    ensures
        identifiers_unique(upsert_spec(ps, p)),
{
    lemma_find_policy_lists(ps, p.identifier);
    let u = upsert_spec(ps, p);
    match find_policy(ps, p.identifier) {
        Some(k) => {
            assert forall|i: int, j: int| 0 <= i < j < u.len() implies #[trigger] u[i].identifier
                != #[trigger] u[j].identifier by {
                assert(u[i].identifier == ps[i].identifier);
                assert(u[j].identifier == ps[j].identifier);
            }
        },
        None => {
            assert forall|i: int, j: int| 0 <= i < j < u.len() implies #[trigger] u[i].identifier
                != #[trigger] u[j].identifier by {
                if j == ps.len() {
                    assert(u[i] == ps[i]);
                } else {
                    assert(u[i] == ps[i] && u[j] == ps[j]);
                }
            }
        },
    }
}

/// Law: after the daemon creates or replaces a policy the editor lists it and
/// selects it; after it cancels one, no policy with that identifier is left
/// and it is not selected; after a listing, the selection is kept only when
/// the listing holds it.
pub proof fn lemma_reply_selection(s: PolicyEditorStateView, r: MentciReplyView)
    ensures
        r matches MentciReplyView::InterceptPolicyCreated(p) ==> absorb_reply_spec(s, r).policies.contains(p)
            && absorb_reply_spec(s, r).selected_policy == Some(p.identifier),
        r matches MentciReplyView::InterceptPolicyReplaced(p) ==> absorb_reply_spec(s, r).policies.contains(p)
            && absorb_reply_spec(s, r).selected_policy == Some(p.identifier),
        r matches MentciReplyView::InterceptPolicyCancelled(id) ==> !lists_identifier(
            absorb_reply_spec(s, r).policies,
            id,
        ) && absorb_reply_spec(s, r).selected_policy != Some(id),
        r matches MentciReplyView::InterceptPoliciesListed(ps) ==> (absorb_reply_spec(
            s,
            r,
        ).selected_policy matches Some(id) ==> lists_identifier(ps, id)),
{
    match r {
        MentciReplyView::InterceptPolicyCreated(p) => lemma_upsert_contains(s.policies, p),
        MentciReplyView::InterceptPolicyReplaced(p) => lemma_upsert_contains(s.policies, p),
        MentciReplyView::InterceptPolicyCancelled(id) => {
            lemma_without_identifier_facts(s.policies, id);
            let w = without_identifier(s.policies, id);
            assert forall|k: int| 0 <= k < w.len() implies (#[trigger] w[k]).identifier != id by {}
        },
        _ => {},
    }
}

/// Law: a cancellation removes exactly the policies with the cancelled
/// identifier: the list left is the old list filtered on the identifier, in
/// order, so every other policy is still listed and the length drops by the
/// number of matches only.
pub proof fn lemma_cancel_removes_only_that_identifier(s: PolicyEditorStateView, id: Seq<char>)
    ensures
        absorb_reply_spec(s, MentciReplyView::InterceptPolicyCancelled(id)).policies
            == s.policies.filter(|p: InterceptPolicyView| p.identifier != id),
        forall|k: int|
            0 <= k < s.policies.len() && s.policies[k].identifier != id ==> absorb_reply_spec(
                s,
                MentciReplyView::InterceptPolicyCancelled(id),
            ).policies.contains(#[trigger] s.policies[k]),
        forall|q: InterceptPolicyView|
            #[trigger] absorb_reply_spec(s, MentciReplyView::InterceptPolicyCancelled(id)).policies.contains(q)
                ==> q.identifier != id && s.policies.contains(q),
{
    let pred = |p: InterceptPolicyView| p.identifier != id;
    lemma_without_identifier_is_filter(s.policies, id);
    let w = s.policies.filter(pred);
    assert forall|k: int| 0 <= k < s.policies.len() && s.policies[k].identifier != id implies w.contains(
        #[trigger] s.policies[k],
    ) by {
        s.policies.filter_lemma(pred);
        assert(pred(s.policies[k]));
    }
    assert forall|q: InterceptPolicyView| #[trigger] w.contains(q) implies q.identifier != id
        && s.policies.contains(q) by {
        s.policies.filter_lemma(pred);
        let j = choose|j: int| 0 <= j < w.len() && w[j] == q;
        assert(pred(w[j]));
        s.policies.lemma_filter_contains_rev(pred, q);
    }
}

proof fn lemma_without_identifier_is_filter(ps: Seq<InterceptPolicyView>, id: Seq<char>)
    ensures
        without_identifier(ps, id) == ps.filter(|p: InterceptPolicyView| p.identifier != id),
    decreases ps.len(),
{
    reveal_with_fuel(Seq::<InterceptPolicyView>::filter, 1);
    if ps.len() > 0 {
        lemma_without_identifier_is_filter(ps.drop_last(), id);
    }
}

/// Law: a listing that still holds the selected identifier keeps it
/// selected, and one that does not holds no selection.
pub proof fn lemma_listing_keeps_listed_selection(
    s: PolicyEditorStateView,
    ps: Seq<InterceptPolicyView>,
    id: Seq<char>,
)
    requires
        s.selected_policy == Some(id),
    ensures
        (exists|i: int| 0 <= i < ps.len() && ps[i].identifier == id) ==> absorb_reply_spec(
            s,
            MentciReplyView::InterceptPoliciesListed(ps),
        ).selected_policy == Some(id),
        (forall|i: int| 0 <= i < ps.len() ==> ps[i].identifier != id) ==> absorb_reply_spec(
            s,
            MentciReplyView::InterceptPoliciesListed(ps),
        ).selected_policy is None,
        absorb_reply_spec(s, MentciReplyView::InterceptPoliciesListed(ps)).policies == ps,
{
}

/// Law: the window's whole seconds are its length divided by a second,
/// rounded down, and a window that ends before it starts reports none.
pub proof fn lemma_window_seconds_floor(w: InterceptPolicyWindow)
    ensures
        w.expires_at >= w.starts_at ==> window_seconds(w) * 1_000_000_000 <= w.expires_at
            - w.starts_at < (window_seconds(w) + 1) * 1_000_000_000,
        w.expires_at < w.starts_at ==> window_seconds(w) == 0,
{
    if w.expires_at >= w.starts_at {
        let span: int = w.expires_at - w.starts_at;
        let q: int = span / 1_000_000_000;
        assert(q * 1_000_000_000 <= span < (q + 1) * 1_000_000_000) by (nonlinear_arith)
            requires
                q == span / 1_000_000_000,
                span >= 0,
        ;
    }
}

/// Law: a window of exactly `d` whole seconds, from any start, reports `d`.
pub proof fn lemma_exact_window_seconds(start: u64, d: nat)
    requires
        start + d * 1_000_000_000 <= u64::MAX,
    ensures
        window_seconds(
            InterceptPolicyWindow {
                starts_at: start,
                expires_at: (start + d * 1_000_000_000) as u64,
            },
        ) == d,
{
    let w = InterceptPolicyWindow { starts_at: start, expires_at: (start + d * 1_000_000_000) as u64 };
    assert(d * 1_000_000_000 >= 0) by (nonlinear_arith);
    lemma_window_seconds_floor(w);
    let q = window_seconds(w) as int;
    assert(q == d) by (nonlinear_arith)
        requires
            q * 1_000_000_000 <= d * 1_000_000_000 < (q + 1) * 1_000_000_000,
    ;
}

proof fn lemma_upsert_contains(ps: Seq<InterceptPolicyView>, p: InterceptPolicyView)
    ensures
        upsert_spec(ps, p).contains(p),
{
    lemma_find_policy_lists(ps, p.identifier);
    let u = upsert_spec(ps, p);
    match find_policy(ps, p.identifier) {
        Some(k) => assert(u[k] == p),
        None => assert(u[ps.len() as int] == p),
    }
}

} // verus!
