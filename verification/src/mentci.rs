//! The Mentci daemon's request and reply values, held as plain values: the
//! parts of them that this client builds, reads and names.

use vstd::prelude::*;

use crate::policy_editor::{
    InterceptPolicy, InterceptPolicyProposal, InterceptPolicyProposalView, InterceptPolicyView,
};
use crate::text::owned;

verus! {

/// The identifier of a question the daemon holds for approval.
#[derive(Clone, Debug, PartialEq, Eq, Hash)]
pub struct QuestionIdentifier {
    text: String,
}

impl View for QuestionIdentifier {
    type V = Seq<char>;

    closed spec fn view(&self) -> Seq<char> {
        self.text@
    }
}

impl QuestionIdentifier {
    pub fn new(text: &str) -> (identifier: Self)
        ensures
            identifier@ == text@,
    {
        QuestionIdentifier { text: owned(text) }
    }

    pub fn as_str(&self) -> (text: &str)
        ensures
            text@ == self@,
    {
        self.text.as_str()
    }

    /// A copy of this identifier.
    pub fn copy(&self) -> (identifier: Self)
        ensures
            identifier == *self,
    {
        QuestionIdentifier { text: self.text.clone() }
    }
}

/// The closed answers a human gives to a pending question.
#[derive(Clone, Copy, Debug, PartialEq, Eq, Structural)]
pub enum ApprovalDecision {
    ApproveSuggestedAnswer,
    Reject,
    Defer,
}

/// Where a pending question came from.
#[derive(Clone, Copy, Debug, PartialEq, Eq, Structural)]
pub enum ApprovalSource {
    CriomeEscalation,
    AgentQuestion,
    LocalSystemPrompt,
}

/// The access the daemon has to criome, as mirrored to the client.
#[derive(Clone, Copy, Debug, PartialEq, Eq, Structural)]
pub enum CriomeAccess {
    ReadWrite,
    ReadOnly,
}

/// The requests this client sends that the policy editor builds.
#[derive(Clone, Debug, PartialEq, Eq)]
pub enum MentciRequest {
    ListInterceptPolicies,
    CreateInterceptPolicy(InterceptPolicyProposal),
    ReplaceInterceptPolicy(InterceptPolicyProposal),
    CancelInterceptPolicy(String),
}

pub enum MentciRequestView {
    ListInterceptPolicies,
    CreateInterceptPolicy(InterceptPolicyProposalView),
    ReplaceInterceptPolicy(InterceptPolicyProposalView),
    CancelInterceptPolicy(Seq<char>),
}

impl View for MentciRequest {
    type V = MentciRequestView;

    open spec fn view(&self) -> MentciRequestView {
        match self {
            MentciRequest::ListInterceptPolicies => MentciRequestView::ListInterceptPolicies,
            MentciRequest::CreateInterceptPolicy(p) => MentciRequestView::CreateInterceptPolicy(p@),
            MentciRequest::ReplaceInterceptPolicy(p) => MentciRequestView::ReplaceInterceptPolicy(
                p@,
            ),
            MentciRequest::CancelInterceptPolicy(id) => MentciRequestView::CancelInterceptPolicy(
                id@,
            ),
        }
    }
}

/// The daemon's replies. The variants the client only names carry nothing
/// here; the policy variants carry what the policy editor reads.
#[derive(Clone, Debug, PartialEq, Eq)]
pub enum MentciReply {
    QuestionPresented,
    UpdateAccepted,
    InterfaceObservationOpened,
    VerdictAccepted,
    AnswerProposalAdmitted,
    InterfaceObservationRetracted,
    Rejection,
    InterceptPoliciesListed(Vec<InterceptPolicy>),
    InterceptPolicyCreated(InterceptPolicy),
    InterceptPolicyReplaced(InterceptPolicy),
    InterceptPolicyCancelled(String),
}

pub enum MentciReplyView {
    QuestionPresented,
    UpdateAccepted,
    InterfaceObservationOpened,
    VerdictAccepted,
    AnswerProposalAdmitted,
    InterfaceObservationRetracted,
    Rejection,
    InterceptPoliciesListed(Seq<InterceptPolicyView>),
    InterceptPolicyCreated(InterceptPolicyView),
    InterceptPolicyReplaced(InterceptPolicyView),
    InterceptPolicyCancelled(Seq<char>),
}

/// The views of a sequence of policies.
pub open spec fn policies_view(v: Seq<InterceptPolicy>) -> Seq<InterceptPolicyView> {
    v.map_values(|p: InterceptPolicy| p@)
}

impl View for MentciReply {
    type V = MentciReplyView;

    open spec fn view(&self) -> MentciReplyView {
        match self {
            MentciReply::QuestionPresented => MentciReplyView::QuestionPresented,
            MentciReply::UpdateAccepted => MentciReplyView::UpdateAccepted,
            MentciReply::InterfaceObservationOpened => MentciReplyView::InterfaceObservationOpened,
            MentciReply::VerdictAccepted => MentciReplyView::VerdictAccepted,
            MentciReply::AnswerProposalAdmitted => MentciReplyView::AnswerProposalAdmitted,
            MentciReply::InterfaceObservationRetracted => MentciReplyView::InterfaceObservationRetracted,
            MentciReply::Rejection => MentciReplyView::Rejection,
            MentciReply::InterceptPoliciesListed(ps) => MentciReplyView::InterceptPoliciesListed(
                policies_view(ps@),
            ),
            MentciReply::InterceptPolicyCreated(p) => MentciReplyView::InterceptPolicyCreated(p@),
            MentciReply::InterceptPolicyReplaced(p) => MentciReplyView::InterceptPolicyReplaced(p@),
            MentciReply::InterceptPolicyCancelled(id) => MentciReplyView::InterceptPolicyCancelled(
                id@,
            ),
        }
    }
}

} // verus!
