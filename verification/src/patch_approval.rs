//! Patch approval through an MCP elicitation: the request that asks the
//! client to approve a patch, and the decision submitted once the client
//! answers (or fails to).
//!
//! The thread id, grant-root path and file changes are carried through
//! unchanged, so they are type parameters here.

use vstd::prelude::*;

verus! {

/// Question shown in every patch-approval elicitation.
pub const PATCH_APPROVAL_QUESTION: &'static str = "Allow Codex to apply proposed code changes?";

/// Kind tag of the elicitation.
pub const PATCH_APPROVAL_ELICITATION: &'static str = "patch-approval";

/// MCP method that carries the elicitation.
pub const ELICITATION_CREATE_METHOD: &'static str = "elicitation/create";

/// Reason given when no usable answer arrived.
pub const APPROVAL_REQUEST_FAILED: &'static str = "approval request failed";

/// Schema of the answer the elicitation asks for.
#[derive(PartialEq, Eq, Structural, Clone, Copy, Debug)]
pub enum ElicitationSchema {
    /// `{"type":"object","properties":{}}`: an object with no properties.
    EmptyObject,
}

/// The parameters of a patch-approval elicitation.
pub struct PatchApprovalElicitRequestParams<T, P, C> {
    pub message: String,
    pub requested_schema: ElicitationSchema,
    pub thread_id: T,
    pub codewen_elicitation: String,
    pub codewen_mcp_tool_call_id: String,
    pub codewen_event_id: String,
    pub codewen_call_id: String,
    pub codewen_reason: Option<String>,
    pub codewen_grant_root: Option<P>,
    pub codewen_changes: C,
}

/// Views of an optional string.
pub open spec fn opt_view(s: Option<String>) -> Option<Seq<char>> {
    match s {
        Some(t) => Some(t@),
        None => None,
    }
}

/// The message of the elicitation: the reason, when there is one, on its
/// own line before the question.
pub open spec fn spec_patch_approval_message(reason: Option<Seq<char>>) -> Seq<char> {
    match reason {
        Some(r) => r + "\n"@ + PATCH_APPROVAL_QUESTION@,
        None => PATCH_APPROVAL_QUESTION@,
    }
}

/// Builds the message of the elicitation.
pub fn patch_approval_message(reason: &Option<String>) -> (res: String)
    ensures
        res@ == spec_patch_approval_message(opt_view(*reason)),
{
    match reason {
        Some(r) => {
            let mut message = r.clone();
            message.append("\n");
            message.append(PATCH_APPROVAL_QUESTION);
            message
        },
        None => String::from_str(PATCH_APPROVAL_QUESTION),
    }
}

/// The message, over every reason: without a reason it is exactly the
/// question; with a reason it is the whole reason, a newline, then the
/// question, so the reason is a prefix of the message and the message is
/// one character longer than reason and question together.
pub proof fn lemma_patch_approval_message(reason: Option<Seq<char>>)
    ensures
        ({
            let message = spec_patch_approval_message(reason);
            let question = "Allow Codex to apply proposed code changes?"@;
            &&& reason is None ==> message == question
            &&& reason matches Some(r) ==> {
                &&& message.len() == r.len() + 1 + question.len()
                &&& message.subrange(0, r.len() as int) == r
                &&& message[r.len() as int] == '\n'
                &&& message.skip(r.len() as int + 1) == question
            }
        }),
{
    reveal_strlit("\n");
    if let Some(r) = reason {
        let message = spec_patch_approval_message(reason);
        assert(message.subrange(0, r.len() as int) =~= r);
        assert(message.skip(r.len() as int + 1) =~= PATCH_APPROVAL_QUESTION@);
    }
}

/// Builds the elicitation that asks for approval of a patch, and returns it
/// with the approval id under which the answer will be submitted (the call
/// id). Every given value lands in its field unchanged.
pub fn build_patch_approval_request<T, P, C>(
    call_id: String,
    reason: Option<String>,
    grant_root: Option<P>,
    changes: C,
    tool_call_id: String,
    event_id: String,
    thread_id: T,
) -> (res: (PatchApprovalElicitRequestParams<T, P, C>, String))
    ensures
        res.1@ == call_id@,
        res.0.message@ == spec_patch_approval_message(opt_view(reason)),
        res.0.requested_schema == ElicitationSchema::EmptyObject,
        res.0.thread_id == thread_id,
        res.0.codewen_elicitation@ == PATCH_APPROVAL_ELICITATION@,
        res.0.codewen_mcp_tool_call_id@ == tool_call_id@,
        res.0.codewen_event_id@ == event_id@,
        res.0.codewen_call_id@ == call_id@,
        opt_view(res.0.codewen_reason) == opt_view(reason),
        res.0.codewen_grant_root == grant_root,
        res.0.codewen_changes == changes,
{
    let approval_id = call_id.clone();
    let message = patch_approval_message(&reason);
    let params = PatchApprovalElicitRequestParams {
        message,
        requested_schema: ElicitationSchema::EmptyObject,
        thread_id,
        codewen_elicitation: String::from_str(PATCH_APPROVAL_ELICITATION),
        codewen_mcp_tool_call_id: tool_call_id,
        codewen_event_id: event_id,
        codewen_call_id: call_id,
        codewen_reason: reason,
        codewen_grant_root: grant_root,
        codewen_changes: changes,
    };
    (params, approval_id)
}

/// Message of the "invalid params" error sent when the elicitation cannot
/// be serialized; `err` is the serializer's error text.
pub fn serialize_failure_message(err: &str) -> (res: String)
    ensures
        res@ == "Failed to serialize PatchApprovalElicitRequestParams: "@ + err@,
{
    let mut message = String::from_str("Failed to serialize PatchApprovalElicitRequestParams: ");
    message.append(err);
    message
}

/// What came back for an elicitation.
pub enum ApprovalReply<D> {
    /// The answer, decoded to a review decision.
    Decision(D),
    /// An answer that does not decode to a patch-approval response.
    Malformed,
    /// No answer: the request failed.
    RequestFailed,
}

/// The decision submitted for a patch.
pub enum ApprovalDecision<D> {
    /// The client's own decision.
    Reviewed(D),
    /// A denial, with its reason.
    Denied(String),
}

/// The patch-approval operation submitted to the thread.
pub struct PatchApprovalOp<D> {
    pub id: String,
    pub decision: ApprovalDecision<D>,
}

/// Turns the reply into the operation to submit: the client's decision when
/// one arrived, and a denial "approval request failed" when the request
/// failed or the answer did not decode. The operation always carries the
/// approval id.
pub fn patch_approval_op<D>(approval_id: String, reply: ApprovalReply<D>) -> (res: PatchApprovalOp<D>)
    ensures
        res.id@ == approval_id@,
        reply matches ApprovalReply::Decision(d) ==> res.decision == ApprovalDecision::Reviewed(d),
        !(reply is Decision) ==> (res.decision matches ApprovalDecision::Denied(r) && r@
            == APPROVAL_REQUEST_FAILED@),
{
    let decision = match reply {
        ApprovalReply::Decision(d) => ApprovalDecision::Reviewed(d),
        ApprovalReply::Malformed => ApprovalDecision::Denied(String::from_str(APPROVAL_REQUEST_FAILED)),
        ApprovalReply::RequestFailed => ApprovalDecision::Denied(
            String::from_str(APPROVAL_REQUEST_FAILED),
        ),
    };
    PatchApprovalOp { id: approval_id, decision }
}

} // verus!
