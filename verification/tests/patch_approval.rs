use codewen::patch_approval::build_patch_approval_request;
use codewen::patch_approval::patch_approval_op;
use codewen::patch_approval::serialize_failure_message;
use codewen::patch_approval::ApprovalDecision;
use codewen::patch_approval::ApprovalReply;
use codewen::patch_approval::ElicitationSchema;
use codewen::patch_approval::ELICITATION_CREATE_METHOD;

#[test]
fn request_with_reason_puts_it_before_the_question() {
    let (params, approval_id) = build_patch_approval_request(
        "call-1".to_string(),
        Some("needs write access".to_string()),
        Some("/repo"),
        vec![("a.txt", "add")],
        "tool-1".to_string(),
        "event-1".to_string(),
        42u32,
    );
    assert_eq!(approval_id, "call-1");
    assert_eq!(params.message, "needs write access\nAllow Codex to apply proposed code changes?");
    assert_eq!(params.requested_schema, ElicitationSchema::EmptyObject);
    assert_eq!(params.thread_id, 42);
    assert_eq!(params.codewen_elicitation, "patch-approval");
    assert_eq!(params.codewen_mcp_tool_call_id, "tool-1");
    assert_eq!(params.codewen_event_id, "event-1");
    assert_eq!(params.codewen_call_id, "call-1");
    assert_eq!(params.codewen_reason.as_deref(), Some("needs write access"));
    assert_eq!(params.codewen_grant_root, Some("/repo"));
    assert_eq!(params.codewen_changes, vec![("a.txt", "add")]);
    assert_eq!(ELICITATION_CREATE_METHOD, "elicitation/create");
}

#[test]
fn request_without_reason_has_only_the_question() {
    let (params, _) = build_patch_approval_request::<(), (), ()>(
        "c".to_string(),
        None,
        None,
        (),
        "t".to_string(),
        "e".to_string(),
        (),
    );
    assert_eq!(params.message, "Allow Codex to apply proposed code changes?");
    assert!(params.codewen_reason.is_none());
    assert!(params.codewen_grant_root.is_none());
}

#[test]
fn serialize_failure_message_names_the_params() {
    assert_eq!(
        serialize_failure_message("key must be a string"),
        "Failed to serialize PatchApprovalElicitRequestParams: key must be a string"
    );
}

#[test]
fn replies_become_submissions_for_the_approval_id() {
    let op = patch_approval_op("call-1".to_string(), ApprovalReply::Decision("approved"));
    assert_eq!(op.id, "call-1");
    assert!(matches!(op.decision, ApprovalDecision::Reviewed("approved")));

    for reply in [ApprovalReply::<&str>::Malformed, ApprovalReply::RequestFailed] {
        let op = patch_approval_op("call-2".to_string(), reply);
        assert_eq!(op.id, "call-2");
        match op.decision {
            ApprovalDecision::Denied(reason) => assert_eq!(reason, "approval request failed"),
            ApprovalDecision::Reviewed(_) => panic!("expected a denial"),
        }
    }
}
