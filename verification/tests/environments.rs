use codewen::environments::resolve_request_cwd;
use codewen::environments::resolve_runtime_workspace_roots;
use codewen::environments::resolve_turn_environment_selections;
use codewen::environments::ClientPath;
use codewen::environments::EnvironmentSelectionError;
use codewen::environments::TurnEnvironmentParams;
use codewen::environments::TurnEnvironmentSelection;

fn abs(p: &str) -> ClientPath {
    ClientPath { raw: p.to_string(), inferred: Some(format!("file://{p}")) }
}

fn rel(p: &str) -> ClientPath {
    ClientPath { raw: p.to_string(), inferred: None }
}

fn env(id: &str, cwd: ClientPath, roots: Option<Vec<ClientPath>>) -> TurnEnvironmentParams {
    TurnEnvironmentParams { environment_id: id.to_string(), cwd, runtime_workspace_roots: roots }
}

fn accept(_: &Vec<TurnEnvironmentSelection>) -> Result<(), String> {
    Ok(())
}

fn message<E>(err: EnvironmentSelectionError<E>) -> String {
    match err {
        EnvironmentSelectionError::InvalidRequest(e) => e.message,
        EnvironmentSelectionError::Rejected(_) => panic!("expected an invalid request"),
    }
}

#[test]
fn runtime_workspace_roots_keep_first_occurrences() {
    let roots = vec!["/a".to_string(), "/b".to_string(), "/a".to_string(), "/c".to_string(), "/b".to_string()];
    let once = resolve_runtime_workspace_roots(roots);
    assert_eq!(once, vec!["/a", "/b", "/c"]);
    assert_eq!(resolve_runtime_workspace_roots(once.clone()), once);
    assert!(resolve_runtime_workspace_roots(Vec::new()).is_empty());
}

#[test]
fn no_environments_resolve_to_none() {
    assert!(matches!(resolve_turn_environment_selections(None, accept), Ok(None)));
}

#[test]
fn cwd_is_the_only_root_when_none_are_given() {
    let sels = resolve_turn_environment_selections(Some(vec![env("local", abs("/w"), None)]), accept)
        .ok()
        .flatten()
        .expect("selections");
    assert_eq!(sels.len(), 1);
    assert_eq!(sels[0].environment_id, "local");
    assert_eq!(sels[0].cwd, "file:///w");
    assert_eq!(sels[0].workspace_roots, vec!["file:///w"]);
}

#[test]
fn given_roots_are_resolved_and_deduplicated() {
    let sels = resolve_turn_environment_selections(
        Some(vec![
            env("a", abs("/w"), Some(vec![abs("/r1"), abs("/r2"), abs("/r1")])),
            env("b", abs("/v"), Some(vec![])),
        ]),
        accept,
    )
    .ok()
    .flatten()
    .expect("selections");
    assert_eq!(sels[0].workspace_roots, vec!["file:///r1", "file:///r2"]);
    assert!(sels[1].workspace_roots.is_empty());
}

#[test]
fn relative_cwd_is_an_invalid_request() {
    let err = resolve_turn_environment_selections(
        Some(vec![env("a", abs("/w"), None), env("remote", rel("w"), Some(vec![rel("x")]))]),
        accept,
    )
    .err()
    .expect("error");
    assert_eq!(
        message(err),
        "invalid cwd for environment `remote`: path `w` does not use absolute POSIX or Windows path syntax"
    );
}

#[test]
fn first_relative_root_is_reported() {
    let err = resolve_turn_environment_selections(
        Some(vec![env("a", abs("/w"), Some(vec![abs("/ok"), rel("r1"), rel("r2")]))]),
        accept,
    )
    .err()
    .expect("error");
    assert_eq!(
        message(err),
        "invalid runtime workspace root for environment `a`: path `r1` does not use absolute POSIX or Windows path syntax"
    );
}

#[test]
fn validator_refusal_is_returned() {
    let refuse = |sels: &Vec<TurnEnvironmentSelection>| -> Result<(), String> {
        Err(format!("unknown environment {}", sels[0].environment_id))
    };
    match resolve_turn_environment_selections(Some(vec![env("x", abs("/w"), None)]), refuse) {
        Err(EnvironmentSelectionError::Rejected(e)) => assert_eq!(e, "unknown environment x"),
        _ => panic!("expected a refusal"),
    }
}

#[test]
fn request_cwd_resolution() {
    assert!(matches!(resolve_request_cwd(None), Ok(None)));
    assert_eq!(
        resolve_request_cwd(Some(Ok("/abs/dir".to_string()))).ok().flatten(),
        Some("/abs/dir".to_string())
    );
    let err = resolve_request_cwd(Some(Err("No such file".to_string()))).err().expect("error");
    assert_eq!(err.message, "invalid cwd: No such file");
}
