use kodex::workspace_roots::{environment_workspace_roots, resolve_runtime_workspace_roots};

fn strings(v: &[&str]) -> Vec<String> {
    v.iter().map(|s| s.to_string()).collect()
}

#[test]
fn roots_are_deduplicated_in_first_occurrence_order() {
    let roots = resolve_runtime_workspace_roots(strings(&["/b", "/a", "/b", "/c", "/a"]));
    assert_eq!(roots, strings(&["/b", "/a", "/c"]));
    assert_eq!(resolve_runtime_workspace_roots(roots.clone()), roots);
    assert!(resolve_runtime_workspace_roots(vec![]).is_empty());
}

#[test]
fn environments_without_roots_use_their_cwd() {
    assert_eq!(environment_workspace_roots("/w".into(), None), strings(&["/w"]));
    assert_eq!(environment_workspace_roots("/w".into(), Some(strings(&["/x", "/x"]))), strings(&["/x"]));
    assert!(environment_workspace_roots("/w".into(), Some(vec![])).is_empty());
}

use kodex::error::KodexErr;
use kodex::workspace_roots::{
    environment_selection_error, finish_environment_selections, resolve_turn_environment_selections, PathParam, RequestError,
    TurnEnvironmentParams,
};

fn path(text: &str, absolute: bool) -> PathParam {
    PathParam { text: text.to_string(), parsed: if absolute { Some(text.to_string()) } else { None } }
}

fn env(id: &str, cwd: PathParam, roots: Option<Vec<PathParam>>) -> TurnEnvironmentParams {
    TurnEnvironmentParams { environment_id: id.to_string(), cwd, runtime_workspace_roots: roots }
}

#[test]
fn environment_selections_resolve_roots_and_report_the_first_bad_path() {
    assert!(matches!(resolve_turn_environment_selections(None), Ok(None)));
    let selections = resolve_turn_environment_selections(Some(vec![
        env("local", path("/work", true), None),
        env("remote", path("/srv", true), Some(vec![path("/a", true), path("/b", true), path("/a", true)])),
    ]))
    .unwrap()
    .unwrap();
    assert_eq!(selections.len(), 2);
    assert_eq!((selections[0].environment_id.as_str(), selections[0].cwd.as_str()), ("local", "/work"));
    assert_eq!(selections[0].workspace_roots, strings(&["/work"]));
    assert_eq!(selections[1].workspace_roots, strings(&["/a", "/b"]));

    let err = resolve_turn_environment_selections(Some(vec![
        env("ok", path("/work", true), None),
        env("bad", path("relative/dir", false), None),
        env("worse", path("also/relative", false), None),
    ]))
    .err()
    .unwrap();
    assert_eq!(
        err,
        "invalid cwd for environment `bad`: path `relative/dir` does not use absolute POSIX or Windows path syntax"
    );
    let err = resolve_turn_environment_selections(Some(vec![env(
        "e",
        path("/work", true),
        Some(vec![path("/a", true), path("rel", false), path("x", false)]),
    )]))
    .err()
    .unwrap();
    assert_eq!(
        err,
        "invalid runtime workspace root for environment `e`: path `rel` does not use absolute POSIX or Windows path syntax"
    );
}

#[test]
fn failed_validation_is_answered_by_its_kind() {
    let resolved = resolve_turn_environment_selections(Some(vec![env("local", path("/work", true), None)]));
    let r = finish_environment_selections(resolved, Some(Err((KodexErr::InvalidRequest("unknown environment `local`".into()), "ignored".into()))));
    assert!(matches!(r, Err(RequestError::InvalidRequest(m)) if m == "unknown environment `local`"));
    let resolved = resolve_turn_environment_selections(Some(vec![env("local", path("/work", true), None)]));
    let r = finish_environment_selections(resolved, Some(Err((KodexErr::InternalAgentDied, "agent died".into()))));
    assert!(matches!(r, Err(RequestError::Internal(m)) if m == "failed to validate environment selections: agent died"));
    let resolved = resolve_turn_environment_selections(Some(vec![env("local", path("/work", true), None)]));
    assert!(matches!(finish_environment_selections(resolved, Some(Ok(()))), Ok(Some(v)) if v.len() == 1));
    let resolved = resolve_turn_environment_selections(Some(vec![env("bad", path("rel", false), None)]));
    assert!(matches!(finish_environment_selections(resolved, None), Err(RequestError::InvalidRequest(m)) if m.starts_with("invalid cwd")));
    assert!(matches!(finish_environment_selections(Ok(None), None), Ok(None)));
    assert!(matches!(environment_selection_error(KodexErr::QuotaExceeded, "quota"), RequestError::Internal(_)));
}
