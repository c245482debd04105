use kodex::cloud_config::{needs_cloud_config_bundle, ManagedRequirementsMode};
use kodex::collaboration::{CollaborationModeMessages, MessageSource, ResolvedCollaborationModeMessages};
use kodex::message_board::NotificationDelivery;
use kodex::runtime_paths::{ExecServerRuntimePaths, RuntimePathsError};
use kodex::sandbox_selection::{select_sandbox, windows_sandbox_request, SandboxRequest, WindowsSandboxSelection};
use kodex::shell_snapshot::{posix_env_path_expansion_function, SnapshotStartup};
use kodex::test_support::{
    responses_metadata, with_parent_turn, EmptyUserInstructionsProvider, KodexResponsesRequestKind, TestKodexResponsesRequestKind,
};
use kodex::windows_sandbox::{SandboxType, WindowsSandboxLevel};

#[test]
fn sandbox_selection_maps_levels() {
    assert_eq!(windows_sandbox_request(WindowsSandboxSelection::Mxc), SandboxRequest::Mxc);
    assert_eq!(
        windows_sandbox_request(WindowsSandboxSelection::Disabled),
        SandboxRequest::Select { level: WindowsSandboxLevel::Disabled, windows_sandbox_type: SandboxType::NoSandbox }
    );
    assert_eq!(
        windows_sandbox_request(WindowsSandboxSelection::Elevated),
        SandboxRequest::Select { level: WindowsSandboxLevel::Elevated, windows_sandbox_type: SandboxType::WindowsRestrictedToken }
    );
    assert_eq!(select_sandbox(SandboxRequest::Mxc, SandboxType::NoSandbox), (SandboxType::WindowsMxc, None));
    let req = windows_sandbox_request(WindowsSandboxSelection::RestrictedToken);
    assert_eq!(
        select_sandbox(req, SandboxType::WindowsRestrictedToken),
        (SandboxType::WindowsRestrictedToken, Some(WindowsSandboxLevel::RestrictedToken))
    );
}

#[test]
fn responses_metadata_follows_the_request_kind() {
    let m = responses_metadata("inst", "sess", "thr", Some("turn-1"), "win".into(), Some("hdr".into()), Some("review".into()), None, TestKodexResponsesRequestKind::Turn);
    assert_eq!(m.request_kind, Some(KodexResponsesRequestKind::Turn));
    assert_eq!(m.turn_id.as_deref(), Some("turn-1"));
    assert_eq!(m.subagent_kind.as_deref(), Some("review"));
    assert_eq!(m.subagent_header.as_deref(), Some("hdr"));
    let ws = responses_metadata("inst", "sess", "thr", Some("turn-1"), "win".into(), Some("hdr".into()), Some("review".into()), None, TestKodexResponsesRequestKind::WebsocketConnection);
    assert_eq!(ws.request_kind, None);
    assert_eq!(ws.turn_id, None);
    assert_eq!(ws.subagent_kind, None);
    assert_eq!(ws.subagent_header.as_deref(), Some("hdr"));
    let parented = with_parent_turn(m, "parent-7");
    assert_eq!(parented.parent_turn_id.as_deref(), Some("parent-7"));
    assert_eq!(parented.installation_id, "inst");
    assert_eq!(parented.turn_id.as_deref(), Some("turn-1"));
    assert!(EmptyUserInstructionsProvider.load_user_instructions().instructions.is_none());
}

#[test]
fn shell_snapshot_helper_is_the_posix_function() {
    let f = posix_env_path_expansion_function();
    assert!(f.starts_with("__kodex_snapshot_expand_env() ("));
    assert!(f.ends_with("printf '%s' \"$__kodex_env_file\"\n)"));
    assert!(matches!(SnapshotStartup::Interactive, SnapshotStartup::Interactive));
}

#[test]
fn collaboration_messages_prefer_catalog_overrides() {
    let overrides = CollaborationModeMessages { default: None, plan: Some("custom plan".into()) };
    let r = ResolvedCollaborationModeMessages::new(Some(&overrides), "bundled default", "bundled plan");
    assert_eq!((r.default.text, r.default.source), ("bundled default", MessageSource::Bundled));
    assert_eq!((r.plan.text, r.plan.source), ("custom plan", MessageSource::Catalog));
    let r = ResolvedCollaborationModeMessages::new(None, "d", "p");
    assert_eq!((r.default.text, r.plan.text), ("d", "p"));
}

#[test]
fn runtime_paths_must_be_absolute() {
    assert!(matches!(ExecServerRuntimePaths::from_optional_paths(None, None), Err(RuntimePathsError::NotConfigured)));
    let p = ExecServerRuntimePaths::from_optional_paths(Some("/usr/bin/kodex".into()), Some("/usr/bin/kodex-linux-sandbox".into())).ok().unwrap();
    assert_eq!(p.kodex_self_exe, "/usr/bin/kodex");
    assert!(matches!(ExecServerRuntimePaths::new("kodex".into(), None), Err(RuntimePathsError::NotAbsolute(p)) if p == "kodex"));
    assert!(matches!(ExecServerRuntimePaths::new("/bin/kodex".into(), Some("rel".into())), Err(RuntimePathsError::NotAbsolute(p)) if p == "rel"));
}

#[test]
fn cloud_bundle_only_with_profile_and_managed_requirements() {
    assert!(needs_cloud_config_bundle(true, ManagedRequirementsMode::Include));
    assert!(!needs_cloud_config_bundle(false, ManagedRequirementsMode::Include));
    assert!(!needs_cloud_config_bundle(true, ManagedRequirementsMode::Exclude));
    assert_ne!(NotificationDelivery::Accepted, NotificationDelivery::SkippedInactive);
}

use kodex::error::KodexErr;
use kodex::message_board::check_board_identity;

#[test]
fn boards_must_belong_to_the_session_tree() {
    assert!(matches!(check_board_identity(7, None), Ok(false)));
    assert!(matches!(check_board_identity(7, Some(7)), Ok(true)));
    assert!(matches!(
        check_board_identity(7, Some(8)),
        Err(KodexErr::InvalidRequest(m)) if m == "message-board factory returned another tree"
    ));
}

use kodex::message_board::{board_binding, board_open_request, thread_start_binding, BoardBinding, BoardOpen, BOARD_INIT_WARNING};

#[test]
fn board_binds_only_a_board_of_the_same_tree() {
    assert!(matches!(board_open_request(Some(7), Some(9)), BoardOpen::Open { tree: 7, caller: 9 }));
    assert!(matches!(board_open_request(None, Some(9)), BoardOpen::Failed(KodexErr::InvalidRequest(m)) if m == "invalid board session identity"));
    assert!(matches!(board_open_request(Some(7), None), BoardOpen::Failed(KodexErr::InvalidRequest(m)) if m == "invalid board caller identity"));
    assert!(matches!(
        board_binding(7, 9, Ok(Some(7)), Some("board".into()), Some("/root/worker".into())),
        BoardBinding::Bind { caller: 9, namespace: Some(n), agent_path: Some(p) } if n == "board" && p == "/root/worker"
    ));
    assert!(matches!(board_binding(7, 9, Ok(Some(8)), None, None), BoardBinding::Warn));
    assert!(matches!(board_binding(7, 9, Ok(None), None, None), BoardBinding::Unbound));
    assert!(matches!(board_binding(7, 9, Err(KodexErr::InternalAgentDied), None, None), BoardBinding::Warn));
    assert_eq!(BOARD_INIT_WARNING, "Agent message-board initialization failed; its tools are unavailable for this runtime.");
}

#[test]
fn thread_start_warns_on_every_failure_and_binds_with_the_namespace() {
    assert!(matches!(thread_start_binding(None, Some(9), None, None, None), BoardBinding::Warn));
    assert!(matches!(thread_start_binding(Some(7), None, None, None, None), BoardBinding::Warn));
    assert!(matches!(thread_start_binding(Some(7), Some(9), Some(Err(KodexErr::InternalAgentDied)), None, None), BoardBinding::Warn));
    assert!(matches!(thread_start_binding(Some(7), Some(9), Some(Ok(Some(8))), None, None), BoardBinding::Warn));
    assert!(matches!(thread_start_binding(Some(7), Some(9), Some(Ok(None)), None, None), BoardBinding::Unbound));
    assert!(matches!(
        thread_start_binding(Some(7), Some(9), Some(Ok(Some(7))), Some("agents".into()), None),
        BoardBinding::Bind { caller: 9, namespace: Some(n), agent_path: None } if n == "agents"
    ));
}
