use kodex::history_notes::{history_notes_enabled, thread_hint_outcome, ThreadHintStatus};
use kodex::memories::{memory_pipeline_configs, pipeline_memory_root, memory_root, memory_startup_versions, MemoryStartupConfig, MemoryVersion};

fn config(ephemeral: bool, enabled: bool, dual_write: bool) -> MemoryStartupConfig {
    MemoryStartupConfig { ephemeral, memory_tool_enabled: enabled, dual_write, version: MemoryVersion::V2 }
}

#[test]
fn memory_pipelines_start_for_eligible_root_sessions() {
    assert_eq!(memory_startup_versions(&config(false, true, false), false), vec![MemoryVersion::V2]);
    assert_eq!(memory_startup_versions(&config(false, true, true), false), vec![MemoryVersion::V1, MemoryVersion::V2]);
    assert!(memory_startup_versions(&config(true, true, true), false).is_empty());
    assert!(memory_startup_versions(&config(false, false, true), false).is_empty());
    assert!(memory_startup_versions(&config(false, true, true), true).is_empty());
    assert_eq!(memory_root("/home/me/.kodex"), "/home/me/.kodex/memories");
}

#[test]
fn each_memory_pipeline_runs_with_its_own_version() {
    let configs = memory_pipeline_configs(&config(false, true, true), false);
    assert_eq!(configs.len(), 2);
    assert_eq!(configs[0].version, MemoryVersion::V1);
    assert_eq!(configs[1].version, MemoryVersion::V2);
    assert!(configs.iter().all(|c| c.dual_write && c.memory_tool_enabled && !c.ephemeral));
    assert!(memory_pipeline_configs(&config(true, true, true), false).is_empty());
    assert_eq!(pipeline_memory_root("/home/me/.kodex", "memories_v2"), "/home/me/.kodex/memories_v2");
}

#[test]
fn history_notes_need_budget_provider_and_backend() {
    assert!(history_notes_enabled(Some(true), true, true));
    assert!(!history_notes_enabled(Some(false), true, true));
    assert!(!history_notes_enabled(None, true, true));
    assert!(!history_notes_enabled(Some(true), false, true));
    assert!(!history_notes_enabled(Some(true), true, false));
}

#[test]
fn thread_hints_are_bounded_and_typed() {
    let (status, text) = thread_hint_outcome(Some(r#"{"text":"remember the plan"}"#));
    assert_eq!(status, ThreadHintStatus::Succeeded);
    assert_eq!(text.as_deref(), Some("remember the plan"));

    assert_eq!(thread_hint_outcome(Some(r#"{"text":""}"#)), (ThreadHintStatus::Succeeded, None));
    assert_eq!(thread_hint_outcome(Some(r#"{"text":7}"#)), (ThreadHintStatus::Failed, None));
    assert_eq!(thread_hint_outcome(Some("not json")), (ThreadHintStatus::Failed, None));
    assert_eq!(thread_hint_outcome(None), (ThreadHintStatus::Failed, None));

    let exactly = format!(r#"{{"text":"{}"}}"#, "é".repeat(2000));
    assert_eq!(thread_hint_outcome(Some(&exactly)).0, ThreadHintStatus::Succeeded);
    let over = format!(r#"{{"text":"{}x"}}"#, "é".repeat(2000));
    assert_eq!(thread_hint_outcome(Some(&over)), (ThreadHintStatus::Failed, None));
}
