use kodex::windows_sandbox::{
    legacy_windows_sandbox_mode, legacy_windows_sandbox_mode_from_entries, local_binding_policy_for_sandbox,
    managed_proxy_routing_for_windows_sandbox, prepare_elevated_sandbox, provisioning_settings,
    resolve_windows_sandbox_mode, run_elevated_provisioning_setup, run_legacy_setup_preflight,
    run_setup_refresh_with_extra_read_roots, sandbox_setup_is_complete, emit_windows_sandbox_setup_failure_metrics, emit_windows_sandbox_setup_success_metrics,
    windows_sandbox_setup_mode_tag, ConfigToml, Feature, Features, FeaturesToml, LocalBindingPolicy, ManagedProxyRouting,
    MetricKind, MetricRecord, NetworkProxySpec, SandboxType, SetupFailureInfo, WindowsSandboxConfig, WindowsSandboxLevel,
    WindowsSandboxModeToml, WindowsSandboxSetupError, WindowsSandboxSetupMode,
};

fn entries(pairs: &[(&str, bool)]) -> FeaturesToml {
    FeaturesToml { entries: pairs.iter().map(|(k, v)| (k.to_string(), *v)).collect() }
}

#[test]
fn local_binding_is_required_only_for_mxc_on_windows() {
    assert_eq!(local_binding_policy_for_sandbox(SandboxType::WindowsMxc, Some("windows")), LocalBindingPolicy::RequireTrue);
    assert_eq!(local_binding_policy_for_sandbox(SandboxType::WindowsMxc, Some("linux")), LocalBindingPolicy::DefaultFalse);
    assert_eq!(local_binding_policy_for_sandbox(SandboxType::WindowsMxc, None), LocalBindingPolicy::DefaultFalse);
    assert_eq!(
        local_binding_policy_for_sandbox(SandboxType::WindowsRestrictedToken, Some("windows")),
        LocalBindingPolicy::DefaultFalse
    );
}

#[test]
fn proxy_routing_uses_dedicated_listeners_for_mxc_on_windows_builds() {
    assert_eq!(managed_proxy_routing_for_windows_sandbox(SandboxType::WindowsMxc, true), ManagedProxyRouting::DedicatedListeners);
    assert_eq!(managed_proxy_routing_for_windows_sandbox(SandboxType::WindowsMxc, false), ManagedProxyRouting::SharedIngress);
    assert_eq!(managed_proxy_routing_for_windows_sandbox(SandboxType::NoSandbox, true), ManagedProxyRouting::SharedIngress);
}

#[test]
fn levels_follow_features_and_explicit_modes() {
    let none = Features { enabled: vec![] };
    let plain = Features { enabled: vec![Feature::WindowsSandbox] };
    let both = Features { enabled: vec![Feature::WindowsSandbox, Feature::WindowsSandboxElevated] };
    assert_eq!(WindowsSandboxLevel::from_features(&none), WindowsSandboxLevel::Disabled);
    assert_eq!(WindowsSandboxLevel::from_features(&plain), WindowsSandboxLevel::RestrictedToken);
    assert_eq!(WindowsSandboxLevel::from_features(&both), WindowsSandboxLevel::Elevated);
    let cfg = |mode, features| WindowsSandboxConfig { windows_sandbox_mode: mode, features };
    assert_eq!(
        WindowsSandboxLevel::from_config(&cfg(Some(WindowsSandboxModeToml::Mxc), Features { enabled: vec![Feature::WindowsSandboxElevated] })),
        WindowsSandboxLevel::Disabled
    );
    assert_eq!(WindowsSandboxLevel::from_config(&cfg(Some(WindowsSandboxModeToml::Unelevated), Features { enabled: vec![] })), WindowsSandboxLevel::RestrictedToken);
    assert_eq!(WindowsSandboxLevel::from_config(&cfg(Some(WindowsSandboxModeToml::Elevated), Features { enabled: vec![] })), WindowsSandboxLevel::Elevated);
    assert_eq!(WindowsSandboxLevel::from_config(&cfg(None, Features { enabled: vec![Feature::WindowsSandbox] })), WindowsSandboxLevel::RestrictedToken);
}

#[test]
fn legacy_flags_select_the_sandbox_mode() {
    assert_eq!(Feature::WindowsSandbox.key(), "experimental_windows_sandbox");
    assert_eq!(Feature::WindowsSandboxElevated.key(), "elevated_windows_sandbox");
    assert_eq!(
        legacy_windows_sandbox_mode_from_entries(&entries(&[("elevated_windows_sandbox", true), ("experimental_windows_sandbox", true)])),
        Some(WindowsSandboxModeToml::Elevated)
    );
    assert_eq!(
        legacy_windows_sandbox_mode_from_entries(&entries(&[("elevated_windows_sandbox", false), ("experimental_windows_sandbox", true)])),
        Some(WindowsSandboxModeToml::Unelevated)
    );
    assert_eq!(
        legacy_windows_sandbox_mode_from_entries(&entries(&[("enable_experimental_windows_sandbox", true)])),
        Some(WindowsSandboxModeToml::Unelevated)
    );
    assert_eq!(legacy_windows_sandbox_mode_from_entries(&entries(&[("experimental_windows_sandbox", false)])), None);
    assert_eq!(legacy_windows_sandbox_mode(None), None);
}

#[test]
fn explicit_windows_mode_wins_over_legacy_flags() {
    let cfg = ConfigToml {
        windows_sandbox: Some(WindowsSandboxModeToml::Mxc),
        features: Some(entries(&[("elevated_windows_sandbox", true)])),
    };
    assert_eq!(resolve_windows_sandbox_mode(&cfg), Some(WindowsSandboxModeToml::Mxc));
    let cfg = ConfigToml { windows_sandbox: None, features: Some(entries(&[("elevated_windows_sandbox", true)])) };
    assert_eq!(resolve_windows_sandbox_mode(&cfg), Some(WindowsSandboxModeToml::Elevated));
    assert_eq!(resolve_windows_sandbox_mode(&ConfigToml { windows_sandbox: None, features: None }), None);
}

#[test]
fn setup_steps_are_refused_off_windows() {
    assert_eq!(windows_sandbox_setup_mode_tag(WindowsSandboxSetupMode::Elevated), "elevated");
    assert_eq!(windows_sandbox_setup_mode_tag(WindowsSandboxSetupMode::Unelevated), "unelevated");
    assert!(!sandbox_setup_is_complete("/home/me/.kodex"));
    let Err(WindowsSandboxSetupError::UnsupportedPlatform(m)) = run_elevated_provisioning_setup("/home", "me", None) else {
        panic!("expected a refusal");
    };
    assert_eq!(m, "elevated Windows sandbox setup is only supported on Windows");
    let Err(WindowsSandboxSetupError::UnsupportedPlatform(m)) = run_legacy_setup_preflight("/home") else {
        panic!("expected a refusal");
    };
    assert_eq!(m, "legacy Windows sandbox setup is only supported on Windows");
    let Err(WindowsSandboxSetupError::UnsupportedPlatform(m)) = run_setup_refresh_with_extra_read_roots("/home", vec![]) else {
        panic!("expected a refusal");
    };
    assert_eq!(m, "Windows sandbox read-root refresh is only supported on Windows");
    assert!(prepare_elevated_sandbox("/home").is_err());
}

#[test]
fn provisioning_uses_an_enabled_proxy_only() {
    let spec = NetworkProxySpec { enabled: true, proxy_ports: vec![8080, 8443], allow_local_binding: true };
    let s = provisioning_settings(Some(&spec));
    assert_eq!((s.proxy_ports, s.allow_local_binding), (vec![8080, 8443], true));
    let spec = NetworkProxySpec { enabled: false, proxy_ports: vec![8080], allow_local_binding: true };
    let s = provisioning_settings(Some(&spec));
    assert_eq!((s.proxy_ports, s.allow_local_binding), (vec![], false));
    let s = provisioning_settings(None);
    assert_eq!((s.proxy_ports, s.allow_local_binding), (vec![], false));
}

fn names(ms: &[MetricRecord]) -> Vec<&str> {
    ms.iter().map(|m| m.name.as_str()).collect()
}

#[test]
fn setup_metrics_name_the_outcome() {
    let ok = emit_windows_sandbox_setup_success_metrics(WindowsSandboxSetupMode::Elevated, "kodex_cli");
    assert_eq!(names(&ok), vec!["kodex.windows_sandbox.setup_duration_ms", "kodex.windows_sandbox.setup_success"]);
    assert_eq!(ok[0].kind, MetricKind::Duration);
    assert_eq!(
        ok[0].tags,
        vec![
            ("result".to_string(), "success".to_string()),
            ("originator".to_string(), "kodex_cli".to_string()),
            ("mode".to_string(), "elevated".to_string())
        ]
    );

    let legacy = emit_windows_sandbox_setup_failure_metrics(WindowsSandboxSetupMode::Unelevated, "o", true, None);
    assert_eq!(
        names(&legacy),
        vec![
            "kodex.windows_sandbox.setup_duration_ms",
            "kodex.windows_sandbox.setup_failure",
            "kodex.windows_sandbox.legacy_setup_preflight_failed"
        ]
    );
    assert_eq!(legacy[0].tags[0], ("result".to_string(), "failure".to_string()));

    let canceled = SetupFailureInfo { code: "helper_launch_canceled".into(), message: "canceled".into(), canceled: true };
    let elevated = emit_windows_sandbox_setup_failure_metrics(WindowsSandboxSetupMode::Elevated, "o", true, Some(canceled));
    assert_eq!(elevated[2].name, "kodex.windows_sandbox.elevated_setup_canceled");
    assert_eq!(elevated[2].tags.len(), 3);
    let elevated = emit_windows_sandbox_setup_failure_metrics(WindowsSandboxSetupMode::Elevated, "o", true, None);
    assert_eq!(elevated[2].name, "kodex.windows_sandbox.elevated_setup_failure");
    assert_eq!(elevated[2].tags, vec![("originator".to_string(), "o".to_string())]);
    assert_eq!(emit_windows_sandbox_setup_failure_metrics(WindowsSandboxSetupMode::Elevated, "o", false, None).len(), 2);
}

use kodex::windows_sandbox::{setup_outcome_metrics, SetupAndPersist, SetupPersistAction, SetupPersistError, SetupPersistEvent};

#[test]
fn setup_then_persist_the_mode_tag() {
    let (mut request, action) = SetupAndPersist::start(WindowsSandboxSetupMode::Elevated);
    assert!(matches!(action, SetupPersistAction::PrepareElevated));
    let action = request.step(SetupPersistEvent::SetupSucceeded);
    assert!(matches!(action, SetupPersistAction::Persist { mode_tag: "elevated", clear_legacy_keys: true }));
    assert!(matches!(request.step(SetupPersistEvent::Persisted), SetupPersistAction::Finish(Ok(()))));

    let (mut request, action) = SetupAndPersist::start(WindowsSandboxSetupMode::Unelevated);
    assert!(matches!(action, SetupPersistAction::RunLegacyPreflight));
    let action = request.step(SetupPersistEvent::SetupSucceeded);
    assert!(matches!(action, SetupPersistAction::Persist { mode_tag: "unelevated", clear_legacy_keys: true }));
    let SetupPersistAction::Finish(Err(e)) = request.step(SetupPersistEvent::PersistFailed("disk full".into())) else {
        panic!("expected a persistence failure");
    };
    assert_eq!(e.message(), "failed to persist windows sandbox mode: disk full");
}

#[test]
fn setup_failures_are_not_persisted() {
    let (mut request, _) = SetupAndPersist::start(WindowsSandboxSetupMode::Elevated);
    let SetupPersistAction::Finish(Err(e)) = request.step(SetupPersistEvent::SetupTaskFailed("task panicked".into())) else {
        panic!("expected a task failure");
    };
    assert!(matches!(&e, SetupPersistError::TaskFailed(_)));
    assert_eq!(e.message(), "windows sandbox setup task failed: task panicked");
    let (mut request, _) = SetupAndPersist::start(WindowsSandboxSetupMode::Unelevated);
    let SetupPersistAction::Finish(Err(e)) = request.step(SetupPersistEvent::SetupFailed("access denied".into())) else {
        panic!("expected a setup failure");
    };
    assert_eq!(e.message(), "access denied");
}

#[test]
fn setup_outcome_chooses_success_or_failure_metrics() {
    let ok = setup_outcome_metrics(WindowsSandboxSetupMode::Elevated, "cli", true, false, None);
    assert_eq!(ok.len(), emit_windows_sandbox_setup_success_metrics(WindowsSandboxSetupMode::Elevated, "cli").len());
    assert!(ok.iter().any(|m| m.name == "kodex.windows_sandbox.setup_success"));
    let failed = setup_outcome_metrics(WindowsSandboxSetupMode::Elevated, "cli", false, false, None);
    assert!(failed.iter().any(|m| m.name == "kodex.windows_sandbox.setup_failure"));
    assert!(!failed.iter().any(|m| m.name == "kodex.windows_sandbox.setup_success"));
}
