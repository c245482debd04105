//! Windows sandbox policy: which sandbox level a configuration selects, how legacy
//! feature flags map onto the sandbox mode, what networking policy a sandbox type
//! needs, and which metrics a setup attempt records.

use vstd::prelude::*;
use crate::text::str_eq;

verus! {

/// The concrete sandbox implementation a command runs under.
#[derive(Clone, Copy, Debug, PartialEq, Eq, Structural)]
pub enum SandboxType {
    /// No sandbox (`SandboxType::None` in the host's vocabulary).
    NoSandbox,
    MacosSeatbelt,
    LinuxSeccomp,
    WindowsRestrictedToken,
    WindowsMxc,
}

/// The Windows sandbox setup level.
#[derive(Clone, Copy, Debug, PartialEq, Eq, Structural)]
pub enum WindowsSandboxLevel {
    Disabled,
    RestrictedToken,
    Elevated,
}

/// The `windows.sandbox` setting of the configuration file.
#[derive(Clone, Copy, Debug, PartialEq, Eq, Structural)]
pub enum WindowsSandboxModeToml {
    Elevated,
    Unelevated,
    Mxc,
}

/// Whether the network proxy must allow binding local ports.
#[derive(Clone, Copy, Debug, PartialEq, Eq, Structural)]
pub enum LocalBindingPolicy {
    RequireTrue,
    DefaultFalse,
}

/// How the managed network proxy routes sandboxed traffic.
#[derive(Clone, Copy, Debug, PartialEq, Eq, Structural)]
pub enum ManagedProxyRouting {
    DedicatedListeners,
    SharedIngress,
}

/// The feature flags that bear on the Windows sandbox.
#[derive(Clone, Copy, Debug, PartialEq, Eq, Structural)]
pub enum Feature {
    WindowsSandbox,
    WindowsSandboxElevated,
}

/// The enabled feature flags of a configuration.
pub struct Features {
    pub enabled: Vec<Feature>,
}

impl Features {
    pub open spec fn spec_enabled(&self, f: Feature) -> bool {
        self.enabled@.contains(f)
    }

    /// Is feature `f` enabled?
    pub fn enabled(&self, f: Feature) -> (r: bool)
        ensures
            r == self.spec_enabled(f),
    {
        let n = self.enabled.len();
        let mut i: usize = 0;
        while i < n
            invariant
                n == self.enabled@.len(),
                i <= n,
                forall|k: int| 0 <= k < i ==> self.enabled@[k] != f,
            decreases n - i,
        {
            if self.enabled[i] == f {
                return true;
            }
            i = i + 1;
        }
        false
    }
}

/// Selects the local binding policy: only the MXC sandbox on a Windows executor
/// requires local binding.
pub fn local_binding_policy_for_sandbox(sandbox_type: SandboxType, platform_os: Option<&str>) -> (r: LocalBindingPolicy)
    ensures
        r == (if sandbox_type == SandboxType::WindowsMxc && (match platform_os {
            Some(os) => os@ == "windows"@,
            None => false,
        }) {
            LocalBindingPolicy::RequireTrue
        } else {
            LocalBindingPolicy::DefaultFalse
        }),
{
    let on_windows = match platform_os {
        Some(os) => str_eq(os, "windows"),
        None => false,
    };
    if sandbox_type == SandboxType::WindowsMxc && on_windows {
        LocalBindingPolicy::RequireTrue
    } else {
        LocalBindingPolicy::DefaultFalse
    }
}

/// Selects proxy routing: the MXC sandbox on a Windows build gets dedicated listeners.
/// `built_for_windows` is whether this program was compiled for Windows.
pub fn managed_proxy_routing_for_windows_sandbox(sandbox_type: SandboxType, built_for_windows: bool) -> (r: ManagedProxyRouting)
    ensures
        r == (if built_for_windows && sandbox_type == SandboxType::WindowsMxc {
            ManagedProxyRouting::DedicatedListeners
        } else {
            ManagedProxyRouting::SharedIngress
        }),
{
    if built_for_windows && sandbox_type == SandboxType::WindowsMxc {
        ManagedProxyRouting::DedicatedListeners
    } else {
        ManagedProxyRouting::SharedIngress
    }
}

/// Adapts a sandbox selection for legacy checks that only understand setup levels: when
/// the effective Windows sandbox type (of the selected type at the given level) is MXC,
/// legacy checks see the restricted-token level; otherwise the level is unchanged.
pub fn windows_sandbox_level_for_legacy_checks(effective_type: SandboxType, sandbox_level: WindowsSandboxLevel) -> (r: WindowsSandboxLevel)
    ensures
        r == (if effective_type == SandboxType::WindowsMxc {
            WindowsSandboxLevel::RestrictedToken
        } else {
            sandbox_level
        }),
{
    if effective_type == SandboxType::WindowsMxc {
        WindowsSandboxLevel::RestrictedToken
    } else {
        sandbox_level
    }
}

/// The level the feature flags select: elevated wins over the plain sandbox flag.
pub open spec fn spec_level_from_features(features: Features) -> WindowsSandboxLevel {
    if features.spec_enabled(Feature::WindowsSandboxElevated) {
        WindowsSandboxLevel::Elevated
    } else if features.spec_enabled(Feature::WindowsSandbox) {
        WindowsSandboxLevel::RestrictedToken
    } else {
        WindowsSandboxLevel::Disabled
    }
}

/// The part of a configuration that selects the Windows sandbox level.
pub struct WindowsSandboxConfig {
    pub windows_sandbox_mode: Option<WindowsSandboxModeToml>,
    pub features: Features,
}

/// The level a configuration selects: an explicit mode wins; MXC disables the
/// setup levels; without a mode, the feature flags decide.
pub open spec fn spec_level_from_config(config: WindowsSandboxConfig) -> WindowsSandboxLevel {
    match config.windows_sandbox_mode {
        Some(WindowsSandboxModeToml::Elevated) => WindowsSandboxLevel::Elevated,
        Some(WindowsSandboxModeToml::Unelevated) => WindowsSandboxLevel::RestrictedToken,
        Some(WindowsSandboxModeToml::Mxc) => WindowsSandboxLevel::Disabled,
        None => spec_level_from_features(config.features),
    }
}

impl WindowsSandboxLevel {
    pub fn from_features(features: &Features) -> (r: WindowsSandboxLevel)
        ensures
            r == spec_level_from_features(*features),
    {
        if features.enabled(Feature::WindowsSandboxElevated) {
            return WindowsSandboxLevel::Elevated;
        }
        if features.enabled(Feature::WindowsSandbox) {
            WindowsSandboxLevel::RestrictedToken
        } else {
            WindowsSandboxLevel::Disabled
        }
    }

    pub fn from_config(config: &WindowsSandboxConfig) -> (r: WindowsSandboxLevel)
        ensures
            r == spec_level_from_config(*config),
    {
        match config.windows_sandbox_mode {
            Some(WindowsSandboxModeToml::Elevated) => WindowsSandboxLevel::Elevated,
            Some(WindowsSandboxModeToml::Unelevated) => WindowsSandboxLevel::RestrictedToken,
            Some(WindowsSandboxModeToml::Mxc) => WindowsSandboxLevel::Disabled,
            None => Self::from_features(&config.features),
        }
    }
}

} // verus!

verus! {

/// The `[features]` table of a configuration file: flag names and their values.
pub struct FeaturesToml {
    pub entries: Vec<(String, bool)>,
}

/// The value of flag `key` in a feature table (first occurrence).
pub open spec fn entry_lookup(entries: Seq<(String, bool)>, key: Seq<char>) -> Option<bool>
    decreases entries.len(),
{
    if entries.len() == 0 {
        None
    } else if entries[0].0@ == key {
        Some(entries[0].1)
    } else {
        entry_lookup(entries.drop_first(), key)
    }
}

/// Is flag `key` present and set?
pub open spec fn entry_set(entries: Seq<(String, bool)>, key: Seq<char>) -> bool {
    entry_lookup(entries, key) == Some(true)
}

/// The configuration key of the Windows sandbox feature flags.
pub open spec fn feature_key(f: Feature) -> Seq<char> {
    match f {
        Feature::WindowsSandbox => "experimental_windows_sandbox"@,
        Feature::WindowsSandboxElevated => "elevated_windows_sandbox"@,
    }
}

impl Feature {
    pub fn key(&self) -> (r: &'static str)
        ensures
            r@ == feature_key(*self),
    {
        match self {
            Feature::WindowsSandbox => "experimental_windows_sandbox",
            Feature::WindowsSandboxElevated => "elevated_windows_sandbox",
        }
    }
}

/// The legacy alias of the unelevated sandbox flag.
pub const LEGACY_WINDOWS_SANDBOX_KEY: &'static str = "enable_experimental_windows_sandbox";

/// The mode that legacy feature flags select: the elevated flag wins; the sandbox
/// flag or its legacy alias selects the unelevated mode; otherwise none.
pub open spec fn spec_legacy_mode(entries: Seq<(String, bool)>) -> Option<WindowsSandboxModeToml> {
    if entry_set(entries, feature_key(Feature::WindowsSandboxElevated)) {
        Some(WindowsSandboxModeToml::Elevated)
    } else if entry_set(entries, feature_key(Feature::WindowsSandbox)) || entry_set(entries, LEGACY_WINDOWS_SANDBOX_KEY@) {
        Some(WindowsSandboxModeToml::Unelevated)
    } else {
        None
    }
}

proof fn lemma_entry_skip(s: Seq<(String, bool)>, key: Seq<char>, i: int)
    requires
        0 <= i < s.len(),
        s[i].0@ != key,
    ensures
        entry_lookup(s.subrange(i, s.len() as int), key) == entry_lookup(s.subrange(i + 1, s.len() as int), key),
{
    assert(s.subrange(i, s.len() as int).drop_first() =~= s.subrange(i + 1, s.len() as int));
}

/// `entries.get(key).copied().unwrap_or(false)`.
fn flag_set(entries: &FeaturesToml, key: &str) -> (r: bool)
    ensures
        r == entry_set(entries.entries@, key@),
{
    let n = entries.entries.len();
    let mut i: usize = 0;
    assert(entries.entries@.subrange(0, n as int) =~= entries.entries@);
    while i < n
        invariant
            n == entries.entries@.len(),
            i <= n,
            entry_lookup(entries.entries@, key@) == entry_lookup(entries.entries@.subrange(i as int, n as int), key@),
        decreases n - i,
    {
        if str_eq(entries.entries[i].0.as_str(), key) {
            assert(entries.entries@.subrange(i as int, n as int)[0] == entries.entries@[i as int]);
            return entries.entries[i].1;
        }
        proof {
            lemma_entry_skip(entries.entries@, key@, i as int);
        }
        i = i + 1;
    }
    assert(entries.entries@.subrange(n as int, n as int).len() == 0);
    false
}

pub fn legacy_windows_sandbox_mode_from_entries(entries: &FeaturesToml) -> (r: Option<WindowsSandboxModeToml>)
    ensures
        r == spec_legacy_mode(entries.entries@),
{
    if flag_set(entries, Feature::WindowsSandboxElevated.key()) {
        return Some(WindowsSandboxModeToml::Elevated);
    }
    if flag_set(entries, Feature::WindowsSandbox.key()) || flag_set(entries, LEGACY_WINDOWS_SANDBOX_KEY) {
        Some(WindowsSandboxModeToml::Unelevated)
    } else {
        None
    }
}

pub fn legacy_windows_sandbox_mode(features: Option<&FeaturesToml>) -> (r: Option<WindowsSandboxModeToml>)
    ensures
        r == match features {
            Some(f) => spec_legacy_mode(f.entries@),
            None => None,
        },
{
    match features {
        Some(f) => legacy_windows_sandbox_mode_from_entries(f),
        None => None,
    }
}

/// The parts of the configuration file that decide the Windows sandbox mode.
pub struct ConfigToml {
    /// `windows.sandbox`, when the `[windows]` table sets it.
    pub windows_sandbox: Option<WindowsSandboxModeToml>,
    pub features: Option<FeaturesToml>,
}

/// The mode a configuration file selects: the explicit setting, else the legacy flags.
pub open spec fn spec_resolve_mode(cfg: ConfigToml) -> Option<WindowsSandboxModeToml> {
    match cfg.windows_sandbox {
        Some(m) => Some(m),
        None => match cfg.features {
            Some(f) => spec_legacy_mode(f.entries@),
            None => None,
        },
    }
}

pub fn resolve_windows_sandbox_mode(cfg: &ConfigToml) -> (r: Option<WindowsSandboxModeToml>)
    ensures
        r == spec_resolve_mode(*cfg),
{
    match cfg.windows_sandbox {
        Some(m) => Some(m),
        None => match &cfg.features {
            Some(f) => legacy_windows_sandbox_mode(Some(f)),
            None => None,
        },
    }
}

/// Which setup a Windows sandbox request performs.
#[derive(Clone, Copy, Debug, PartialEq, Eq, Structural)]
pub enum WindowsSandboxSetupMode {
    Elevated,
    Unelevated,
}

pub open spec fn setup_mode_tag(mode: WindowsSandboxSetupMode) -> Seq<char> {
    match mode {
        WindowsSandboxSetupMode::Elevated => "elevated"@,
        WindowsSandboxSetupMode::Unelevated => "unelevated"@,
    }
}

/// The tag that names a setup mode in configuration and metrics.
pub fn windows_sandbox_setup_mode_tag(mode: WindowsSandboxSetupMode) -> (r: &'static str)
    ensures
        r@ == setup_mode_tag(mode),
{
    match mode {
        WindowsSandboxSetupMode::Elevated => "elevated",
        WindowsSandboxSetupMode::Unelevated => "unelevated",
    }
}

/// Whether the Windows sandbox setup has completed under `kodex_home`. This build
/// does not target Windows, where setup never runs, so it never has.
pub fn sandbox_setup_is_complete(kodex_home: &str) -> (r: bool)
    ensures
        !r,
{
    false
}

/// One outside step of setting up the Windows sandbox and persisting the chosen mode,
/// requested by [`SetupAndPersist`].
pub enum SetupPersistAction {
    /// Run the elevated preparation on a blocking task.
    PrepareElevated,
    /// Run the unelevated preflight on a blocking task.
    RunLegacyPreflight,
    /// Write the mode to the configuration under the Kodex home, clearing the legacy
    /// feature keys when asked.
    Persist { mode_tag: &'static str, clear_legacy_keys: bool },
    /// The request is over.
    Finish(Result<(), SetupPersistError>),
}

/// The outcome of the step that [`SetupAndPersist`] asked for.
pub enum SetupPersistEvent {
    /// The blocking task could not be joined; the join error as text.
    SetupTaskFailed(String),
    /// The setup ran and failed; its error as text.
    SetupFailed(String),
    SetupSucceeded,
    /// The configuration edit failed; its error as text.
    PersistFailed(String),
    Persisted,
}

/// Why a setup request failed.
pub enum SetupPersistError {
    TaskFailed(String),
    Setup(String),
    Persist(String),
}

pub const SETUP_TASK_FAILED_PREFIX: &'static str = "windows sandbox setup task failed: ";
pub const PERSIST_FAILED_PREFIX: &'static str = "failed to persist windows sandbox mode: ";

/// The message of a setup failure: a task or persistence failure is prefixed with what
/// failed; a setup error is reported as it is.
pub open spec fn setup_error_message(e: SetupPersistError) -> Seq<char> {
    match e {
        SetupPersistError::TaskFailed(m) => SETUP_TASK_FAILED_PREFIX@ + m@,
        SetupPersistError::Setup(m) => m@,
        SetupPersistError::Persist(m) => PERSIST_FAILED_PREFIX@ + m@,
    }
}

impl SetupPersistError {
    /// The error's message, as [`setup_error_message`] gives it.
    pub fn message(&self) -> (r: String)
        ensures
            r@ == setup_error_message(*self),
    {
        match self {
            SetupPersistError::TaskFailed(m) => crate::text::join2(SETUP_TASK_FAILED_PREFIX, m.as_str()),
            SetupPersistError::Setup(m) => m.clone(),
            SetupPersistError::Persist(m) => crate::text::join2(PERSIST_FAILED_PREFIX, m.as_str()),
        }
    }
}

/// Where a setup request stands.
#[derive(Clone, Copy, Debug, PartialEq, Eq, Structural)]
pub enum SetupPersistStage {
    AwaitSetup,
    AwaitPersist,
    Finished,
}

/// Sets up the Windows sandbox in the requested mode and, once the setup succeeded,
/// persists that mode. The caller performs each requested step.
pub struct SetupAndPersist {
    pub mode: WindowsSandboxSetupMode,
    pub stage: SetupPersistStage,
}

/// Does the event answer the step that the stage waits for?
pub open spec fn setup_event_fits(stage: SetupPersistStage, event: SetupPersistEvent) -> bool {
    match stage {
        SetupPersistStage::AwaitSetup => event is SetupTaskFailed || event is SetupFailed || event is SetupSucceeded,
        SetupPersistStage::AwaitPersist => event is PersistFailed || event is Persisted,
        SetupPersistStage::Finished => false,
    }
}

impl SetupAndPersist {
    /// Starts a request: the setup of the requested mode runs first.
    pub fn start(mode: WindowsSandboxSetupMode) -> (r: (Self, SetupPersistAction))
        ensures
            r.0.mode == mode,
            r.0.stage == SetupPersistStage::AwaitSetup,
            match mode {
                WindowsSandboxSetupMode::Elevated => r.1 is PrepareElevated,
                WindowsSandboxSetupMode::Unelevated => r.1 is RunLegacyPreflight,
            },
    {
        let action = match mode {
            WindowsSandboxSetupMode::Elevated => SetupPersistAction::PrepareElevated,
            WindowsSandboxSetupMode::Unelevated => SetupPersistAction::RunLegacyPreflight,
        };
        (SetupAndPersist { mode, stage: SetupPersistStage::AwaitSetup }, action)
    }

    /// Advances the request by the outcome of the step it asked for. A successful
    /// setup is followed by persisting the mode's tag and clearing the legacy keys; any
    /// failure finishes the request with that failure, and nothing is persisted after it.
    pub fn step(&mut self, event: SetupPersistEvent) -> (r: SetupPersistAction)
        requires
            setup_event_fits(old(self).stage, event),
        ensures
            final(self).mode == old(self).mode,
            r is Finish <==> final(self).stage == SetupPersistStage::Finished,
            match event {
                SetupPersistEvent::SetupTaskFailed(m) => r matches SetupPersistAction::Finish(Err(SetupPersistError::TaskFailed(e))) && e@ == m@,
                SetupPersistEvent::SetupFailed(m) => r matches SetupPersistAction::Finish(Err(SetupPersistError::Setup(e))) && e@ == m@,
                SetupPersistEvent::SetupSucceeded => (r matches SetupPersistAction::Persist { mode_tag, clear_legacy_keys }
                    && mode_tag@ == setup_mode_tag(old(self).mode) && clear_legacy_keys)
                    && final(self).stage == SetupPersistStage::AwaitPersist,
                SetupPersistEvent::PersistFailed(m) => r matches SetupPersistAction::Finish(Err(SetupPersistError::Persist(e))) && e@ == m@,
                SetupPersistEvent::Persisted => r matches SetupPersistAction::Finish(Ok(())),
            },
    {
        match event {
            SetupPersistEvent::SetupTaskFailed(m) => {
                self.stage = SetupPersistStage::Finished;
                SetupPersistAction::Finish(Err(SetupPersistError::TaskFailed(m)))
            },
            SetupPersistEvent::SetupFailed(m) => {
                self.stage = SetupPersistStage::Finished;
                SetupPersistAction::Finish(Err(SetupPersistError::Setup(m)))
            },
            SetupPersistEvent::SetupSucceeded => {
                self.stage = SetupPersistStage::AwaitPersist;
                SetupPersistAction::Persist { mode_tag: windows_sandbox_setup_mode_tag(self.mode), clear_legacy_keys: true }
            },
            SetupPersistEvent::PersistFailed(m) => {
                self.stage = SetupPersistStage::Finished;
                SetupPersistAction::Finish(Err(SetupPersistError::Persist(m)))
            },
            SetupPersistEvent::Persisted => {
                self.stage = SetupPersistStage::Finished;
                SetupPersistAction::Finish(Ok(()))
            },
        }
    }
}

/// Why a Windows sandbox setup step did not run.
pub enum WindowsSandboxSetupError {
    /// The step exists only on Windows; the message says which step.
    UnsupportedPlatform(String),
}

pub open spec fn unsupported(r: Result<(), WindowsSandboxSetupError>, message: Seq<char>) -> bool {
    match r {
        Err(WindowsSandboxSetupError::UnsupportedPlatform(m)) => m@ == message,
        Ok(()) => false,
    }
}

/// Network settings that provisioning reads from the proxy specification.
pub struct NetworkProxySpec {
    pub enabled: bool,
    pub proxy_ports: Vec<u16>,
    pub allow_local_binding: bool,
}

/// Firewall settings for sandbox provisioning.
pub struct ProvisioningSettings {
    pub proxy_ports: Vec<u16>,
    pub allow_local_binding: bool,
}

/// Provisioning settings: defaults (no ports, no local binding) unless an enabled
/// proxy is configured, whose ports and binding choice are taken.
pub fn provisioning_settings(network: Option<&NetworkProxySpec>) -> (r: ProvisioningSettings)
    ensures
        match network {
            Some(n) => if n.enabled {
                r.proxy_ports@ == n.proxy_ports@ && r.allow_local_binding == n.allow_local_binding
            } else {
                r.proxy_ports@.len() == 0 && !r.allow_local_binding
            },
            None => r.proxy_ports@.len() == 0 && !r.allow_local_binding,
        },
{
    match network {
        Some(n) => if n.enabled {
            ProvisioningSettings { proxy_ports: n.proxy_ports.clone(), allow_local_binding: n.allow_local_binding }
        } else {
            ProvisioningSettings { proxy_ports: Vec::new(), allow_local_binding: false }
        },
        None => ProvisioningSettings { proxy_ports: Vec::new(), allow_local_binding: false },
    }
}

/// Elevated provisioning runs only on Windows; this build refuses it.
pub fn run_elevated_provisioning_setup(kodex_home: &str, real_user: &str, network: Option<&NetworkProxySpec>) -> (r: Result<(), WindowsSandboxSetupError>)
    ensures
        unsupported(r, "elevated Windows sandbox setup is only supported on Windows"@),
{
    Err(WindowsSandboxSetupError::UnsupportedPlatform(
        String::from_str("elevated Windows sandbox setup is only supported on Windows"),
    ))
}

/// Elevated sandbox preparation runs only on Windows; this build refuses it.
pub fn prepare_elevated_sandbox(kodex_home: &str) -> (r: Result<(), WindowsSandboxSetupError>)
    ensures
        unsupported(r, "elevated Windows sandbox setup is only supported on Windows"@),
{
    Err(WindowsSandboxSetupError::UnsupportedPlatform(
        String::from_str("elevated Windows sandbox setup is only supported on Windows"),
    ))
}

/// The legacy setup preflight runs only on Windows; this build refuses it.
pub fn run_legacy_setup_preflight(kodex_home: &str) -> (r: Result<(), WindowsSandboxSetupError>)
    ensures
        unsupported(r, "legacy Windows sandbox setup is only supported on Windows"@),
{
    Err(WindowsSandboxSetupError::UnsupportedPlatform(
        String::from_str("legacy Windows sandbox setup is only supported on Windows"),
    ))
}

/// Refreshing read roots runs only on Windows; this build refuses it.
pub fn run_setup_refresh_with_extra_read_roots(kodex_home: &str, extra_read_roots: Vec<String>) -> (r: Result<(), WindowsSandboxSetupError>)
    ensures
        unsupported(r, "Windows sandbox read-root refresh is only supported on Windows"@),
{
    Err(WindowsSandboxSetupError::UnsupportedPlatform(
        String::from_str("Windows sandbox read-root refresh is only supported on Windows"),
    ))
}

} // verus!

verus! {

/// The instrument a setup metric is recorded on.
#[derive(Clone, Copy, Debug, PartialEq, Eq, Structural)]
pub enum MetricKind {
    /// A duration histogram, recorded with the setup's elapsed time.
    Duration,
    /// A counter, incremented by one.
    Counter,
}

/// One metric that a setup attempt records.
pub struct MetricRecord {
    pub name: String,
    pub kind: MetricKind,
    pub tags: Vec<(String, String)>,
}

pub struct MetricView {
    pub name: Seq<char>,
    pub kind: MetricKind,
    pub tags: Seq<(Seq<char>, Seq<char>)>,
}

pub open spec fn tags_view(tags: Seq<(String, String)>) -> Seq<(Seq<char>, Seq<char>)> {
    tags.map_values(|t: (String, String)| (t.0@, t.1@))
}

pub open spec fn metric_view(m: MetricRecord) -> MetricView {
    MetricView { name: m.name@, kind: m.kind, tags: tags_view(m.tags@) }
}

pub open spec fn metrics_view(ms: Seq<MetricRecord>) -> Seq<MetricView> {
    ms.map_values(|m: MetricRecord| metric_view(m))
}

/// The failure that the Windows setup helper reported: its code and sanitized message,
/// and whether the user canceled the helper's launch.
pub struct SetupFailureInfo {
    pub code: String,
    pub message: String,
    pub canceled: bool,
}

pub open spec fn duration_metric(result: Seq<char>, originator: Seq<char>, mode: WindowsSandboxSetupMode) -> MetricView {
    MetricView {
        name: "kodex.windows_sandbox.setup_duration_ms"@,
        kind: MetricKind::Duration,
        tags: seq![("result"@, result), ("originator"@, originator), ("mode"@, setup_mode_tag(mode))],
    }
}

/// The metrics of a successful setup: its duration and a success count.
pub open spec fn spec_success_metrics(mode: WindowsSandboxSetupMode, originator: Seq<char>) -> Seq<MetricView> {
    seq![
        duration_metric("success"@, originator, mode),
        MetricView {
            name: "kodex.windows_sandbox.setup_success"@,
            kind: MetricKind::Counter,
            tags: seq![("originator"@, originator), ("mode"@, setup_mode_tag(mode))],
        },
    ]
}

/// The tags of an elevated failure: the originator, then the helper's code and message
/// when it reported a failure.
pub open spec fn elevated_failure_tags(originator: Seq<char>, failure: Option<SetupFailureInfo>) -> Seq<(Seq<char>, Seq<char>)> {
    match failure {
        Some(f) => seq![("originator"@, originator), ("code"@, f.code@), ("message"@, f.message@)],
        None => seq![("originator"@, originator)],
    }
}

/// The metrics of a failed setup: its duration and a failure count, then for an elevated
/// setup on Windows a canceled-or-failed count, and for an unelevated setup a preflight
/// failure count.
pub open spec fn spec_failure_metrics(
    mode: WindowsSandboxSetupMode,
    originator: Seq<char>,
    built_for_windows: bool,
    failure: Option<SetupFailureInfo>,
) -> Seq<MetricView> {
    let common = seq![
        duration_metric("failure"@, originator, mode),
        MetricView {
            name: "kodex.windows_sandbox.setup_failure"@,
            kind: MetricKind::Counter,
            tags: seq![("originator"@, originator), ("mode"@, setup_mode_tag(mode))],
        },
    ];
    match mode {
        WindowsSandboxSetupMode::Elevated => if built_for_windows {
            common.push(MetricView {
                name: if failure matches Some(f) && f.canceled {
                    "kodex.windows_sandbox.elevated_setup_canceled"@
                } else {
                    "kodex.windows_sandbox.elevated_setup_failure"@
                },
                kind: MetricKind::Counter,
                tags: elevated_failure_tags(originator, failure),
            })
        } else {
            common
        },
        WindowsSandboxSetupMode::Unelevated => common.push(MetricView {
            name: "kodex.windows_sandbox.legacy_setup_preflight_failed"@,
            kind: MetricKind::Counter,
            tags: seq![("originator"@, originator)],
        }),
    }
}

fn tag(key: &str, value: &str) -> (r: (String, String))
    ensures
        r.0@ == key@,
        r.1@ == value@,
{
    (String::from_str(key), String::from_str(value))
}

fn duration_record(result: &str, originator: &str, mode: WindowsSandboxSetupMode) -> (r: MetricRecord)
    ensures
        metric_view(r) == duration_metric(result@, originator@, mode),
{
    let mut tags: Vec<(String, String)> = Vec::new();
    tags.push(tag("result", result));
    tags.push(tag("originator", originator));
    tags.push(tag("mode", windows_sandbox_setup_mode_tag(mode)));
    let r = MetricRecord {
        name: String::from_str("kodex.windows_sandbox.setup_duration_ms"),
        kind: MetricKind::Duration,
        tags,
    };
    assert(tags_view(r.tags@) =~= duration_metric(result@, originator@, mode).tags);
    r
}

fn originator_mode_counter(name: &str, originator: &str, mode: WindowsSandboxSetupMode) -> (r: MetricRecord)
    ensures
        metric_view(r) == (MetricView {
            name: name@,
            kind: MetricKind::Counter,
            tags: seq![("originator"@, originator@), ("mode"@, setup_mode_tag(mode))],
        }),
{
    let mut tags: Vec<(String, String)> = Vec::new();
    tags.push(tag("originator", originator));
    tags.push(tag("mode", windows_sandbox_setup_mode_tag(mode)));
    let r = MetricRecord { name: String::from_str(name), kind: MetricKind::Counter, tags };
    assert(tags_view(r.tags@) =~= seq![("originator"@, originator@), ("mode"@, setup_mode_tag(mode))]);
    r
}

/// The metrics that a successful setup emits.
pub fn emit_windows_sandbox_setup_success_metrics(mode: WindowsSandboxSetupMode, originator_tag: &str) -> (r: Vec<MetricRecord>)
    ensures
        metrics_view(r@) == spec_success_metrics(mode, originator_tag@),
{
    let mut r: Vec<MetricRecord> = Vec::new();
    r.push(duration_record("success", originator_tag, mode));
    r.push(originator_mode_counter("kodex.windows_sandbox.setup_success", originator_tag, mode));
    assert(metrics_view(r@) =~= spec_success_metrics(mode, originator_tag@));
    r
}

/// The metrics that a failed setup emits, including service attempts that fail before
/// the helper runs; `failure` is what the helper reported, if anything.
pub fn emit_windows_sandbox_setup_failure_metrics(
    mode: WindowsSandboxSetupMode,
    originator_tag: &str,
    built_for_windows: bool,
    failure: Option<SetupFailureInfo>,
) -> (r: Vec<MetricRecord>)
    ensures
        metrics_view(r@) == spec_failure_metrics(mode, originator_tag@, built_for_windows, failure),
{
    let ghost failure0 = failure;
    let mut r: Vec<MetricRecord> = Vec::new();
    r.push(duration_record("failure", originator_tag, mode));
    r.push(originator_mode_counter("kodex.windows_sandbox.setup_failure", originator_tag, mode));
    let ghost common = metrics_view(r@);
    match mode {
        WindowsSandboxSetupMode::Elevated => {
            if built_for_windows {
                let mut tags: Vec<(String, String)> = Vec::new();
                tags.push(tag("originator", originator_tag));
                let canceled = match &failure {
                    Some(f) => f.canceled,
                    None => false,
                };
                match failure {
                    Some(f) => {
                        tags.push((String::from_str("code"), f.code));
                        tags.push((String::from_str("message"), f.message));
                    },
                    None => {},
                }
                assert(tags_view(tags@) =~= elevated_failure_tags(originator_tag@, failure0));
                let name = if canceled {
                    "kodex.windows_sandbox.elevated_setup_canceled"
                } else {
                    "kodex.windows_sandbox.elevated_setup_failure"
                };
                r.push(MetricRecord { name: String::from_str(name), kind: MetricKind::Counter, tags });
            }
        },
        WindowsSandboxSetupMode::Unelevated => {
            let mut tags: Vec<(String, String)> = Vec::new();
            tags.push(tag("originator", originator_tag));
            assert(tags_view(tags@) =~= seq![("originator"@, originator_tag@)]);
            r.push(MetricRecord {
                name: String::from_str("kodex.windows_sandbox.legacy_setup_preflight_failed"),
                kind: MetricKind::Counter,
                tags,
            });
        },
    }
    assert(metrics_view(r@) =~= spec_failure_metrics(mode, originator_tag@, built_for_windows, failure0));
    r
}

/// The metrics of a finished setup request: the success metrics when it succeeded,
/// else the failure metrics.
pub fn setup_outcome_metrics(
    mode: WindowsSandboxSetupMode,
    originator_tag: &str,
    ok: bool,
    built_for_windows: bool,
    failure: Option<SetupFailureInfo>,
) -> (r: Vec<MetricRecord>)
    ensures
        metrics_view(r@) == if ok {
            spec_success_metrics(mode, originator_tag@)
        } else {
            spec_failure_metrics(mode, originator_tag@, built_for_windows, failure)
        },
{
    if ok {
        emit_windows_sandbox_setup_success_metrics(mode, originator_tag)
    } else {
        emit_windows_sandbox_setup_failure_metrics(mode, originator_tag, built_for_windows, failure)
    }
}

} // verus!

verus! {

/// Every setup failure, whatever its mode or cause, first records its duration tagged
/// as a failure and then the failure count for its mode.
pub proof fn law_failures_always_record_duration_and_count(
    mode: WindowsSandboxSetupMode,
    originator: Seq<char>,
    built_for_windows: bool,
    failure: Option<SetupFailureInfo>,
)
    ensures
        spec_failure_metrics(mode, originator, built_for_windows, failure).len() >= 2,
        spec_failure_metrics(mode, originator, built_for_windows, failure)[0] == duration_metric("failure"@, originator, mode),
        spec_failure_metrics(mode, originator, built_for_windows, failure)[1].name == "kodex.windows_sandbox.setup_failure"@,
{
}

/// An explicit `windows.sandbox` mode decides the level regardless of the feature flags.
pub proof fn law_explicit_mode_ignores_features(mode: WindowsSandboxModeToml, a: Features, b: Features)
    ensures
        spec_level_from_config(WindowsSandboxConfig { windows_sandbox_mode: Some(mode), features: a })
            == spec_level_from_config(WindowsSandboxConfig { windows_sandbox_mode: Some(mode), features: b }),
{
}

/// The elevated flag wins: with it enabled, the feature flags select the elevated level
/// whatever else is enabled.
pub proof fn law_elevated_flag_wins(features: Features)
    requires
        features.spec_enabled(Feature::WindowsSandboxElevated),
    ensures
        spec_level_from_features(features) == WindowsSandboxLevel::Elevated,
{
}

} // verus!
