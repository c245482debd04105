//! Home-ownership rules for MCP tools under review: a plugin capability is trusted
//! only when the plugin root, its manifest and the capability's declaration file all
//! resolve inside the Kodex home.
//!
//! Resolving a path against the file system (`canonicalize`) and reading files are
//! left to the caller; the rules here take their results.

use vstd::prelude::*;
use crate::text::{osv, ov};
use crate::json::{Json, JsonView, jget, json_get, parse_json, serde_json_from_str};
use crate::config_value::{ConfigValue, config_eq, config_get, config_member, config_values_equal};

verus! {

/// What `std::path::Path::starts_with` says: `base` is a component-wise prefix of `path`.
pub uninterp spec fn path_starts_with(path: Seq<char>, base: Seq<char>) -> bool;

/// Calls `Path::new(path).starts_with(base)`. Claimed: the result is the named relation.
#[verifier::external_body]
fn path_has_prefix(path: &str, base: &str) -> (r: bool)
    ensures
        r == path_starts_with(path@, base@),
{
    std::path::Path::new(path).starts_with(base)
}

/// What `std::path::Path::join` gives, as text (`PathBuf::display`).
pub uninterp spec fn path_join(base: Seq<char>, rel: Seq<char>) -> Seq<char>;

/// Calls `Path::new(base).join(rel)` and displays the result. Claimed: the text is the
/// named join of the two paths.
#[verifier::external_body]
pub(crate) fn join_path(base: &str, rel: &str) -> (r: String)
    ensures
        r@ == path_join(base@, rel@),
{
    std::path::Path::new(base).join(rel).display().to_string()
}

/// A path is home-owned when it resolves (`canonical_path` is its canonical form, `None`
/// when it does not resolve) to a path inside `kodex_home`.
pub fn is_home_owned_path(canonical_path: Option<&str>, kodex_home: &str) -> (r: bool)
    ensures
        r == match canonical_path {
            Some(p) => path_starts_with(p@, kodex_home@),
            None => false,
        },
{
    match canonical_path {
        Some(p) => path_has_prefix(p, kodex_home),
        None => false,
    }
}

/// The plugin capabilities whose declarations can be trusted.
#[derive(Clone, Copy, Debug, PartialEq, Eq, Structural)]
pub enum PluginCapability {
    Connector,
    Mcp,
}

/// Where a plugin's manifest may live, in the order they are tried.
pub open spec fn spec_manifest_candidates(root: Seq<char>) -> Seq<Seq<char>> {
    seq![
        path_join(root, "plugin.json"@),
        path_join(path_join(root, ".kodex-plugin"@), "plugin.json"@),
        path_join(path_join(root, ".cursor-plugin"@), "plugin.json"@),
    ]
}

pub fn manifest_candidates(plugin_root: &str) -> (r: Vec<String>)
    ensures
        r@.map_values(|s: String| s@) == spec_manifest_candidates(plugin_root@),
{
    let mut r: Vec<String> = Vec::new();
    r.push(join_path(plugin_root, "plugin.json"));
    let k = join_path(plugin_root, ".kodex-plugin");
    r.push(join_path(k.as_str(), "plugin.json"));
    let u = join_path(plugin_root, ".cursor-plugin");
    r.push(join_path(u.as_str(), "plugin.json"));
    assert(r@.map_values(|s: String| s@) =~= spec_manifest_candidates(plugin_root@));
    r
}

/// The file that declares a capability, given the plugin's parsed manifest:
/// connectors are declared where the manifest's `apps` string points, else in
/// `.app.json`; MCP servers inline in the manifest when `mcpServers` is an object,
/// where it points when it is a string, else in `mcp.json` next to a root manifest
/// or `.mcp.json` otherwise. Any other `mcpServers` value declares nothing.
pub open spec fn spec_declaration_path(
    root: Seq<char>,
    manifest_path: Seq<char>,
    manifest_is_root: bool,
    capability: PluginCapability,
    manifest: JsonView,
) -> Option<Seq<char>> {
    match capability {
        PluginCapability::Connector => match jget(manifest, "apps"@) {
            Some(JsonView::Str(p)) => Some(path_join(root, p)),
            _ => Some(path_join(root, ".app.json"@)),
        },
        PluginCapability::Mcp => match jget(manifest, "mcpServers"@) {
            Some(JsonView::Object(_)) => Some(manifest_path),
            Some(JsonView::Str(p)) => Some(path_join(root, p)),
            Some(_) => None,
            None => if manifest_is_root {
                Some(path_join(root, "mcp.json"@))
            } else {
                Some(path_join(root, ".mcp.json"@))
            },
        },
    }
}

/// Parses the manifest text and locates the capability's declaration file. `None` when
/// the manifest is not JSON or declares the capability in an unusable form.
/// `manifest_is_root` tells whether the manifest is the root `plugin.json`.
pub fn plugin_declaration_path(
    plugin_root: &str,
    manifest_path: &str,
    manifest_is_root: bool,
    capability: PluginCapability,
    manifest_contents: &str,
) -> (r: Option<String>)
    ensures
        match serde_json_from_str(manifest_contents@) {
            Some(m) => match r {
                Some(p) => spec_declaration_path(plugin_root@, manifest_path@, manifest_is_root, capability, m) == Some(p@),
                None => spec_declaration_path(plugin_root@, manifest_path@, manifest_is_root, capability, m) is None,
            },
            None => r is None,
        },
{
    let manifest = match parse_json(manifest_contents) {
        Some(m) => m,
        None => return None,
    };
    match capability {
        PluginCapability::Connector => match json_get(&manifest, "apps") {
            Some(Json::Str(p)) => Some(join_path(plugin_root, p.as_str())),
            _ => Some(join_path(plugin_root, ".app.json")),
        },
        PluginCapability::Mcp => match json_get(&manifest, "mcpServers") {
            Some(Json::Object(_)) => Some(String::from_str(manifest_path)),
            Some(Json::Str(p)) => Some(join_path(plugin_root, p.as_str())),
            Some(_) => None,
            None => if manifest_is_root {
                Some(join_path(plugin_root, "mcp.json"))
            } else {
                Some(join_path(plugin_root, ".mcp.json"))
            },
        },
    }
}

} // verus!

verus! {

/// Where an MCP tool under review comes from.
pub enum McpToolSource {
    /// A connector (app) tool.
    Connector,
    /// A server from the user's configuration.
    Config,
    /// A server declared by a plugin; `root` is the plugin root as an absolute path,
    /// `None` when it is not one.
    Plugin { root: Option<String> },
    SelectedPlugin,
    Other,
}

/// A loaded plugin, as connector trust reads it. `connector_home_owned` is whether its
/// connector capability is home-owned (root, manifest and declaration inside the home).
pub struct PluginCandidate {
    pub root: String,
    pub active: bool,
    pub connector_ids: Vec<String>,
    pub connector_home_owned: bool,
}

/// A tool whose declaration the safety scorer may trust, with the file it was traced to.
pub struct TrustedTool {
    pub server: String,
    pub connector_id: Option<String>,
    pub source: String,
}

pub open spec fn strings_contain(v: Seq<String>, s: Seq<char>) -> bool {
    exists|i: int| 0 <= i < v.len() && #[trigger] v[i]@ == s
}

/// A plugin that vouches for connector `id`: active, declaring the connector, and with a
/// home-owned connector capability.
pub open spec fn vouches(p: PluginCandidate, id: Seq<char>) -> bool {
    p.active && strings_contain(p.connector_ids@, id) && p.connector_home_owned
}

/// The root of the first plugin that vouches for `id`.
pub open spec fn first_vouching(plugins: Seq<PluginCandidate>, id: Seq<char>) -> Option<Seq<char>>
    decreases plugins.len(),
{
    if plugins.len() == 0 {
        None
    } else if vouches(plugins[0], id) {
        Some(plugins[0].root@)
    } else {
        first_vouching(plugins.drop_first(), id)
    }
}

/// The user configuration layer, as tool trust reads it.
pub struct UserConfigLayer {
    /// The user configuration file, `None` when there is none.
    pub file: Option<String>,
    /// That file resolved (`canonicalize`), `None` when it does not resolve.
    pub file_canonical: Option<String>,
    /// The configuration of the user layer alone, `None` when there is none.
    pub user_config: Option<ConfigValue>,
    /// The configuration that all layers together give.
    pub effective_config: ConfigValue,
}

pub open spec fn config_get_opt(v: Option<ConfigValue>, key: Seq<char>) -> Option<ConfigValue> {
    match v {
        Some(v) => config_get(v, key),
        None => None,
    }
}

/// The user configuration file, when it can vouch for entry `name` of `section`: the
/// file is home-owned, the user layer declares the entry, and the effective
/// configuration holds an equal entry (no other layer overrides it).
pub open spec fn spec_user_config_source(layer: UserConfigLayer, kodex_home: Seq<char>, section: Seq<char>, name: Seq<char>) -> Option<Seq<char>> {
    match layer.file {
        None => None,
        Some(file) => if !owned(layer.file_canonical, kodex_home) {
            None
        } else {
            match (config_get_opt(config_get_opt(layer.user_config, section), name),
                config_get_opt(config_get(layer.effective_config, section), name)) {
                (Some(user_entry), Some(effective_entry)) => if config_eq(user_entry, effective_entry) {
                    Some(file@)
                } else {
                    None
                },
                _ => None,
            }
        },
    }
}

/// The file a tool's trust is traced to. Nothing is trusted unless the Kodex home
/// resolves (`kodex_home` is its canonical form). A connector tool is traced to the
/// first plugin that vouches for it, else to the user configuration's `apps` entry; a
/// plugin server to its home-owned plugin root; a configured server to the user
/// configuration's `mcp_servers` entry.
pub open spec fn spec_trusted_source(
    server_name: Seq<char>,
    connector_id: Option<Seq<char>>,
    source: McpToolSource,
    kodex_home: Option<Seq<char>>,
    plugins: Seq<PluginCandidate>,
    plugin_capability_home_owned: bool,
    layer: UserConfigLayer,
) -> Option<Seq<char>> {
    match kodex_home {
        None => None,
        Some(home) => match source {
            McpToolSource::Connector => match connector_id {
                Some(id) => match first_vouching(plugins, id) {
                    Some(root) => Some(root),
                    None => spec_user_config_source(layer, home, "apps"@, id),
                },
                None => None,
            },
            McpToolSource::Plugin { root } => match root {
                Some(r) => if plugin_capability_home_owned {
                    Some(r@)
                } else {
                    None
                },
                None => None,
            },
            McpToolSource::Config => spec_user_config_source(layer, home, "mcp_servers"@, server_name),
            McpToolSource::SelectedPlugin | McpToolSource::Other => None,
        },
    }
}

/// Decides whether the user configuration file vouches for entry `name` of `section`,
/// as [`spec_user_config_source`] describes, and gives the file.
pub fn trusted_user_config_source(layer: &UserConfigLayer, kodex_home: &str, section: &str, name: &str) -> (r: Option<String>)
    ensures
        ov(r) == spec_user_config_source(*layer, kodex_home@, section@, name@),
{
    let file = match &layer.file {
        Some(f) => f,
        None => return None,
    };
    let owned_file = match &layer.file_canonical {
        Some(c) => path_has_prefix(c.as_str(), kodex_home),
        None => false,
    };
    if !owned_file {
        return None;
    }
    let user_section = match &layer.user_config {
        Some(u) => config_member(u, section),
        None => None,
    };
    let user_entry = match user_section {
        Some(s) => config_member(s, name),
        None => None,
    };
    let effective_entry = match config_member(&layer.effective_config, section) {
        Some(s) => config_member(s, name),
        None => None,
    };
    match (user_entry, effective_entry) {
        (Some(u), Some(e)) => if config_values_equal(u, e) {
            Some(file.clone())
        } else {
            None
        },
        _ => None,
    }
}

fn declares_connector(ids: &Vec<String>, id: &str) -> (r: bool)
    ensures
        r == strings_contain(ids@, id@),
{
    let n = ids.len();
    let mut i: usize = 0;
    while i < n
        invariant
            n == ids@.len(),
            i <= n,
            forall|k: int| 0 <= k < i ==> ids@[k]@ != id@,
        decreases n - i,
    {
        if crate::text::str_eq(ids[i].as_str(), id) {
            return true;
        }
        i = i + 1;
    }
    false
}

fn find_vouching(plugins: &Vec<PluginCandidate>, id: &str) -> (r: Option<String>)
    ensures
        ov(r) == first_vouching(plugins@, id@),
{
    let n = plugins.len();
    let mut i: usize = 0;
    assert(plugins@.subrange(0, n as int) =~= plugins@);
    while i < n
        invariant
            n == plugins@.len(),
            i <= n,
            first_vouching(plugins@, id@) == first_vouching(plugins@.subrange(i as int, n as int), id@),
        decreases n - i,
    {
        let ghost rest = plugins@.subrange(i as int, n as int);
        assert(rest[0] == plugins@[i as int]);
        assert(rest.drop_first() =~= plugins@.subrange(i + 1, n as int));
        let p = &plugins[i];
        if p.active && declares_connector(&p.connector_ids, id) && p.connector_home_owned {
            return Some(p.root.clone());
        }
        i = i + 1;
    }
    assert(plugins@.subrange(n as int, n as int).len() == 0);
    None
}

/// Decides whether a tool under review is trusted, and traces it to its source file.
pub fn trusted_tool_context(
    server_name: &str,
    connector_id: Option<&str>,
    source: &McpToolSource,
    kodex_home: Option<&str>,
    plugins: &Vec<PluginCandidate>,
    plugin_capability_home_owned: bool,
    user_layer: &UserConfigLayer,
) -> (r: Option<TrustedTool>)
    ensures
        match r {
            Some(t) => spec_trusted_source(server_name@, osv(connector_id), *source, osv(kodex_home), plugins@,
                plugin_capability_home_owned, *user_layer) == Some(t.source@)
                && t.server@ == server_name@ && ov(t.connector_id) == osv(connector_id),
            None => spec_trusted_source(server_name@, osv(connector_id), *source, osv(kodex_home), plugins@,
                plugin_capability_home_owned, *user_layer) is None,
        },
{
    let home = match kodex_home {
        Some(h) => h,
        None => return None,
    };
    let traced: Option<String> = match source {
        McpToolSource::Connector => match connector_id {
            Some(id) => match find_vouching(plugins, id) {
                Some(root) => Some(root),
                None => trusted_user_config_source(user_layer, home, "apps", id),
            },
            None => None,
        },
        McpToolSource::Plugin { root } => match root {
            Some(r) => if plugin_capability_home_owned {
                Some(r.clone())
            } else {
                None
            },
            None => None,
        },
        McpToolSource::Config => trusted_user_config_source(user_layer, home, "mcp_servers", server_name),
        McpToolSource::SelectedPlugin | McpToolSource::Other => None,
    };
    match traced {
        Some(s) => Some(TrustedTool {
            server: String::from_str(server_name),
            connector_id: match connector_id {
                Some(c) => Some(String::from_str(c)),
                None => None,
            },
            source: s,
        }),
        None => None,
    }
}

} // verus!

verus! {

/// One outside step of checking a plugin capability, requested by [`CapabilityCheck`].
pub enum CapabilityAction {
    /// Resolve this path and report its canonical form.
    Resolve(String),
    /// Report the index of the first of these paths that is a file.
    FindFirstFile(Vec<String>),
    /// Read this file and report its contents.
    Read(String),
    /// The check is over: whether the capability is home-owned.
    Done(bool),
}

/// The result of the last requested step.
pub enum CapabilityEvent {
    Resolved(Option<String>),
    Found(Option<usize>),
    Read(Option<String>),
}

/// Where a capability check stands.
pub enum CapabilityStage {
    AwaitRoot,
    AwaitManifest { candidates: Vec<String> },
    AwaitManifestResolved { manifest_path: String, manifest_is_root: bool },
    AwaitManifestContents { manifest_path: String, manifest_is_root: bool },
    AwaitDeclarationResolved,
    Finished(bool),
}

/// Checks that a plugin capability is home-owned: the plugin root, its manifest (the
/// first manifest candidate that is a file) and the capability's declaration file all
/// resolve inside the Kodex home. The caller performs each requested step.
pub struct CapabilityCheck {
    pub plugin_root: String,
    pub kodex_home: String,
    pub capability: PluginCapability,
    pub stage: CapabilityStage,
}

/// Does the event answer the step that the stage waits for?
pub open spec fn event_fits(stage: CapabilityStage, event: CapabilityEvent) -> bool {
    match stage {
        CapabilityStage::AwaitRoot => event is Resolved,
        CapabilityStage::AwaitManifest { candidates } => match event {
            CapabilityEvent::Found(Some(i)) => i < candidates@.len(),
            CapabilityEvent::Found(None) => true,
            _ => false,
        },
        CapabilityStage::AwaitManifestResolved { .. } => event is Resolved,
        CapabilityStage::AwaitManifestContents { .. } => event is Read,
        CapabilityStage::AwaitDeclarationResolved => event is Resolved,
        CapabilityStage::Finished(_) => false,
    }
}

pub open spec fn owned(resolved: Option<String>, home: Seq<char>) -> bool {
    match resolved {
        Some(p) => path_starts_with(p@, home),
        None => false,
    }
}

pub open spec fn action_done(a: CapabilityAction, verdict: bool) -> bool {
    a matches CapabilityAction::Done(v) && v == verdict
}

impl CapabilityCheck {
    /// Starts a check: the plugin root is resolved first.
    pub fn start(plugin_root: String, kodex_home: String, capability: PluginCapability) -> (r: (Self, CapabilityAction))
        ensures
            r.0.plugin_root == plugin_root,
            r.0.kodex_home == kodex_home,
            r.0.capability == capability,
            r.0.stage is AwaitRoot,
            r.1 matches CapabilityAction::Resolve(p) && p@ == plugin_root@,
    {
        let action = CapabilityAction::Resolve(plugin_root.clone());
        (CapabilityCheck { plugin_root, kodex_home, capability, stage: CapabilityStage::AwaitRoot }, action)
    }

    /// Advances the check by the result of the step it asked for, and asks for the next.
    pub fn step(&mut self, event: CapabilityEvent) -> (r: CapabilityAction)
        requires
            event_fits(old(self).stage, event),
        ensures
            final(self).plugin_root == old(self).plugin_root,
            final(self).kodex_home == old(self).kodex_home,
            final(self).capability == old(self).capability,
            r matches CapabilityAction::Done(v) ==> final(self).stage == CapabilityStage::Finished(v),
            match (old(self).stage, event) {
                (CapabilityStage::AwaitRoot, CapabilityEvent::Resolved(c)) => if owned(c, old(self).kodex_home@) {
                    (r matches CapabilityAction::FindFirstFile(cs)
                        && cs@.map_values(|s: String| s@) == spec_manifest_candidates(old(self).plugin_root@))
                        && (final(self).stage matches CapabilityStage::AwaitManifest { candidates }
                        && candidates@.map_values(|s: String| s@) == spec_manifest_candidates(old(self).plugin_root@))
                } else {
                    action_done(r, false)
                },
                (CapabilityStage::AwaitManifest { candidates }, CapabilityEvent::Found(f)) => match f {
                    Some(i) => (r matches CapabilityAction::Resolve(p) && p@ == candidates@[i as int]@)
                        && (final(self).stage matches CapabilityStage::AwaitManifestResolved { manifest_path, manifest_is_root }
                        && manifest_path@ == candidates@[i as int]@ && manifest_is_root == (i == 0)),
                    None => action_done(r, false),
                },
                (CapabilityStage::AwaitManifestResolved { manifest_path, manifest_is_root }, CapabilityEvent::Resolved(c)) =>
                    if owned(c, old(self).kodex_home@) {
                        (r matches CapabilityAction::Read(p) && p@ == manifest_path@)
                            && (final(self).stage matches CapabilityStage::AwaitManifestContents { manifest_path: m2, manifest_is_root: r2 }
                            && m2@ == manifest_path@ && r2 == manifest_is_root)
                    } else {
                        action_done(r, false)
                    },
                (CapabilityStage::AwaitManifestContents { manifest_path, manifest_is_root }, CapabilityEvent::Read(contents)) =>
                    match contents {
                        Some(text) => match serde_json_from_str(text@) {
                            Some(m) => match spec_declaration_path(old(self).plugin_root@, manifest_path@, manifest_is_root, old(self).capability, m) {
                                Some(d) => r matches CapabilityAction::Resolve(p) && p@ == d
                                    && final(self).stage is AwaitDeclarationResolved,
                                None => action_done(r, false),
                            },
                            None => action_done(r, false),
                        },
                        None => action_done(r, false),
                    },
                (CapabilityStage::AwaitDeclarationResolved, CapabilityEvent::Resolved(c)) => action_done(r, owned(c, old(self).kodex_home@)),
                _ => false,
            },
    {
        let mut stage = CapabilityStage::Finished(false);
        std::mem::swap(&mut stage, &mut self.stage);
        let home = self.kodex_home.as_str();
        let action = match (stage, event) {
            (CapabilityStage::AwaitRoot, CapabilityEvent::Resolved(c)) => {
                let ok = match &c {
                    Some(p) => path_has_prefix(p.as_str(), home),
                    None => false,
                };
                if ok {
                    self.stage = CapabilityStage::AwaitManifest { candidates: manifest_candidates(self.plugin_root.as_str()) };
                    CapabilityAction::FindFirstFile(manifest_candidates(self.plugin_root.as_str()))
                } else {
                    CapabilityAction::Done(false)
                }
            },
            (CapabilityStage::AwaitManifest { candidates }, CapabilityEvent::Found(f)) => match f {
                Some(i) => {
                    let manifest_path = String::from_str(candidates[i].as_str());
                    let action = CapabilityAction::Resolve(String::from_str(candidates[i].as_str()));
                    self.stage = CapabilityStage::AwaitManifestResolved { manifest_path, manifest_is_root: i == 0 };
                    action
                },
                None => CapabilityAction::Done(false),
            },
            (CapabilityStage::AwaitManifestResolved { manifest_path, manifest_is_root }, CapabilityEvent::Resolved(c)) => {
                let ok = match &c {
                    Some(p) => path_has_prefix(p.as_str(), home),
                    None => false,
                };
                if ok {
                    let action = CapabilityAction::Read(String::from_str(manifest_path.as_str()));
                    self.stage = CapabilityStage::AwaitManifestContents { manifest_path, manifest_is_root };
                    action
                } else {
                    CapabilityAction::Done(false)
                }
            },
            (CapabilityStage::AwaitManifestContents { manifest_path, manifest_is_root }, CapabilityEvent::Read(contents)) => {
                match contents {
                    Some(text) => match plugin_declaration_path(
                        self.plugin_root.as_str(),
                        manifest_path.as_str(),
                        manifest_is_root,
                        self.capability,
                        text.as_str(),
                    ) {
                        Some(d) => {
                            self.stage = CapabilityStage::AwaitDeclarationResolved;
                            CapabilityAction::Resolve(d)
                        },
                        None => CapabilityAction::Done(false),
                    },
                    None => CapabilityAction::Done(false),
                }
            },
            (CapabilityStage::AwaitDeclarationResolved, CapabilityEvent::Resolved(c)) => {
                let ok = match &c {
                    Some(p) => path_has_prefix(p.as_str(), home),
                    None => false,
                };
                CapabilityAction::Done(ok)
            },
            _ => CapabilityAction::Done(false),
        };
        match &action {
            CapabilityAction::Done(v) => {
                self.stage = CapabilityStage::Finished(*v);
            },
            _ => {},
        }
        action
    }
}

} // verus!
