//! Which memory pipelines start with a session, and where memories live.

use vstd::prelude::*;
use crate::trusted_tools::{join_path, path_join};

verus! {

/// The memory layout versions.
#[derive(Clone, Copy, Debug, PartialEq, Eq, Structural)]
pub enum MemoryVersion {
    V1,
    V2,
}

/// The memory settings of a session's configuration.
#[derive(Clone, Copy)]
pub struct MemoryStartupConfig {
    pub ephemeral: bool,
    pub memory_tool_enabled: bool,
    pub dual_write: bool,
    pub version: MemoryVersion,
}

/// The versions whose startup pipelines run: none for ephemeral sessions, with the memory
/// tool disabled, or for subagents; both versions under dual write; otherwise the
/// configured version.
pub open spec fn spec_startup_versions(config: MemoryStartupConfig, is_non_root_agent: bool) -> Seq<MemoryVersion> {
    if config.ephemeral || !config.memory_tool_enabled || is_non_root_agent {
        Seq::empty()
    } else if config.dual_write {
        seq![MemoryVersion::V1, MemoryVersion::V2]
    } else {
        seq![config.version]
    }
}

pub fn memory_startup_versions(config: &MemoryStartupConfig, is_non_root_agent: bool) -> (r: Vec<MemoryVersion>)
    ensures
        r@ == spec_startup_versions(*config, is_non_root_agent),
{
    let mut r: Vec<MemoryVersion> = Vec::new();
    if config.ephemeral || !config.memory_tool_enabled || is_non_root_agent {
        return r;
    }
    if config.dual_write {
        r.push(MemoryVersion::V1);
        r.push(MemoryVersion::V2);
    } else {
        r.push(config.version);
    }
    assert(r@ =~= spec_startup_versions(*config, is_non_root_agent));
    r
}

/// The configuration that the pipeline of `version` runs with: the session's own,
/// with the memory version replaced.
pub open spec fn pipeline_config(config: MemoryStartupConfig, version: MemoryVersion) -> MemoryStartupConfig {
    MemoryStartupConfig { version, ..config }
}

/// The configurations of the startup pipelines, one per version that
/// [`spec_startup_versions`] starts, in the same order.
pub fn memory_pipeline_configs(config: &MemoryStartupConfig, is_non_root_agent: bool) -> (r: Vec<MemoryStartupConfig>)
    ensures
        r@.len() == spec_startup_versions(*config, is_non_root_agent).len(),
        forall|i: int| 0 <= i < r@.len() ==> #[trigger] r@[i] == pipeline_config(*config, spec_startup_versions(*config, is_non_root_agent)[i]),
{
    let versions = memory_startup_versions(config, is_non_root_agent);
    let mut r: Vec<MemoryStartupConfig> = Vec::new();
    let n = versions.len();
    let mut i: usize = 0;
    while i < n
        invariant
            n == versions@.len(),
            versions@ == spec_startup_versions(*config, is_non_root_agent),
            i <= n,
            r@.len() == i,
            forall|k: int| 0 <= k < i ==> #[trigger] r@[k] == pipeline_config(*config, versions@[k]),
        decreases n - i,
    {
        let mut c = *config;
        c.version = versions[i];
        r.push(c);
        i = i + 1;
    }
    r
}

/// The folder a version's pipeline prepares: the version's directory under the Kodex
/// home (`directory_name` is what `MemoryVersion::directory_name` gives).
pub fn pipeline_memory_root(kodex_home: &str, directory_name: &str) -> (r: String)
    ensures
        r@ == path_join(kodex_home@, directory_name@),
{
    join_path(kodex_home, directory_name)
}

/// The memory folder: `memories` under the Kodex home.
pub fn memory_root(kodex_home: &str) -> (r: String)
    ensures
        r@ == path_join(kodex_home@, "memories"@),
{
    join_path(kodex_home, "memories")
}

/// An eligible session (not ephemeral, memory tool on, a root agent) starts the
/// configured version alone, or both versions in order under dual write; any other
/// session starts none. Each pipeline runs with its own version and otherwise the
/// session's settings.
pub proof fn law_startup_versions_follow_the_configuration(config: MemoryStartupConfig, is_non_root_agent: bool)
    ensures
        !config.ephemeral && config.memory_tool_enabled && !is_non_root_agent && !config.dual_write
            ==> spec_startup_versions(config, is_non_root_agent) == seq![config.version],
        !config.ephemeral && config.memory_tool_enabled && !is_non_root_agent && config.dual_write
            ==> spec_startup_versions(config, is_non_root_agent) == seq![MemoryVersion::V1, MemoryVersion::V2],
        config.ephemeral || !config.memory_tool_enabled || is_non_root_agent
            ==> spec_startup_versions(config, is_non_root_agent).len() == 0,
        forall|v: MemoryVersion| #[trigger] pipeline_config(config, v).version == v
            && pipeline_config(config, v).ephemeral == config.ephemeral
            && pipeline_config(config, v).memory_tool_enabled == config.memory_tool_enabled
            && pipeline_config(config, v).dual_write == config.dual_write,
{
}

} // verus!
