//! Paths an executor needs at startup, checked to be absolute.

use vstd::prelude::*;

verus! {

/// What `std::path::Path::is_absolute` says of a path.
pub uninterp spec fn path_is_absolute(path: Seq<char>) -> bool;

/// Calls `Path::new(path).is_absolute()`. Claimed: the result is the named property.
#[verifier::external_body]
fn is_absolute(path: &str) -> (r: bool)
    ensures
        r == path_is_absolute(path@),
{
    std::path::Path::new(path).is_absolute()
}

/// Why runtime paths were refused (all are invalid-input errors).
pub enum RuntimePathsError {
    /// No Kodex executable path was configured.
    NotConfigured,
    /// The path is not absolute.
    NotAbsolute(String),
}

pub const NOT_CONFIGURED_MESSAGE: &'static str = "Kodex executable path is not configured";

/// Paths used when creating an executor.
pub struct ExecServerRuntimePaths {
    /// Stable path to the Kodex executable used to launch hidden helper modes.
    pub kodex_self_exe: String,
    /// Path to the Linux sandbox helper alias, when the platform sandbox re-enters Kodex.
    pub kodex_linux_sandbox_exe: Option<String>,
}

pub open spec fn paths_ok(self_exe: Seq<char>, sandbox_exe: Option<String>) -> bool {
    path_is_absolute(self_exe) && (sandbox_exe matches Some(p) ==> path_is_absolute(p@))
}

fn absolute_path(path: String) -> (r: Result<String, RuntimePathsError>)
    ensures
        match r {
            Ok(p) => p == path && path_is_absolute(path@),
            Err(RuntimePathsError::NotAbsolute(p)) => p == path && !path_is_absolute(path@),
            Err(_) => false,
        },
{
    if is_absolute(path.as_str()) {
        Ok(path)
    } else {
        Err(RuntimePathsError::NotAbsolute(path))
    }
}

impl ExecServerRuntimePaths {
    /// Accepts the paths when each is absolute; the executable path is checked first.
    pub fn new(kodex_self_exe: String, kodex_linux_sandbox_exe: Option<String>) -> (r: Result<Self, RuntimePathsError>)
        ensures
            match r {
                Ok(p) => p.kodex_self_exe == kodex_self_exe && p.kodex_linux_sandbox_exe == kodex_linux_sandbox_exe
                    && paths_ok(kodex_self_exe@, kodex_linux_sandbox_exe),
                Err(RuntimePathsError::NotAbsolute(p)) => if !path_is_absolute(kodex_self_exe@) {
                    p == kodex_self_exe
                } else {
                    kodex_linux_sandbox_exe == Some(p) && !path_is_absolute(p@)
                },
                Err(RuntimePathsError::NotConfigured) => false,
            },
    {
        let kodex_self_exe = absolute_path(kodex_self_exe)?;
        let kodex_linux_sandbox_exe = match kodex_linux_sandbox_exe {
            Some(p) => Some(absolute_path(p)?),
            None => None,
        };
        Ok(ExecServerRuntimePaths { kodex_self_exe, kodex_linux_sandbox_exe })
    }

    /// As [`ExecServerRuntimePaths::new`], but refuses a missing executable path.
    pub fn from_optional_paths(kodex_self_exe: Option<String>, kodex_linux_sandbox_exe: Option<String>) -> (r: Result<Self, RuntimePathsError>)
        ensures
            kodex_self_exe is None ==> r matches Err(RuntimePathsError::NotConfigured),
            kodex_self_exe matches Some(e) ==> match r {
                Ok(p) => p.kodex_self_exe == e && p.kodex_linux_sandbox_exe == kodex_linux_sandbox_exe
                    && paths_ok(e@, kodex_linux_sandbox_exe),
                Err(RuntimePathsError::NotAbsolute(p)) => if !path_is_absolute(e@) {
                    p == e
                } else {
                    kodex_linux_sandbox_exe == Some(p) && !path_is_absolute(p@)
                },
                Err(RuntimePathsError::NotConfigured) => false,
            },
    {
        let kodex_self_exe = match kodex_self_exe {
            Some(e) => e,
            None => return Err(RuntimePathsError::NotConfigured),
        };
        Self::new(kodex_self_exe, kodex_linux_sandbox_exe)
    }
}

} // verus!
