//! When the debug sandbox loads the cloud configuration bundle.

use vstd::prelude::*;

verus! {

/// Whether managed requirements are applied to the debug sandbox.
#[derive(Clone, Copy, Debug, PartialEq, Eq, Structural)]
pub enum ManagedRequirementsMode {
    Include,
    Exclude,
}

/// The bundle is loaded only for a run with a permissions profile that includes managed
/// requirements; any other run uses the default (empty) bundle loader.
pub fn needs_cloud_config_bundle(has_permissions_profile: bool, mode: ManagedRequirementsMode) -> (r: bool)
    ensures
        r == (has_permissions_profile && mode == ManagedRequirementsMode::Include),
{
    has_permissions_profile && mode == ManagedRequirementsMode::Include
}

} // verus!
