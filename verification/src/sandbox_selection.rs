//! Resolves an executor's Windows sandbox selection to the sandbox request it makes.

use vstd::prelude::*;
use crate::windows_sandbox::{SandboxType, WindowsSandboxLevel};

verus! {

/// The Windows sandbox an executor's file-system context selects.
#[derive(Clone, Copy, Debug, PartialEq, Eq, Structural)]
pub enum WindowsSandboxSelection {
    Disabled,
    RestrictedToken,
    Elevated,
    Mxc,
}

/// What the selection asks of sandbox selection: the MXC sandbox outright, or an initial
/// selection that may use the given Windows sandbox type, at the given setup level.
#[derive(Clone, Copy, Debug, PartialEq, Eq, Structural)]
pub enum SandboxRequest {
    Mxc,
    Select { level: WindowsSandboxLevel, windows_sandbox_type: SandboxType },
}

/// MXC is chosen outright; otherwise the level follows the selection, and any enabled
/// level offers the restricted-token sandbox to the initial selection.
pub open spec fn spec_sandbox_request(selection: WindowsSandboxSelection) -> SandboxRequest {
    match selection {
        WindowsSandboxSelection::Mxc => SandboxRequest::Mxc,
        WindowsSandboxSelection::Disabled => SandboxRequest::Select {
            level: WindowsSandboxLevel::Disabled,
            windows_sandbox_type: SandboxType::NoSandbox,
        },
        WindowsSandboxSelection::RestrictedToken => SandboxRequest::Select {
            level: WindowsSandboxLevel::RestrictedToken,
            windows_sandbox_type: SandboxType::WindowsRestrictedToken,
        },
        WindowsSandboxSelection::Elevated => SandboxRequest::Select {
            level: WindowsSandboxLevel::Elevated,
            windows_sandbox_type: SandboxType::WindowsRestrictedToken,
        },
    }
}

pub fn windows_sandbox_request(selection: WindowsSandboxSelection) -> (r: SandboxRequest)
    ensures
        r == spec_sandbox_request(selection),
{
    let level = match selection {
        WindowsSandboxSelection::Disabled => WindowsSandboxLevel::Disabled,
        WindowsSandboxSelection::RestrictedToken => WindowsSandboxLevel::RestrictedToken,
        WindowsSandboxSelection::Elevated => WindowsSandboxLevel::Elevated,
        WindowsSandboxSelection::Mxc => return SandboxRequest::Mxc,
    };
    let windows_sandbox_type = match level {
        WindowsSandboxLevel::Disabled => SandboxType::NoSandbox,
        WindowsSandboxLevel::RestrictedToken | WindowsSandboxLevel::Elevated => SandboxType::WindowsRestrictedToken,
    };
    SandboxRequest::Select { level, windows_sandbox_type }
}

/// The result of sandbox selection: MXC without a level, or the initially selected
/// sandbox (`initial`, chosen by the sandbox manager for the request) with the level.
pub fn select_sandbox(request: SandboxRequest, initial: SandboxType) -> (r: (SandboxType, Option<WindowsSandboxLevel>))
    ensures
        r == match request {
            SandboxRequest::Mxc => (SandboxType::WindowsMxc, None::<WindowsSandboxLevel>),
            SandboxRequest::Select { level, .. } => (initial, Some(level)),
        },
{
    match request {
        SandboxRequest::Mxc => (SandboxType::WindowsMxc, None),
        SandboxRequest::Select { level, .. } => (initial, Some(level)),
    }
}

/// Apart from MXC, which is chosen outright, the request's level is the selected one,
/// and the restricted-token sandbox is offered exactly when that level is enabled.
pub proof fn law_enabled_levels_offer_restricted_token(selection: WindowsSandboxSelection)
    ensures
        selection == WindowsSandboxSelection::Mxc <==> spec_sandbox_request(selection) is Mxc,
        selection != WindowsSandboxSelection::Mxc ==> (spec_sandbox_request(selection)
            matches SandboxRequest::Select { level, windows_sandbox_type } && {
            &&& (level == WindowsSandboxLevel::Disabled <==> selection == WindowsSandboxSelection::Disabled)
            &&& (level == WindowsSandboxLevel::RestrictedToken <==> selection == WindowsSandboxSelection::RestrictedToken)
            &&& (level == WindowsSandboxLevel::Elevated <==> selection == WindowsSandboxSelection::Elevated)
            &&& (windows_sandbox_type == SandboxType::NoSandbox <==> level == WindowsSandboxLevel::Disabled)
            &&& (level != WindowsSandboxLevel::Disabled ==> windows_sandbox_type == SandboxType::WindowsRestrictedToken)
        }),
{
}

} // verus!
