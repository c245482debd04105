//! Rules for interrupting and resuming spawned agents: which targets may be
//! interrupted, which failures of the interruption still count as success, and when a
//! missing runtime is reopened from its rollout.

use vstd::prelude::*;
use crate::error::{KodexErr, KodexErrView};

verus! {

/// A thread identifier.
pub type ThreadId = u128;

/// The registered facts about an interruption target: its agent path, if it has one,
/// and whether that path is the root.
#[derive(Clone, Copy, Debug, PartialEq, Eq, Structural)]
pub struct AgentPathInfo {
    pub is_root: bool,
}

pub const ROOT_NOT_SPAWNED: &'static str = "root is not a spawned agent";
pub const SELF_INTERRUPT: &'static str =
    "an agent cannot interrupt itself; return your result and let the parent interrupt you if needed";
pub const MISSING_AGENT_PATH: &'static str = "target agent is missing an agent_path";

/// The refusal, if any, of interrupting `target` on behalf of `caller`: the root cannot
/// be interrupted, an agent cannot interrupt itself, and the target needs an agent path.
pub open spec fn spec_interrupt_refusal(caller: ThreadId, target: ThreadId, path: Option<&AgentPathInfo>) -> Option<KodexErrView> {
    if path matches Some(p) && p.is_root {
        Some(KodexErrView::UnsupportedOperation(ROOT_NOT_SPAWNED@))
    } else if target == caller {
        Some(KodexErrView::UnsupportedOperation(SELF_INTERRUPT@))
    } else if path is None {
        Some(KodexErrView::UnsupportedOperation(MISSING_AGENT_PATH@))
    } else {
        None
    }
}

/// Checks, in order, the rules for interrupting a spawned agent.
pub fn check_interrupt_target(caller: ThreadId, target: ThreadId, path: Option<&AgentPathInfo>) -> (r: Result<(), KodexErr>)
    ensures
        match r {
            Ok(()) => spec_interrupt_refusal(caller, target, path) is None,
            Err(e) => spec_interrupt_refusal(caller, target, path) == Some(e.view()),
        },
{
    let is_root = match path {
        Some(p) => p.is_root,
        None => false,
    };
    if is_root {
        return Err(KodexErr::UnsupportedOperation(String::from_str(ROOT_NOT_SPAWNED)));
    }
    if target == caller {
        return Err(KodexErr::UnsupportedOperation(String::from_str(SELF_INTERRUPT)));
    }
    if path.is_none() {
        return Err(KodexErr::UnsupportedOperation(String::from_str(MISSING_AGENT_PATH)));
    }
    Ok(())
}

/// An interruption that failed because the runtime is already gone (not loaded, or
/// dead) has still succeeded; any other failure is reported.
pub fn interrupt_failure_is_success(err: &KodexErr) -> (r: bool)
    ensures
        r == (err.view() is ThreadNotFound || err.view() is InternalAgentDied),
{
    match err {
        KodexErr::ThreadNotFound(_) => true,
        KodexErr::InternalAgentDied => true,
        _ => false,
    }
}

/// A thread lookup that failed because the thread is not loaded is answered by reopening
/// it from its rollout; any other failure is reported.
pub fn resume_from_rollout_on(err: &KodexErr) -> (r: bool)
    ensures
        r == (err.view() is ThreadNotFound),
{
    match err {
        KodexErr::ThreadNotFound(_) => true,
        _ => false,
    }
}

} // verus!
