//! Rules of the agent message board: binding a thread to the board its factory opened,
//! and what a notification became.

use vstd::prelude::*;
use crate::error::{KodexErr, KodexErrView};
use crate::text::ov;

verus! {

/// What became of a notification: delivered to an active agent, or skipped because
/// the recipient was inactive.
#[derive(Clone, Copy, Debug, PartialEq, Eq, Structural)]
pub enum NotificationDelivery {
    Accepted,
    SkippedInactive,
}

pub const FOREIGN_TREE_MESSAGE: &'static str = "message-board factory returned another tree";

/// Decides what to do with the board a factory opened for session tree `tree`
/// (`board_identity` is the opened board's tree, `None` when the factory opened none):
/// no board binds nothing, a board of the same tree is bound, and a board of another
/// tree is refused.
pub fn check_board_identity(tree: u128, board_identity: Option<u128>) -> (r: Result<bool, KodexErr>)
    ensures
        match board_identity {
            None => r == Ok::<bool, KodexErr>(false),
            Some(id) => if id == tree {
                r == Ok::<bool, KodexErr>(true)
            } else {
                r matches Err(e) && e.view() == KodexErrView::InvalidRequest(FOREIGN_TREE_MESSAGE@)
            },
        },
{
    match board_identity {
        None => Ok(false),
        Some(id) => if id == tree {
            Ok(true)
        } else {
            Err(KodexErr::InvalidRequest(String::from_str(FOREIGN_TREE_MESSAGE)))
        },
    }
}

pub const INVALID_SESSION_IDENTITY_MESSAGE: &'static str = "invalid board session identity";
pub const INVALID_CALLER_IDENTITY_MESSAGE: &'static str = "invalid board caller identity";
/// The warning shown when a thread's board could not be set up.
pub const BOARD_INIT_WARNING: &'static str =
    "Agent message-board initialization failed; its tools are unavailable for this runtime.";

/// The first step of binding a thread to its board: both identities must parse
/// (`None` when they do not); then the board of the session tree is opened for the caller.
pub enum BoardOpen {
    Open { tree: u128, caller: u128 },
    Failed(KodexErr),
}

/// Decides whether the board can be opened, from the parsed session and caller ids.
pub fn board_open_request(tree: Option<u128>, caller: Option<u128>) -> (r: BoardOpen)
    ensures
        match (tree, caller) {
            (None, _) => r matches BoardOpen::Failed(e) && e.view() == KodexErrView::InvalidRequest(INVALID_SESSION_IDENTITY_MESSAGE@),
            (Some(_), None) => r matches BoardOpen::Failed(e) && e.view() == KodexErrView::InvalidRequest(INVALID_CALLER_IDENTITY_MESSAGE@),
            (Some(t), Some(c)) => r matches BoardOpen::Open { tree: t2, caller: c2 } && t2 == t && c2 == c,
        },
{
    match tree {
        None => BoardOpen::Failed(KodexErr::InvalidRequest(String::from_str(INVALID_SESSION_IDENTITY_MESSAGE))),
        Some(t) => match caller {
            None => BoardOpen::Failed(KodexErr::InvalidRequest(String::from_str(INVALID_CALLER_IDENTITY_MESSAGE))),
            Some(c) => BoardOpen::Open { tree: t, caller: c },
        },
    }
}

/// What thread start does with the result of opening the board.
pub enum BoardBinding {
    /// No board: nothing is bound and nothing is reported.
    Unbound,
    /// Bind the board for `caller`, with the tool namespace that the host's configuration
    /// gives, at the agent's path (`None`: the root path).
    Bind { caller: u128, namespace: Option<String>, agent_path: Option<String> },
    /// Setup failed: the thread gets no board tools and [`BOARD_INIT_WARNING`] is shown.
    Warn,
}

/// Decides the binding from the result of opening the board of tree `tree` for `caller`
/// (`opened` is the opened board's tree, `None` when the factory opened none): a failure
/// to open, or a board of another tree, is reported by the warning and binds nothing.
pub fn board_binding(
    tree: u128,
    caller: u128,
    opened: Result<Option<u128>, KodexErr>,
    namespace: Option<String>,
    agent_path: Option<String>,
) -> (r: BoardBinding)
    ensures
        match opened {
            Err(_) => r is Warn,
            Ok(None) => r is Unbound,
            Ok(Some(id)) => if id == tree {
                r matches BoardBinding::Bind { caller: c, namespace: n, agent_path: p } && c == caller
                    && ov(n) == ov(namespace) && ov(p) == ov(agent_path)
            } else {
                r is Warn
            },
        },
{
    match opened {
        Err(_) => BoardBinding::Warn,
        Ok(identity) => match check_board_identity(tree, identity) {
            Ok(true) => BoardBinding::Bind { caller, namespace, agent_path },
            Ok(false) => BoardBinding::Unbound,
            Err(_) => BoardBinding::Warn,
        },
    }
}

/// What thread start does, from the parsed session and caller ids (`None` when they
/// do not parse) and the result of opening the board (`None` when it was not opened,
/// which happens only when an id did not parse): any failure (an id that does not
/// parse, a failed open, a board of another tree) shows [`BOARD_INIT_WARNING`] and
/// binds nothing; no board binds nothing silently; the board of the session tree is
/// bound for the caller with the host's tool namespace and the agent's path.
pub fn thread_start_binding(
    tree: Option<u128>,
    caller: Option<u128>,
    opened: Option<Result<Option<u128>, KodexErr>>,
    namespace: Option<String>,
    agent_path: Option<String>,
) -> (r: BoardBinding)
    requires
        tree is Some && caller is Some ==> opened is Some,
    ensures
        match (tree, caller) {
            (Some(t), Some(c)) => match opened {
                Some(Err(_)) => r is Warn,
                Some(Ok(None)) => r is Unbound,
                Some(Ok(Some(id))) => if id == t {
                    r matches BoardBinding::Bind { caller: c2, namespace: n, agent_path: p } && c2 == c
                        && ov(n) == ov(namespace) && ov(p) == ov(agent_path)
                } else {
                    r is Warn
                },
                None => false,
            },
            _ => r is Warn,
        },
{
    match board_open_request(tree, caller) {
        BoardOpen::Failed(_) => BoardBinding::Warn,
        BoardOpen::Open { tree: t, caller: c } => match opened {
            Some(result) => board_binding(t, c, result, namespace, agent_path),
            None => BoardBinding::Warn,
        },
    }
}

} // verus!
