//! Maps failures of session initialization onto runtime errors with actionable hints
//! about the session storage under the Kodex home.

use vstd::prelude::*;
use crate::error::{KodexErr, KodexErrView};
use crate::trusted_tools::{join_path, path_join};

verus! {

/// The directory, under the Kodex home, that holds session files.
pub const SESSIONS_SUBDIR: &'static str = "sessions";

/// The kinds of I/O failure that get a storage hint.
#[derive(Clone, Copy, Debug, PartialEq, Eq, Structural)]
pub enum IoErrorKind {
    PermissionDenied,
    NotFound,
    AlreadyExists,
    InvalidData,
    IsADirectory,
    NotADirectory,
    Other,
}

/// The hint for an I/O failure on the session storage, if its kind has one.
pub open spec fn spec_rollout_hint(kind: IoErrorKind, sessions: Seq<char>, home: Seq<char>) -> Option<Seq<char>> {
    match kind {
        IoErrorKind::PermissionDenied => Some("Kodex cannot access session files at "@ + sessions
            + " (permission denied). If sessions were created using sudo, fix ownership: sudo chown -R $(whoami) "@ + home),
        IoErrorKind::NotFound => Some("Session storage missing at "@ + sessions
            + ". Create the directory or choose a different Kodex home."@),
        IoErrorKind::AlreadyExists => Some("Session storage path "@ + sessions
            + " is blocked by an existing file. Remove or rename it so Kodex can create sessions."@),
        IoErrorKind::InvalidData => Some("Session data under "@ + sessions
            + " looks corrupt or unreadable. Clearing the sessions directory may help (this will remove saved threads)."@),
        IoErrorKind::IsADirectory | IoErrorKind::NotADirectory => Some("Session storage path "@ + sessions
            + " has an unexpected type. Ensure it is a directory Kodex can use for session files."@),
        IoErrorKind::Other => None,
    }
}

/// The error for an I/O failure on the session storage: the hint and the underlying
/// error, or nothing for a kind without a hint.
pub open spec fn spec_map_rollout_io_error(kind: IoErrorKind, io_error: Seq<char>, kodex_home: Seq<char>) -> Option<KodexErrView> {
    match spec_rollout_hint(kind, path_join(kodex_home, SESSIONS_SUBDIR@), kodex_home) {
        Some(h) => Some(KodexErrView::Fatal(h + " (underlying error: "@ + io_error + ")"@)),
        None => None,
    }
}

fn concat3(a: &str, b: &str, c: &str) -> (r: String)
    ensures
        r@ == a@ + b@ + c@,
{
    let mut r = String::from_str(a);
    r.append(b);
    r.append(c);
    r
}

fn concat4(a: &str, b: &str, c: &str, d: &str) -> (r: String)
    ensures
        r@ == a@ + b@ + c@ + d@,
{
    let mut r = concat3(a, b, c);
    r.append(d);
    r
}

/// Maps an I/O failure of the session storage under `kodex_home`; `io_error` is the
/// failure as text.
pub fn map_rollout_io_error(kind: IoErrorKind, io_error: &str, kodex_home: &str) -> (r: Option<KodexErr>)
    ensures
        match r {
            Some(e) => spec_map_rollout_io_error(kind, io_error@, kodex_home@) == Some(e.view()),
            None => spec_map_rollout_io_error(kind, io_error@, kodex_home@) is None,
        },
{
    let sessions_dir = join_path(kodex_home, SESSIONS_SUBDIR);
    let sessions = sessions_dir.as_str();
    let hint = match kind {
        IoErrorKind::PermissionDenied => concat4("Kodex cannot access session files at ",
            sessions,
            " (permission denied). If sessions were created using sudo, fix ownership: sudo chown -R $(whoami) ",
            kodex_home),
        IoErrorKind::NotFound => concat3("Session storage missing at ",
            sessions,
            ". Create the directory or choose a different Kodex home."),
        IoErrorKind::AlreadyExists => concat3("Session storage path ",
            sessions,
            " is blocked by an existing file. Remove or rename it so Kodex can create sessions."),
        IoErrorKind::InvalidData => concat3("Session data under ",
            sessions,
            " looks corrupt or unreadable. Clearing the sessions directory may help (this will remove saved threads)."),
        IoErrorKind::IsADirectory | IoErrorKind::NotADirectory => concat3("Session storage path ",
            sessions,
            " has an unexpected type. Ensure it is a directory Kodex can use for session files."),
        IoErrorKind::Other => return None,
    };
    let message = concat4(hint.as_str(), " (underlying error: ", io_error, ")");
    Some(KodexErr::Fatal(message))
}

} // verus!

verus! {

/// Failures reported by the thread store.
pub enum ThreadStoreError {
    Unsupported { operation: String },
    Conflict { message: String },
    ThreadNotFound { thread_id: String },
    InvalidRequest { message: String },
    Internal { message: String },
}

/// One cause in an error's chain of sources.
pub enum ErrorCause {
    Store(ThreadStoreError),
    Io { kind: IoErrorKind, message: String },
    Other,
}

/// A session initialization failure: its chain of causes, outermost first, and the
/// whole chain rendered as text (`{:#}`).
pub struct SessionInitFailure {
    pub chain: Vec<ErrorCause>,
    pub rendered: String,
}

/// The error that the first thread-store cause decides, if that cause decides one.
pub open spec fn spec_store_decision(chain: Seq<ErrorCause>) -> Option<KodexErrView>
    decreases chain.len(),
{
    if chain.len() == 0 {
        None
    } else {
        match chain[0] {
            ErrorCause::Store(ThreadStoreError::Unsupported { operation }) => Some(
                KodexErrView::UnsupportedOperation(operation@ + " is not supported yet"@),
            ),
            ErrorCause::Store(ThreadStoreError::Conflict { message }) => Some(KodexErrView::InvalidRequest(message@)),
            ErrorCause::Store(_) => None,
            _ => spec_store_decision(chain.drop_first()),
        }
    }
}

/// The error of the first I/O cause that has a storage hint.
pub open spec fn spec_io_decision(chain: Seq<ErrorCause>, kodex_home: Seq<char>) -> Option<KodexErrView>
    decreases chain.len(),
{
    if chain.len() == 0 {
        None
    } else {
        match chain[0] {
            ErrorCause::Io { kind, message } => match spec_map_rollout_io_error(kind, message@, kodex_home) {
                Some(e) => Some(e),
                None => spec_io_decision(chain.drop_first(), kodex_home),
            },
            _ => spec_io_decision(chain.drop_first(), kodex_home),
        }
    }
}

/// A store conflict or unsupported operation keeps its meaning; otherwise an I/O cause
/// on the storage gets its hint; otherwise initialization failed fatally.
pub open spec fn spec_map_session_init_error(err: SessionInitFailure, kodex_home: Seq<char>) -> KodexErrView {
    match spec_store_decision(err.chain@) {
        Some(e) => e,
        None => match spec_io_decision(err.chain@, kodex_home) {
            Some(e) => e,
            None => KodexErrView::Fatal("Failed to initialize session: "@ + err.rendered@),
        },
    }
}

pub fn map_session_init_error(err: &SessionInitFailure, kodex_home: &str) -> (r: KodexErr)
    ensures
        r.view() == spec_map_session_init_error(*err, kodex_home@),
{
    let n = err.chain.len();
    let mut i: usize = 0;
    assert(err.chain@.subrange(0, n as int) =~= err.chain@);
    while i < n
        invariant_except_break
            n == err.chain@.len(),
            i <= n,
            spec_store_decision(err.chain@) == spec_store_decision(err.chain@.subrange(i as int, n as int)),
        ensures
            spec_store_decision(err.chain@) is None,
        decreases n - i,
    {
        let ghost rest = err.chain@.subrange(i as int, n as int);
        assert(rest[0] == err.chain@[i as int]);
        assert(rest.drop_first() =~= err.chain@.subrange(i + 1, n as int));
        match &err.chain[i] {
            ErrorCause::Store(store) => {
                match store {
                    ThreadStoreError::Unsupported { operation } => {
                        let mut m = operation.clone();
                        m.append(" is not supported yet");
                        return KodexErr::UnsupportedOperation(m);
                    },
                    ThreadStoreError::Conflict { message } => {
                        return KodexErr::InvalidRequest(message.clone());
                    },
                    _ => {
                        assert(spec_store_decision(rest) is None);
                        break;
                    },
                }
            },
            _ => {},
        }
        i = i + 1;
        assert(i == n ==> err.chain@.subrange(i as int, n as int).len() == 0);
    }
    let mut j: usize = 0;
    while j < n
        invariant
            n == err.chain@.len(),
            j <= n,
            spec_store_decision(err.chain@) is None,
            spec_io_decision(err.chain@, kodex_home@) == spec_io_decision(err.chain@.subrange(j as int, n as int), kodex_home@),
        decreases n - j,
    {
        let ghost rest = err.chain@.subrange(j as int, n as int);
        assert(rest[0] == err.chain@[j as int]);
        assert(rest.drop_first() =~= err.chain@.subrange(j + 1, n as int));
        match &err.chain[j] {
            ErrorCause::Io { kind, message } => {
                match map_rollout_io_error(*kind, message.as_str(), kodex_home) {
                    Some(e) => {
                        return e;
                    },
                    None => {},
                }
            },
            _ => {},
        }
        j = j + 1;
    }
    assert(err.chain@.subrange(n as int, n as int).len() == 0);
    let mut m = String::from_str("Failed to initialize session: ");
    m.append(err.rendered.as_str());
    KodexErr::Fatal(m)
}

} // verus!
