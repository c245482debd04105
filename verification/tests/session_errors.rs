use kodex::error::KodexErr;
use kodex::session_errors::{map_rollout_io_error, map_session_init_error, ErrorCause, IoErrorKind, SessionInitFailure, ThreadStoreError};

fn fatal(e: KodexErr) -> String {
    match e {
        KodexErr::Fatal(m) => m,
        _ => panic!("expected a fatal error"),
    }
}

#[test]
fn io_failures_get_storage_hints() {
    let m = fatal(map_rollout_io_error(IoErrorKind::NotFound, "No such file or directory (os error 2)", "/home/me/.kodex").unwrap());
    assert_eq!(
        m,
        "Session storage missing at /home/me/.kodex/sessions. Create the directory or choose a different Kodex home. (underlying error: No such file or directory (os error 2))"
    );
    let m = fatal(map_rollout_io_error(IoErrorKind::PermissionDenied, "denied", "/h").unwrap());
    assert_eq!(
        m,
        "Kodex cannot access session files at /h/sessions (permission denied). If sessions were created using sudo, fix ownership: sudo chown -R $(whoami) /h (underlying error: denied)"
    );
    let m = fatal(map_rollout_io_error(IoErrorKind::NotADirectory, "e", "/h").unwrap());
    assert!(m.starts_with("Session storage path /h/sessions has an unexpected type."));
    assert!(map_rollout_io_error(IoErrorKind::Other, "e", "/h").is_none());
}

#[test]
fn store_errors_win_over_io_errors() {
    let failure = SessionInitFailure {
        chain: vec![
            ErrorCause::Other,
            ErrorCause::Io { kind: IoErrorKind::NotFound, message: "missing".into() },
            ErrorCause::Store(ThreadStoreError::Unsupported { operation: "fork".into() }),
        ],
        rendered: "outer: inner".into(),
    };
    assert!(matches!(map_session_init_error(&failure, "/h"), KodexErr::UnsupportedOperation(m) if m == "fork is not supported yet"));
    let failure = SessionInitFailure {
        chain: vec![ErrorCause::Store(ThreadStoreError::Conflict { message: "busy".into() })],
        rendered: "busy".into(),
    };
    assert!(matches!(map_session_init_error(&failure, "/h"), KodexErr::InvalidRequest(m) if m == "busy"));
}

#[test]
fn unmapped_failures_are_fatal() {
    // The first store error decides; an undecided one does not let later store errors in.
    let failure = SessionInitFailure {
        chain: vec![
            ErrorCause::Store(ThreadStoreError::Internal { message: "x".into() }),
            ErrorCause::Store(ThreadStoreError::Conflict { message: "busy".into() }),
            ErrorCause::Io { kind: IoErrorKind::Other, message: "odd".into() },
        ],
        rendered: "outer: x".into(),
    };
    assert_eq!(fatal(map_session_init_error(&failure, "/h")), "Failed to initialize session: outer: x");
    let failure = SessionInitFailure {
        chain: vec![
            ErrorCause::Io { kind: IoErrorKind::Other, message: "odd".into() },
            ErrorCause::Io { kind: IoErrorKind::InvalidData, message: "bad".into() },
        ],
        rendered: "r".into(),
    };
    assert!(fatal(map_session_init_error(&failure, "/h")).starts_with("Session data under /h/sessions looks corrupt"));
}
