//! Request metadata for the Responses endpoint, as integration tests build it.

use vstd::prelude::*;
use crate::text::{osv, ov};

verus! {

/// The kind of request that Responses metadata describes.
#[derive(Clone, Copy, Debug, PartialEq, Eq, Structural)]
pub enum KodexResponsesRequestKind {
    Turn,
    Prewarm,
}

/// The request kinds a test can ask metadata for.
#[derive(Clone, Copy, Debug, PartialEq, Eq, Structural)]
pub enum TestKodexResponsesRequestKind {
    Turn,
    Prewarm,
    WebsocketConnection,
}

/// Metadata sent with a Responses request.
pub struct KodexResponsesMetadata {
    pub installation_id: String,
    pub session_id: String,
    pub thread_id: String,
    pub window_id: String,
    pub turn_id: Option<String>,
    pub request_kind: Option<KodexResponsesRequestKind>,
    pub parent_thread_id: Option<String>,
    pub parent_turn_id: Option<String>,
    pub subagent_header: Option<String>,
    pub subagent_kind: Option<String>,
}

fn owned(o: Option<&str>) -> (r: Option<String>)
    ensures
        ov(r) == osv(o),
{
    match o {
        Some(s) => Some(String::from_str(s)),
        None => None,
    }
}

/// The request kind that a test kind stands for; a websocket connection has none.
pub open spec fn spec_request_kind(kind: TestKodexResponsesRequestKind) -> Option<KodexResponsesRequestKind> {
    match kind {
        TestKodexResponsesRequestKind::Turn => Some(KodexResponsesRequestKind::Turn),
        TestKodexResponsesRequestKind::Prewarm => Some(KodexResponsesRequestKind::Prewarm),
        TestKodexResponsesRequestKind::WebsocketConnection => None,
    }
}

impl KodexResponsesMetadata {
    /// Metadata that names the installation, session, thread and window, and nothing else.
    pub fn new(installation_id: String, session_id: String, thread_id: String, window_id: String) -> (r: Self)
        ensures
            r.installation_id == installation_id,
            r.session_id == session_id,
            r.thread_id == thread_id,
            r.window_id == window_id,
            r.turn_id is None,
            r.request_kind is None,
            r.parent_thread_id is None,
            r.parent_turn_id is None,
            r.subagent_header is None,
            r.subagent_kind is None,
    {
        KodexResponsesMetadata {
            installation_id,
            session_id,
            thread_id,
            window_id,
            turn_id: None,
            request_kind: None,
            parent_thread_id: None,
            parent_turn_id: None,
            subagent_header: None,
            subagent_kind: None,
        }
    }
}

/// Builds request metadata. The turn id and the subagent kind are sent only with a
/// request kind (not on a websocket connection); the subagent header always is.
/// `subagent_header` and `subagent_kind` are what the session source yields for them.
pub fn responses_metadata(
    installation_id: &str,
    session_id: &str,
    thread_id: &str,
    turn_id: Option<&str>,
    window_id: String,
    subagent_header: Option<String>,
    subagent_kind: Option<String>,
    parent_thread_id: Option<String>,
    request_kind: TestKodexResponsesRequestKind,
) -> (r: KodexResponsesMetadata)
    ensures
        r.installation_id@ == installation_id@,
        r.session_id@ == session_id@,
        r.thread_id@ == thread_id@,
        r.window_id == window_id,
        r.request_kind == spec_request_kind(request_kind),
        ov(r.turn_id) == (if spec_request_kind(request_kind) is Some { osv(turn_id) } else { None }),
        r.parent_thread_id == parent_thread_id,
        r.parent_turn_id is None,
        r.subagent_header == subagent_header,
        r.subagent_kind == (if spec_request_kind(request_kind) is Some { subagent_kind } else { None }),
{
    let kind = match request_kind {
        TestKodexResponsesRequestKind::Turn => Some(KodexResponsesRequestKind::Turn),
        TestKodexResponsesRequestKind::Prewarm => Some(KodexResponsesRequestKind::Prewarm),
        TestKodexResponsesRequestKind::WebsocketConnection => None,
    };
    let mut metadata = KodexResponsesMetadata::new(
        String::from_str(installation_id),
        String::from_str(session_id),
        String::from_str(thread_id),
        window_id,
    );
    metadata.turn_id = if kind.is_some() { owned(turn_id) } else { None };
    metadata.request_kind = kind;
    metadata.parent_thread_id = parent_thread_id;
    metadata.subagent_header = subagent_header;
    metadata.subagent_kind = if kind.is_some() { subagent_kind } else { None };
    metadata
}

/// The same metadata, attributed to parent turn `id`.
pub fn with_parent_turn(metadata: KodexResponsesMetadata, id: &str) -> (r: KodexResponsesMetadata)
    ensures
        ov(r.parent_turn_id) == Some(id@),
        r.installation_id == metadata.installation_id,
        r.session_id == metadata.session_id,
        r.thread_id == metadata.thread_id,
        r.window_id == metadata.window_id,
        r.turn_id == metadata.turn_id,
        r.request_kind == metadata.request_kind,
        r.parent_thread_id == metadata.parent_thread_id,
        r.subagent_header == metadata.subagent_header,
        r.subagent_kind == metadata.subagent_kind,
{
    let mut metadata = metadata;
    metadata.parent_turn_id = Some(String::from_str(id));
    metadata
}

/// User instructions loaded for a thread.
pub struct LoadedUserInstructions {
    pub instructions: Option<String>,
}

/// A provider that supplies no user instructions.
pub struct EmptyUserInstructionsProvider;

impl EmptyUserInstructionsProvider {
    pub fn load_user_instructions(&self) -> (r: LoadedUserInstructions)
        ensures
            r.instructions is None,
    {
        LoadedUserInstructions { instructions: None }
    }
}

} // verus!
