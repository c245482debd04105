//! Rules of the history-notes extension: when it is active for a thread, and what a
//! thread hint from the backend contributes to the prompt.

use vstd::prelude::*;
use crate::text::{osv};
use crate::json::{Json, JsonView, jget, json_get, parse_json, serde_json_from_str};
use crate::text::utf8_len;

verus! {

/// The largest thread hint, in bytes, that is placed in the model's context.
pub const MAX_THREAD_HINT_BYTES: usize = 4000;

/// The extension is active when the token budget enables it, the model provider is
/// OpenAI's and the current credentials use the Kodex backend.
pub fn history_notes_enabled(use_history_notes_extension: Option<bool>, provider_is_openai: bool, uses_kodex_backend: bool) -> (r: bool)
    ensures
        r == (use_history_notes_extension == Some(true) && provider_is_openai && uses_kodex_backend),
{
    let requested = match use_history_notes_extension {
        Some(b) => b,
        None => false,
    };
    requested && provider_is_openai && uses_kodex_backend
}

/// How a thread-hint request ended, as reported to analytics.
#[derive(Clone, Copy, Debug, PartialEq, Eq, Structural)]
pub enum ThreadHintStatus {
    Succeeded,
    Failed,
}

/// The outcome of a thread hint: the backend's reply (`None` when the call failed) must
/// be JSON carrying a `text` string of at most the byte bound; a non-empty text becomes
/// the prompt contribution.
pub open spec fn spec_thread_hint(reply: Option<Seq<char>>) -> (ThreadHintStatus, Option<Seq<char>>) {
    match reply {
        None => (ThreadHintStatus::Failed, None),
        Some(text) => match serde_json_from_str(text) {
            None => (ThreadHintStatus::Failed, None),
            Some(v) => match jget(v, "text"@) {
                Some(JsonView::Str(t)) => if utf8_len(t) > MAX_THREAD_HINT_BYTES {
                    (ThreadHintStatus::Failed, None)
                } else if t.len() == 0 {
                    (ThreadHintStatus::Succeeded, None)
                } else {
                    (ThreadHintStatus::Succeeded, Some(t))
                },
                _ => (ThreadHintStatus::Failed, None),
            },
        },
    }
}

pub open spec fn hint_view(r: (ThreadHintStatus, Option<String>)) -> (ThreadHintStatus, Option<Seq<char>>) {
    (r.0, match r.1 {
        Some(s) => Some(s@),
        None => None,
    })
}

/// Judges a thread-hint reply, given as the JSON text the backend returned.
pub fn thread_hint_outcome(reply: Option<&str>) -> (r: (ThreadHintStatus, Option<String>))
    ensures
        hint_view(r) == spec_thread_hint(osv(reply)),
{
    let text = match reply {
        Some(t) => t,
        None => return (ThreadHintStatus::Failed, None),
    };
    let v = match parse_json(text) {
        Some(v) => v,
        None => return (ThreadHintStatus::Failed, None),
    };
    match json_get(&v, "text") {
        Some(Json::Str(t)) => {
            if t.as_str().as_bytes().len() > MAX_THREAD_HINT_BYTES {
                return (ThreadHintStatus::Failed, None);
            }
            if t.as_str().is_empty() {
                (ThreadHintStatus::Succeeded, None)
            } else {
                (ThreadHintStatus::Succeeded, Some(t.clone()))
            }
        },
        _ => (ThreadHintStatus::Failed, None),
    }
}

} // verus!
