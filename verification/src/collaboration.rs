//! Collaboration-mode messages resolved from catalog overrides and bundled templates,
//! keeping where each text came from.

use vstd::prelude::*;

verus! {

/// Where a resolved message's text came from.
#[derive(Clone, Copy, Debug, PartialEq, Eq, Structural)]
pub enum MessageSource {
    /// A model catalog override.
    Catalog,
    /// The template bundled with the program.
    Bundled,
}

/// A message text and its source.
#[derive(Clone, Copy, Debug)]
pub struct ResolvedMessage<'a> {
    pub text: &'a str,
    pub source: MessageSource,
}

impl<'a> ResolvedMessage<'a> {
    /// The override when there is one, else the bundled template.
    pub fn new(override_text: Option<&'a str>, bundled: &'a str) -> (r: Self)
        ensures
            match override_text {
                Some(t) => r.text == t && r.source == MessageSource::Catalog,
                None => r.text == bundled && r.source == MessageSource::Bundled,
            },
    {
        match override_text {
            Some(t) => ResolvedMessage { text: t, source: MessageSource::Catalog },
            None => ResolvedMessage { text: bundled, source: MessageSource::Bundled },
        }
    }
}

/// Catalog overrides of the collaboration-mode messages.
pub struct CollaborationModeMessages {
    pub default: Option<String>,
    pub plan: Option<String>,
}

/// The messages of the default and plan collaboration modes.
#[derive(Clone, Copy, Debug)]
pub struct ResolvedCollaborationModeMessages<'a> {
    pub default: ResolvedMessage<'a>,
    pub plan: ResolvedMessage<'a>,
}

pub open spec fn resolved_from(r: ResolvedMessage, over: Option<String>, bundled: &str) -> bool {
    match over {
        Some(t) => r.text@ == t@ && r.source == MessageSource::Catalog,
        None => r.text == bundled && r.source == MessageSource::Bundled,
    }
}

impl<'a> ResolvedCollaborationModeMessages<'a> {
    /// Resolves each mode's message: the catalog's override when the catalog has one,
    /// else the bundled template (`default_template`, `plan_template`).
    pub fn new(messages: Option<&'a CollaborationModeMessages>, default_template: &'a str, plan_template: &'a str) -> (r: Self)
        ensures
            match messages {
                Some(m) => resolved_from(r.default, m.default, default_template) && resolved_from(r.plan, m.plan, plan_template),
                None => resolved_from(r.default, None, default_template) && resolved_from(r.plan, None, plan_template),
            },
    {
        let default_override: Option<&'a str> = match messages {
            Some(m) => match &m.default {
                Some(t) => Some(t.as_str()),
                None => None,
            },
            None => None,
        };
        let plan_override: Option<&'a str> = match messages {
            Some(m) => match &m.plan {
                Some(t) => Some(t.as_str()),
                None => None,
            },
            None => None,
        };
        ResolvedCollaborationModeMessages {
            default: ResolvedMessage::new(default_override, default_template),
            plan: ResolvedMessage::new(plan_override, plan_template),
        }
    }
}

} // verus!
