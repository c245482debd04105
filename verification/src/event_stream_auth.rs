//! The account check that keeps an MCP event stream bound to the credentials it was
//! opened with: a stream stays open only while the current credentials belong to the
//! same account (or the same agent identity).

use vstd::prelude::*;
use crate::text::{ov};

verus! {

/// Account credentials, with the account facts the check compares.
/// `credential` stands for the rest of the credential, compared when no account id exists.
pub struct AccountAuth {
    pub account_id: Option<String>,
    pub chatgpt_user_id: Option<String>,
    pub is_workspace_account: bool,
    pub is_fedramp_account: bool,
    pub credential: String,
}

/// The credentials a stream runs under.
pub enum KodexAuth {
    /// An agent identity, identified by its registration record.
    AgentIdentity { record: String },
    Account(AccountAuth),
}

pub struct AccountView {
    pub account_id: Option<Seq<char>>,
    pub chatgpt_user_id: Option<Seq<char>>,
    pub is_workspace_account: bool,
    pub is_fedramp_account: bool,
    pub credential: Seq<char>,
}

pub enum AuthView {
    AgentIdentity(Seq<char>),
    Account(AccountView),
}

pub open spec fn auth_view(a: KodexAuth) -> AuthView {
    match a {
        KodexAuth::AgentIdentity { record } => AuthView::AgentIdentity(record@),
        KodexAuth::Account(acc) => AuthView::Account(AccountView {
            account_id: ov(acc.account_id),
            chatgpt_user_id: ov(acc.chatgpt_user_id),
            is_workspace_account: acc.is_workspace_account,
            is_fedramp_account: acc.is_fedramp_account,
            credential: acc.credential@,
        }),
    }
}

pub open spec fn opt_auth_view(a: Option<&KodexAuth>) -> Option<AuthView> {
    match a {
        Some(a) => Some(auth_view(*a)),
        None => None,
    }
}

/// Do the current credentials still match the ones the stream was opened with?
/// Agent identities match only the same identity record; accounts match when the
/// account id, user id and workspace and FedRAMP flags agree and, absent an account id,
/// the credentials are identical; no credentials match only no credentials.
pub open spec fn spec_matches_auth(expected: Option<AuthView>, current: Option<AuthView>) -> bool {
    match (expected, current) {
        (Some(AuthView::AgentIdentity(e)), Some(AuthView::AgentIdentity(c))) => e == c,
        (Some(AuthView::AgentIdentity(_)), _) => false,
        (_, Some(AuthView::AgentIdentity(_))) => false,
        (Some(AuthView::Account(e)), Some(AuthView::Account(c))) => {
            &&& e.account_id == c.account_id
            &&& e.chatgpt_user_id == c.chatgpt_user_id
            &&& e.is_workspace_account == c.is_workspace_account
            &&& e.is_fedramp_account == c.is_fedramp_account
            &&& (e.account_id is Some || e == c)
        },
        (None, None) => true,
        _ => false,
    }
}

fn opt_string_eq(a: &Option<String>, b: &Option<String>) -> (r: bool)
    ensures
        r == (ov(*a) == ov(*b)),
{
    match (a, b) {
        (Some(x), Some(y)) => *x == *y,
        (None, None) => true,
        _ => false,
    }
}

pub fn matches_auth(expected: Option<&KodexAuth>, current: Option<&KodexAuth>) -> (r: bool)
    ensures
        r == spec_matches_auth(opt_auth_view(expected), opt_auth_view(current)),
{
    match (expected, current) {
        (Some(KodexAuth::AgentIdentity { record: e }), Some(KodexAuth::AgentIdentity { record: c })) => *e == *c,
        (Some(KodexAuth::AgentIdentity { .. }), _) => false,
        (_, Some(KodexAuth::AgentIdentity { .. })) => false,
        (Some(KodexAuth::Account(e)), Some(KodexAuth::Account(c))) => {
            let same_account = opt_string_eq(&e.account_id, &c.account_id);
            let same_user = opt_string_eq(&e.chatgpt_user_id, &c.chatgpt_user_id);
            let identical = same_account && same_user && e.is_workspace_account == c.is_workspace_account
                && e.is_fedramp_account == c.is_fedramp_account && e.credential == c.credential;
            same_account && same_user && e.is_workspace_account == c.is_workspace_account
                && e.is_fedramp_account == c.is_fedramp_account && (e.account_id.is_some() || identical)
        },
        (None, None) => true,
        _ => false,
    }
}

pub const ACCOUNT_CHANGED_MESSAGE: &'static str = "event subscription account changed";
pub const ACCESS_CHANGED_MESSAGE: &'static str = "event subscription access changed";

/// The account check before a subscription opens: with an auth manager, whose current
/// auth is `current` (`None` when there is no manager), the subscription is refused
/// with [`ACCOUNT_CHANGED_MESSAGE`] unless that auth matches the one it was made for.
pub fn check_subscription_account(expected: Option<&KodexAuth>, current: Option<Option<&KodexAuth>>) -> (r: Result<(), &'static str>)
    ensures
        match current {
            Some(c) => if spec_matches_auth(opt_auth_view(expected), opt_auth_view(c)) {
                r is Ok
            } else {
                r matches Err(m) && m@ == ACCOUNT_CHANGED_MESSAGE@
            },
            None => r is Ok,
        },
{
    match current {
        Some(c) => if matches_auth(expected, c) {
            Ok(())
        } else {
            Err(ACCOUNT_CHANGED_MESSAGE)
        },
        None => Ok(()),
    }
}

/// Credentials always match themselves: a stream is never cancelled by an unchanged login.
pub proof fn law_matches_auth_reflexive(a: Option<AuthView>)
    ensures
        spec_matches_auth(a, a),
{
}

/// The check is symmetric: it does not matter which side was captured first.
pub proof fn law_matches_auth_symmetric(a: Option<AuthView>, b: Option<AuthView>)
    ensures
        spec_matches_auth(a, b) == spec_matches_auth(b, a),
{
}

/// A stream opened without credentials stays open only while there are none.
pub proof fn law_no_credentials_match_only_none(b: Option<AuthView>)
    ensures
        spec_matches_auth(None, b) <==> b is None,
{
}

/// Matching account credentials belong to the same account and the same user: the
/// account id, the ChatGPT user id and the workspace and FedRAMP flags all agree, and
/// without an account id the credentials are identical. Another user of the same
/// account never keeps a stream bound.
pub proof fn law_account_match_needs_same_account_and_user(e: AccountView, c: AccountView)
    ensures
        spec_matches_auth(Some(AuthView::Account(e)), Some(AuthView::Account(c))) ==> {
            &&& e.account_id == c.account_id
            &&& e.chatgpt_user_id == c.chatgpt_user_id
            &&& e.is_workspace_account == c.is_workspace_account
            &&& e.is_fedramp_account == c.is_fedramp_account
            &&& (e.account_id is None ==> e == c)
        },
        e.account_id is Some && e.account_id == c.account_id && e.chatgpt_user_id == c.chatgpt_user_id
            && e.is_workspace_account == c.is_workspace_account && e.is_fedramp_account == c.is_fedramp_account
            ==> spec_matches_auth(Some(AuthView::Account(e)), Some(AuthView::Account(c))),
{
}

/// An agent identity matches only the same registration record, and never an account,
/// in either order.
pub proof fn law_identity_never_matches_account(record: Seq<char>, other: Seq<char>, acc: AccountView)
    ensures
        spec_matches_auth(Some(AuthView::AgentIdentity(record)), Some(AuthView::AgentIdentity(other))) <==> record == other,
        !spec_matches_auth(Some(AuthView::AgentIdentity(record)), Some(AuthView::Account(acc))),
        !spec_matches_auth(Some(AuthView::Account(acc)), Some(AuthView::AgentIdentity(record))),
{
}

} // verus!
