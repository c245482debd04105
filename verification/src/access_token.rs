//! Classification of Kodex access tokens by their textual prefix.

use vstd::prelude::*;
use crate::text::{seq_starts_with, str_starts_with};

verus! {

/// The prefix that marks a personal access token.
pub open spec fn personal_access_token_prefix() -> Seq<char> {
    seq!['a', 't', '-']
}

/// An access token, tagged with the kind of credential it is.
pub enum KodexAccessToken<'a> {
    PersonalAccessToken(&'a str),
    AgentIdentityJwt(&'a str),
}

/// Tokens that start with `at-` are personal access tokens; every other token is
/// treated as an agent identity JWT. The token text is carried through unchanged.
pub fn classify_kodex_access_token<'a>(access_token: &'a str) -> (r: KodexAccessToken<'a>)
    ensures
        seq_starts_with(access_token@, personal_access_token_prefix()) ==> r
            == KodexAccessToken::PersonalAccessToken(access_token),
        !seq_starts_with(access_token@, personal_access_token_prefix()) ==> r
            == KodexAccessToken::AgentIdentityJwt(access_token),
{
    let prefix = "at-";
    proof {
        reveal_strlit("at-");
    }
    assert(prefix@ =~= personal_access_token_prefix());
    if str_starts_with(access_token, prefix) {
        KodexAccessToken::PersonalAccessToken(access_token)
    } else {
        KodexAccessToken::AgentIdentityJwt(access_token)
    }
}

} // verus!
