use kodex::event_stream_auth::{check_subscription_account, matches_auth, AccountAuth, KodexAuth};

fn account(id: Option<&str>, user: Option<&str>, credential: &str) -> KodexAuth {
    KodexAuth::Account(AccountAuth {
        account_id: id.map(str::to_string),
        chatgpt_user_id: user.map(str::to_string),
        is_workspace_account: false,
        is_fedramp_account: false,
        credential: credential.to_string(),
    })
}

#[test]
fn streams_stay_bound_to_their_account() {
    let a = account(Some("acct"), Some("user"), "token-1");
    let refreshed = account(Some("acct"), Some("user"), "token-2");
    let other = account(Some("other"), Some("user"), "token-1");
    assert!(matches_auth(Some(&a), Some(&a)));
    assert!(matches_auth(Some(&a), Some(&refreshed)));
    assert!(!matches_auth(Some(&a), Some(&other)));
    assert!(!matches_auth(Some(&a), None));
    assert!(matches_auth(None, None));
    assert!(!matches_auth(None, Some(&a)));
}

#[test]
fn credentials_without_account_id_must_be_identical() {
    let key1 = account(None, None, "sk-1");
    let key2 = account(None, None, "sk-2");
    assert!(matches_auth(Some(&key1), Some(&key1)));
    assert!(!matches_auth(Some(&key1), Some(&key2)));
}

#[test]
fn agent_identities_match_by_record_only() {
    let agent = KodexAuth::AgentIdentity { record: "rec-1".into() };
    let same = KodexAuth::AgentIdentity { record: "rec-1".into() };
    let other = KodexAuth::AgentIdentity { record: "rec-2".into() };
    let acct = account(Some("acct"), None, "t");
    assert!(matches_auth(Some(&agent), Some(&same)));
    assert!(!matches_auth(Some(&agent), Some(&other)));
    assert!(!matches_auth(Some(&agent), Some(&acct)));
    assert!(!matches_auth(Some(&acct), Some(&agent)));
    assert!(!matches_auth(None, Some(&agent)));
}

#[test]
fn subscriptions_refuse_a_changed_account() {
    let mine = account(Some("acct-1"), Some("user-1"), "token-a");
    let other = account(Some("acct-2"), Some("user-1"), "token-a");
    assert_eq!(check_subscription_account(Some(&mine), None), Ok(()));
    assert_eq!(check_subscription_account(Some(&mine), Some(Some(&mine))), Ok(()));
    assert_eq!(check_subscription_account(Some(&mine), Some(Some(&other))), Err("event subscription account changed"));
    assert_eq!(check_subscription_account(Some(&mine), Some(None)), Err("event subscription account changed"));
}
