use antex::accounts::{
    accept_refresh, select_credentials, store_login, validate_alias, AccountEntry, Accounts,
    Refresh,
};
use antex::auth::Tokens;

fn tokens(access: &str, account: &str, expires_at: u64) -> Tokens {
    Tokens {
        access_token: access.to_string(),
        refresh_token: format!("{access}-refresh"),
        account_id: account.to_string(),
        expires_at,
    }
}

fn empty() -> Accounts {
    Accounts { active: None, entries: Vec::new() }
}

fn tokens_of<'a>(accounts: &'a Accounts, alias: &str) -> Option<&'a Tokens> {
    accounts.entries.iter().find(|entry| entry.alias == alias).map(|entry| &entry.tokens)
}

#[test]
fn account_names_must_be_short_printable_and_non_empty() {
    assert_eq!(validate_alias("work"), Ok(()));
    assert_eq!(validate_alias("ünïcödé name"), Ok(()));
    assert_eq!(validate_alias(""), Err("invalid account name".to_string()));
    assert_eq!(validate_alias("tab\there"), Err("invalid account name".to_string()));
    assert_eq!(validate_alias("bell\u{7}"), Err("invalid account name".to_string()));
    assert_eq!(validate_alias("c1\u{85}"), Err("invalid account name".to_string()));
    assert_eq!(validate_alias(&"a".repeat(128)), Ok(()));
    assert_eq!(validate_alias(&"a".repeat(129)), Err("invalid account name".to_string()));
    // 64 two-byte characters are 128 bytes; one more is over the budget.
    assert_eq!(validate_alias(&"é".repeat(64)), Ok(()));
    assert_eq!(validate_alias(&"é".repeat(65)), Err("invalid account name".to_string()));
}

#[test]
fn a_login_becomes_the_active_account() {
    let mut accounts = empty();
    assert_eq!(store_login(&mut accounts, "work", tokens("w1", "acct-w", 100)), Ok(()));
    assert_eq!(accounts.active.as_deref(), Some("work"));
    assert_eq!(tokens_of(&accounts, "work"), Some(&tokens("w1", "acct-w", 100)));
}

#[test]
fn logging_in_again_replaces_only_that_account() {
    let mut accounts = empty();
    store_login(&mut accounts, "work", tokens("w1", "acct-w", 100)).unwrap();
    store_login(&mut accounts, "home", tokens("h1", "acct-h", 200)).unwrap();
    store_login(&mut accounts, "work", tokens("w2", "acct-w", 300)).unwrap();
    assert_eq!(accounts.entries.len(), 2);
    assert_eq!(accounts.active.as_deref(), Some("work"));
    assert_eq!(tokens_of(&accounts, "work"), Some(&tokens("w2", "acct-w", 300)));
    assert_eq!(tokens_of(&accounts, "home"), Some(&tokens("h1", "acct-h", 200)));
}

#[test]
fn at_most_thirty_two_accounts_are_saved() {
    let mut accounts = empty();
    for n in 0..32 {
        store_login(&mut accounts, &format!("a{n}"), tokens("t", "acct", 1)).unwrap();
    }
    let before = accounts.clone();
    assert_eq!(
        store_login(&mut accounts, "one-more", tokens("t", "acct", 1)),
        Err("too many saved accounts".to_string())
    );
    assert_eq!(accounts.entries.len(), before.entries.len());
    assert_eq!(accounts.active, before.active);
    // An existing name can still be replaced when the store is full.
    assert_eq!(store_login(&mut accounts, "a5", tokens("new", "acct", 2)), Ok(()));
    assert_eq!(accounts.entries.len(), 32);
    assert_eq!(tokens_of(&accounts, "a5"), Some(&tokens("new", "acct", 2)));
}

#[test]
fn credentials_need_a_signed_in_account() {
    assert_eq!(
        select_credentials(&empty(), &Refresh::IfExpired, 0),
        Err("sign in with antex login".to_string())
    );
    let accounts = Accounts { active: Some("gone".to_string()), entries: Vec::new() };
    assert_eq!(
        select_credentials(&accounts, &Refresh::IfExpired, 0),
        Err("active account is missing".to_string())
    );
}

#[test]
fn credentials_are_refreshed_within_a_minute_of_expiry() {
    let mut accounts = empty();
    store_login(&mut accounts, "home", tokens("h1", "acct-h", 50)).unwrap();
    store_login(&mut accounts, "work", tokens("w1", "acct-w", 1000)).unwrap();
    assert_eq!(select_credentials(&accounts, &Refresh::IfExpired, 939), Ok((1, false)));
    assert_eq!(select_credentials(&accounts, &Refresh::IfExpired, 940), Ok((1, true)));
    assert_eq!(select_credentials(&accounts, &Refresh::IfExpired, u64::MAX), Ok((1, true)));
}

#[test]
fn a_rejected_token_is_refreshed_only_if_it_is_still_stored() {
    let mut accounts = empty();
    store_login(&mut accounts, "work", tokens("w1", "acct-w", 1000)).unwrap();
    assert_eq!(
        select_credentials(&accounts, &Refresh::Rejected("w1".to_string()), 0),
        Ok((0, true))
    );
    assert_eq!(
        select_credentials(&accounts, &Refresh::Rejected("w0".to_string()), 0),
        Ok((0, false))
    );
}

#[test]
fn a_refresh_keeps_the_account_and_rotates_its_tokens() {
    let mut accounts = empty();
    store_login(&mut accounts, "work", tokens("w1", "acct-w", 100)).unwrap();
    store_login(&mut accounts, "home", tokens("h1", "acct-h", 200)).unwrap();
    assert_eq!(accept_refresh(&mut accounts, 0, tokens("w2", "acct-w", 900)), Ok(()));
    assert_eq!(tokens_of(&accounts, "work"), Some(&tokens("w2", "acct-w", 900)));
    assert_eq!(tokens_of(&accounts, "home"), Some(&tokens("h1", "acct-h", 200)));
    assert_eq!(accounts.active.as_deref(), Some("home"));
}

#[test]
fn a_refresh_may_not_switch_accounts() {
    let mut accounts = empty();
    store_login(&mut accounts, "work", tokens("w1", "acct-w", 100)).unwrap();
    assert_eq!(
        accept_refresh(&mut accounts, 0, tokens("w2", "someone-else", 900)),
        Err("token refresh changed the active account".to_string())
    );
    assert_eq!(tokens_of(&accounts, "work"), Some(&tokens("w1", "acct-w", 100)));
    let entry: &AccountEntry = &accounts.entries[0];
    assert_eq!(entry.alias, "work");
}
