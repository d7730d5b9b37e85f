//! Saved OAuth accounts: which credentials a request uses, when they are
//! refreshed, and how a login is stored.

use vstd::prelude::*;
use crate::auth::Tokens;
use crate::text::{owned, str_chars, utf8_count, utf8_len};
use crate::validation::str_eq;

verus! {

/// The most accounts that can be saved.
pub const MAX_ACCOUNTS: usize = 32;

/// The longest account name, in bytes.
pub const MAX_ALIAS_BYTES: usize = 128;

/// Seconds before expiry at which credentials are refreshed anyway.
pub const REFRESH_MARGIN_SECS: u64 = 60;

/// One saved account.
#[derive(Clone, Debug)]
pub struct AccountEntry {
    pub alias: String,
    pub tokens: Tokens,
}

/// The saved accounts and the one in use.
#[derive(Clone, Debug)]
pub struct Accounts {
    pub active: Option<String>,
    pub entries: Vec<AccountEntry>,
}

/// Why credentials are needed.
#[derive(Clone, Debug)]
pub enum Refresh {
    /// Before a request: refresh when they expire within a minute.
    IfExpired,
    /// After the server rejected this access token: refresh if it is still the stored one.
    Rejected(String),
}

/// The position of the account named `alias`.
pub open spec fn position_of(entries: Seq<AccountEntry>, alias: Seq<char>) -> Option<int>
    decreases entries.len(),
{
    if entries.len() == 0 {
        None
    } else if entries.last().alias@ == alias {
        Some(entries.len() - 1)
    } else {
        position_of(entries.drop_last(), alias)
    }
}

/// The credentials saved under `alias`.
pub open spec fn saved_tokens(entries: Seq<AccountEntry>, alias: Seq<char>) -> Option<Tokens> {
    match position_of(entries, alias) {
        Some(i) => Some(entries[i].tokens),
        None => None,
    }
}

/// No two accounts share a name.
pub open spec fn names_distinct(entries: Seq<AccountEntry>) -> bool {
    forall|i: int, j: int|
        0 <= i < j < entries.len() ==> (#[trigger] entries[i]).alias@ != (#[trigger] entries[j]).alias@
}

impl Accounts {
    pub open spec fn wf(&self) -> bool {
        names_distinct(self.entries@)
    }

    /// The credentials saved under `alias`.
    pub open spec fn tokens_of(&self, alias: Seq<char>) -> Option<Tokens> {
        saved_tokens(self.entries@, alias)
    }
}

/// Whether `c` is a control character (general category Cc), which
/// `char::is_control` tests.
pub open spec fn is_control_char(c: char) -> bool {
    (c as u32) <= 0x1F || (0x7F <= (c as u32) && (c as u32) <= 0x9F)
}

/// Whether an account name is acceptable: non-empty, at most 128 bytes,
/// without control characters.
pub open spec fn alias_ok(alias: Seq<char>) -> bool {
    alias.len() > 0 && utf8_len(alias) <= MAX_ALIAS_BYTES && forall|i: int|
        0 <= i < alias.len() ==> !is_control_char(#[trigger] alias[i])
}

/// Check an account name before a login is stored under it.
pub fn validate_alias(alias: &str) -> (r: Result<(), String>)
    ensures
        match r {
            Ok(()) => alias_ok(alias@),
            Err(e) => !alias_ok(alias@) && e@ == "invalid account name"@,
        },
{
    let chars = str_chars(alias);
    if chars.len() == 0 || utf8_count(alias) > MAX_ALIAS_BYTES as u128 {
        return Err(owned("invalid account name"));
    }
    let mut i: usize = 0;
    while i < chars.len()
        invariant
            chars@ == alias@,
            0 <= i <= chars@.len(),
            forall|j: int| 0 <= j < i ==> !is_control_char(#[trigger] chars@[j]),
        decreases chars@.len() - i,
    {
        let v = chars[i] as u32;
        if v <= 0x1F || (0x7F <= v && v <= 0x9F) {
            proof {
                assert(is_control_char(chars@[i as int]));
            }
            return Err(owned("invalid account name"));
        }
        i = i + 1;
    }
    Ok(())
}

fn find_account(entries: &Vec<AccountEntry>, alias: &str) -> (r: Option<usize>)
    ensures
        match r {
            Some(i) => position_of(entries@, alias@) == Some(i as int) && i < entries@.len(),
            None => position_of(entries@, alias@) is None,
        },
{
    let mut i: usize = entries.len();
    proof {
        assert(entries@.take(entries@.len() as int) =~= entries@);
    }
    while i > 0
        invariant
            0 <= i <= entries@.len(),
            position_of(entries@, alias@) == position_of(entries@.take(i as int), alias@),
        decreases i,
    {
        proof {
            assert(entries@.take(i as int).drop_last() =~= entries@.take(i - 1));
        }
        if str_eq(entries[i - 1].alias.as_str(), alias) {
            return Some(i - 1);
        }
        i = i - 1;
    }
    proof {
        assert(entries@.take(0) =~= Seq::<AccountEntry>::empty());
    }
    None
}

/// In a log of distinct names, the position of a name is where it is.
proof fn lemma_position_is_index(entries: Seq<AccountEntry>, i: int)
    requires
        names_distinct(entries),
        0 <= i < entries.len(),
    ensures
        position_of(entries, entries[i].alias@) == Some(i),
    decreases entries.len(),
{
    if i < entries.len() - 1 {
        assert(entries.drop_last()[i] == entries[i]);
        lemma_position_is_index(entries.drop_last(), i);
    }
}

/// Whether the credentials need a refresh.
pub open spec fn needs_refresh_spec(tokens: Tokens, refresh: Refresh, now: u64) -> bool {
    match refresh {
        Refresh::IfExpired => tokens.expires_at <= (if now + REFRESH_MARGIN_SECS > u64::MAX {
            u64::MAX
        } else {
            (now + REFRESH_MARGIN_SECS) as u64
        }),
        Refresh::Rejected(previous) => tokens.access_token@ == previous@,
    }
}

/// The account in use and whether its credentials need a refresh: those
/// about to expire, or those the server just rejected.
pub fn select_credentials(accounts: &Accounts, refresh: &Refresh, now: u64) -> (r: Result<(usize, bool), String>)
    ensures
        match r {
            Ok((i, refresh_now)) => accounts.active matches Some(a) && position_of(
                accounts.entries@,
                a@,
            ) == Some(i as int) && i < accounts.entries@.len() && refresh_now == needs_refresh_spec(
                accounts.entries@[i as int].tokens,
                *refresh,
                now,
            ),
            Err(e) => (accounts.active is None && e@ == "sign in with antex login"@) || (
            accounts.active matches Some(a) && position_of(accounts.entries@, a@) is None && e@
                == "active account is missing"@),
        },
{
    let alias = match &accounts.active {
        Some(a) => a.as_str(),
        None => return Err(owned("sign in with antex login")),
    };
    let index = match find_account(&accounts.entries, alias) {
        Some(i) => i,
        None => return Err(owned("active account is missing")),
    };
    let tokens = &accounts.entries[index].tokens;
    let refresh_now = match refresh {
        Refresh::IfExpired => tokens.expires_at <= now.saturating_add(REFRESH_MARGIN_SECS),
        Refresh::Rejected(previous) => str_eq(tokens.access_token.as_str(), previous.as_str()),
    };
    Ok((index, refresh_now))
}

/// Store refreshed credentials for the account at `index`; a refresh may not
/// switch accounts.
pub fn accept_refresh(accounts: &mut Accounts, index: usize, refreshed: Tokens) -> (r: Result<(), String>)
    requires
        old(accounts).wf(),
        index < old(accounts).entries@.len(),
    ensures
        final(accounts).wf(),
        match r {
            Ok(()) => refreshed.account_id@ == old(accounts).entries@[index as int].tokens.account_id@
                && final(accounts).active == old(accounts).active && final(accounts).entries@
                == old(accounts).entries@.update(
                index as int,
                AccountEntry { alias: old(accounts).entries@[index as int].alias, tokens: refreshed },
            ),
            Err(e) => refreshed.account_id@ != old(accounts).entries@[index as int].tokens.account_id@
                && e@ == "token refresh changed the active account"@ && *final(accounts)
                == *old(accounts),
        },
{
    if !str_eq(refreshed.account_id.as_str(), accounts.entries[index].tokens.account_id.as_str()) {
        return Err(owned("token refresh changed the active account"));
    }
    let alias = accounts.entries[index].alias.clone();
    proof {
        assert(alias@ == old(accounts).entries@[index as int].alias@);
    }
    let ghost before = accounts.entries@;
    let entry = AccountEntry { alias, tokens: refreshed };
    accounts.entries.set(index, entry);
    proof {
        assert(accounts.entries@ =~= before.update(index as int, entry));
        assert forall|i: int, j: int| 0 <= i < j < accounts.entries@.len() implies (
        #[trigger] accounts.entries@[i]).alias@ != (#[trigger] accounts.entries@[j]).alias@ by {
            assert(before[i].alias@ != before[j].alias@);
        }
    }
    Ok(())
}

/// Store a login's credentials under `alias` and make it the account in
/// use; at most 32 accounts are kept.
pub fn store_login(accounts: &mut Accounts, alias: &str, tokens: Tokens) -> (r: Result<(), String>)
    requires
        old(accounts).wf(),
    ensures
        final(accounts).wf(),
        match r {
            Ok(()) => final(accounts).active matches Some(a) && a@ == alias@ && final(accounts).tokens_of(
                alias@,
            ) == Some(tokens) && forall|other: Seq<char>|
                other != alias@ ==> #[trigger] final(accounts).tokens_of(other) == old(accounts).tokens_of(
                    other,
                ),
            Err(e) => old(accounts).entries@.len() >= MAX_ACCOUNTS && old(accounts).tokens_of(alias@)
                is None && e@ == "too many saved accounts"@ && *final(accounts) == *old(accounts),
        },
        old(accounts).entries@.len() <= MAX_ACCOUNTS ==> final(accounts).entries@.len() <= MAX_ACCOUNTS,
{
    let existing = find_account(&accounts.entries, alias);
    if accounts.entries.len() >= MAX_ACCOUNTS && existing.is_none() {
        return Err(owned("too many saved accounts"));
    }
    let ghost before = accounts.entries@;
    match existing {
        Some(index) => {
            let entry = AccountEntry { alias: owned(alias), tokens };
            proof {
                assert(before[index as int].alias@ == alias@) by {
                    lemma_position_found(before, alias@);
                }
            }
            accounts.entries.set(index, entry);
            proof {
                assert(accounts.entries@ =~= before.update(index as int, entry));
                assert forall|i: int, j: int| 0 <= i < j < accounts.entries@.len() implies (
                #[trigger] accounts.entries@[i]).alias@ != (#[trigger] accounts.entries@[j]).alias@ by {
                    assert(before[i].alias@ != before[j].alias@);
                }
                lemma_position_is_index(accounts.entries@, index as int);
                assert forall|other: Seq<char>| other != alias@ implies #[trigger] saved_tokens(
                    accounts.entries@,
                    other,
                ) == saved_tokens(before, other) by {
                    lemma_position_update(before, index as int, entry, other);
                }
            }
        },
        None => {
            let entry = AccountEntry { alias: owned(alias), tokens };
            accounts.entries.push(entry);
            proof {
                assert(accounts.entries@ =~= before.push(entry));
                assert(accounts.entries@.drop_last() =~= before);
                assert forall|i: int, j: int| 0 <= i < j < accounts.entries@.len() implies (
                #[trigger] accounts.entries@[i]).alias@ != (#[trigger] accounts.entries@[j]).alias@ by {
                    if j == before.len() {
                        if before[i].alias@ == alias@ {
                            lemma_position_is_index(before, i);
                        }
                    } else {
                        assert(before[i].alias@ != before[j].alias@);
                    }
                }
                assert forall|other: Seq<char>| other != alias@ implies #[trigger] saved_tokens(
                    accounts.entries@,
                    other,
                ) == saved_tokens(before, other) by {
                    assert(position_of(accounts.entries@, other) == position_of(before, other));
                    if position_of(before, other) is Some {
                        lemma_position_found(before, other);
                    }
                }
            }
        },
    }
    accounts.active = Some(owned(alias));
    Ok(())
}

/// A found position holds the name.
proof fn lemma_position_found(entries: Seq<AccountEntry>, alias: Seq<char>)
    requires
        position_of(entries, alias) is Some,
    ensures
        0 <= position_of(entries, alias)->0 < entries.len(),
        entries[position_of(entries, alias)->0].alias@ == alias,
    decreases entries.len(),
{
    if entries.last().alias@ != alias {
        lemma_position_found(entries.drop_last(), alias);
    }
}

/// Replacing the entry at `k` by one with the same name leaves every other
/// name where it was.
proof fn lemma_position_update(entries: Seq<AccountEntry>, k: int, e: AccountEntry, other: Seq<char>)
    requires
        0 <= k < entries.len(),
        entries[k].alias@ == e.alias@,
        other != e.alias@,
    ensures
        saved_tokens(entries.update(k, e), other) == saved_tokens(entries, other),
        position_of(entries.update(k, e), other) == position_of(entries, other),
    decreases entries.len(),
{
    let u = entries.update(k, e);
    if entries.len() > 0 {
        if k < entries.len() - 1 {
            assert(u.drop_last() =~= entries.drop_last().update(k, e));
            lemma_position_update(entries.drop_last(), k, e, other);
        } else {
            assert(u.drop_last() =~= entries.drop_last());
        }
    }
    if position_of(entries, other) is Some {
        lemma_position_found(entries, other);
        let i = position_of(entries, other)->0;
        assert(u[i] == entries[i]);
    }
}

} // verus!
