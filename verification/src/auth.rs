//! OAuth token responses: which credentials a login or refresh yields.

use vstd::prelude::*;
use crate::outside::{base64url_decode, base64url_decoded};
use crate::text::{owned, str_chars, utf8_count, utf8_len, chars_between, find_char, string_from_chars};

verus! {

/// The longest account id accepted, in bytes.
pub const MAX_ACCOUNT_ID_BYTES: usize = 128;

/// The longest access or refresh token accepted, in bytes.
pub const MAX_TOKEN_BYTES: usize = 65536;

/// The fields of an OAuth token response that a login reads; a field that
/// is missing or not of its JSON type is none.
#[derive(Clone, Debug)]
pub struct TokenResponse {
    pub access_token: Option<String>,
    pub refresh_token: Option<String>,
    pub expires_in: Option<u64>,
}

/// The claims of an access token that a login reads.
#[derive(Clone, Debug)]
pub struct TokenClaims {
    pub account_id: Option<String>,
    pub exp: Option<u64>,
}

/// Stored OAuth credentials.
#[derive(Clone, Debug, PartialEq, Eq)]
pub struct Tokens {
    pub access_token: String,
    pub refresh_token: String,
    pub account_id: String,
    pub expires_at: u64,
}

pub open spec fn nonempty(s: Option<String>) -> Option<Seq<char>> {
    match s {
        Some(v) => if v@.len() > 0 {
            Some(v@)
        } else {
            None
        },
        None => None,
    }
}

/// The credentials a token response yields, with its access token's claims
/// (or why they could not be read), the credentials held before, and the
/// current time: account and refresh token fall back to the previous ones,
/// the expiry to `now + expires_in` (saturating).
pub open spec fn tokens_spec(
    response: TokenResponse,
    claims: Result<TokenClaims, Seq<char>>,
    previous: Option<Tokens>,
    now: u64,
) -> Result<(Seq<char>, Seq<char>, Seq<char>, u64), Seq<char>> {
    match nonempty(response.access_token) {
        None => Err("OAuth response has no access token"@),
        Some(access) => match claims {
            Err(e) => Err(e),
            Ok(c) => {
                let account = match c.account_id {
                    Some(a) => Some(a@),
                    None => match previous {
                        Some(p) => Some(p.account_id@),
                        None => None,
                    },
                };
                let refresh = match nonempty(response.refresh_token) {
                    Some(r) => Some(r),
                    None => match previous {
                        Some(p) => Some(p.refresh_token@),
                        None => None,
                    },
                };
                let expires = match c.exp {
                    Some(e) => Some(e),
                    None => match response.expires_in {
                        Some(s) => Some(if now + s > u64::MAX {
                            u64::MAX
                        } else {
                            (now + s) as u64
                        }),
                        None => None,
                    },
                };
                match account {
                    None => Err("OAuth response has no ChatGPT account"@),
                    Some(account) => match refresh {
                        None => Err("OAuth response has no refresh token"@),
                        Some(refresh) => match expires {
                            None => Err("OAuth response has no token expiration"@),
                            Some(expires) => if account.len() == 0 || utf8_len(account)
                                > MAX_ACCOUNT_ID_BYTES || utf8_len(access) > MAX_TOKEN_BYTES
                                || utf8_len(refresh) > MAX_TOKEN_BYTES {
                                Err("OAuth credentials exceed their size budget"@)
                            } else {
                                Ok((access, refresh, account, expires))
                            },
                        },
                    },
                }
            },
        },
    }
}

/// A token response yields credentials exactly when it has an access token,
/// its claims read, an account id and a refresh token can be found (in the
/// claims and the response, or else among the previous credentials), an
/// expiry can be found (in the claims, or else from `expires_in`), and all of
/// them fit their size budgets; the credentials then carry the response's
/// access token, and what the response lacks is kept from before.
pub proof fn lemma_tokens_from_response(
    response: TokenResponse,
    claims: Result<TokenClaims, Seq<char>>,
    previous: Option<Tokens>,
    now: u64,
)
    ensures
        tokens_spec(response, claims, previous, now) is Ok ==> {
            &&& nonempty(response.access_token) is Some
            &&& claims is Ok
            &&& (claims->Ok_0.account_id is Some || previous is Some)
            &&& (nonempty(response.refresh_token) is Some || previous is Some)
            &&& (claims->Ok_0.exp is Some || response.expires_in is Some)
            &&& tokens_spec(response, claims, previous, now)->Ok_0.0 == nonempty(response.access_token)->0
            &&& (nonempty(response.refresh_token) is None ==> tokens_spec(response, claims, previous, now)->Ok_0.1
                == previous->0.refresh_token@)
            &&& (claims->Ok_0.account_id is None ==> tokens_spec(response, claims, previous, now)->Ok_0.2
                == previous->0.account_id@)
        },
        (nonempty(response.access_token) is Some && claims is Ok && (claims->Ok_0.account_id is Some
            || previous is Some) && (nonempty(response.refresh_token) is Some || previous is Some) && (
        claims->Ok_0.exp is Some || response.expires_in is Some)) ==> (tokens_spec(response, claims, previous, now) is Ok
            <==> (tokens_spec(response, claims, previous, now) != Err::<(Seq<char>, Seq<char>, Seq<char>, u64), Seq<char>>(
            "OAuth credentials exceed their size budget"@,
        ))),
{
}

/// Where each stored field comes from: the access token is the response's;
/// a non-empty refresh token in the response replaces the previous one (the
/// previous one is kept only when the response has none); the account id in
/// the claims wins over the previous one; the expiry is the claims' `exp`, or
/// else `now + expires_in`, saturating at the largest `u64`.
pub proof fn lemma_token_fields_source(
    response: TokenResponse,
    claims: Result<TokenClaims, Seq<char>>,
    previous: Option<Tokens>,
    now: u64,
)
    ensures
        tokens_spec(response, claims, previous, now) is Ok ==> {
            let t = tokens_spec(response, claims, previous, now)->Ok_0;
            &&& t.0 == response.access_token->0@
            &&& (response.refresh_token is Some && response.refresh_token->0@.len() > 0) ==> t.1
                == response.refresh_token->0@
            &&& (response.refresh_token is None || response.refresh_token->0@.len() == 0) ==> t.1
                == previous->0.refresh_token@
            &&& claims->Ok_0.account_id is Some ==> t.2 == claims->Ok_0.account_id->0@
            &&& claims->Ok_0.account_id is None ==> t.2 == previous->0.account_id@
            &&& claims->Ok_0.exp is Some ==> t.3 == claims->Ok_0.exp->0
            &&& (claims->Ok_0.exp is None && now + response.expires_in->0 <= u64::MAX) ==> t.3 == now
                + response.expires_in->0
            &&& (claims->Ok_0.exp is None && now + response.expires_in->0 > u64::MAX) ==> t.3 == u64::MAX
        },
{
}

pub open spec fn claims_view(c: Result<TokenClaims, String>) -> Result<TokenClaims, Seq<char>> {
    match c {
        Ok(v) => Ok(v),
        Err(e) => Err(e@),
    }
}

pub open spec fn tokens_view(t: Option<&Tokens>) -> Option<Tokens> {
    match t {
        Some(v) => Some(*v),
        None => None,
    }
}

fn nonempty_str(s: &Option<String>) -> (r: Option<&str>)
    ensures
        match r {
            Some(v) => nonempty(*s) == Some(v@),
            None => nonempty(*s) is None,
        },
{
    match s {
        Some(v) => if v.as_str().is_empty() {
            None
        } else {
            Some(v.as_str())
        },
        None => None,
    }
}

/// The credentials a token response yields, or why it yields none.
pub fn tokens_from_response(
    response: &TokenResponse,
    claims: Result<TokenClaims, String>,
    previous: Option<&Tokens>,
    now: u64,
) -> (r: Result<Tokens, String>)
    ensures
        match r {
            Ok(t) => tokens_spec(*response, claims_view(claims), tokens_view(previous), now) == Ok::<
                (Seq<char>, Seq<char>, Seq<char>, u64),
                Seq<char>,
            >((t.access_token@, t.refresh_token@, t.account_id@, t.expires_at)),
            Err(e) => tokens_spec(*response, claims_view(claims), tokens_view(previous), now) == Err::<
                (Seq<char>, Seq<char>, Seq<char>, u64),
                Seq<char>,
            >(e@),
        },
{
    let access = match nonempty_str(&response.access_token) {
        Some(a) => a,
        None => return Err(owned("OAuth response has no access token")),
    };
    let claims = match claims {
        Ok(c) => c,
        Err(e) => return Err(e),
    };
    let account: &str = match &claims.account_id {
        Some(a) => a.as_str(),
        None => match previous {
            Some(p) => p.account_id.as_str(),
            None => return Err(owned("OAuth response has no ChatGPT account")),
        },
    };
    let refresh: &str = match nonempty_str(&response.refresh_token) {
        Some(r) => r,
        None => match previous {
            Some(p) => p.refresh_token.as_str(),
            None => return Err(owned("OAuth response has no refresh token")),
        },
    };
    let expires_at = match claims.exp {
        Some(e) => e,
        None => match response.expires_in {
            Some(seconds) => now.saturating_add(seconds),
            None => return Err(owned("OAuth response has no token expiration")),
        },
    };
    if account.is_empty() || utf8_count(account) > MAX_ACCOUNT_ID_BYTES as u128 || utf8_count(access)
        > MAX_TOKEN_BYTES as u128 || utf8_count(refresh) > MAX_TOKEN_BYTES as u128 {
        return Err(owned("OAuth credentials exceed their size budget"));
    }
    Ok(
        Tokens {
            access_token: owned(access),
            refresh_token: owned(refresh),
            account_id: owned(account),
            expires_at,
        },
    )
}

/// The second `.`-separated segment of a token: the payload of a JWT.
pub open spec fn payload_segment(token: Seq<char>) -> Option<Seq<char>> {
    match crate::text::first_index(token, '.') {
        None => None,
        Some(i) => {
            let rest = token.skip(i + 1);
            match crate::text::first_index(rest, '.') {
                Some(j) => Some(rest.take(j)),
                None => Some(rest),
            }
        },
    }
}

/// The payload segment of an access token, which holds its claims.
pub fn token_payload_segment(token: &str) -> (r: Option<String>)
    ensures
        match r {
            Some(s) => payload_segment(token@) == Some(s@),
            None => payload_segment(token@) is None,
        },
{
    let chars = str_chars(token);
    let n = chars.len();
    let i = find_char(&chars, '.')?;
    let rest = chars_between(&chars, i + 1, n);
    proof {
        assert(rest@ =~= token@.skip(i + 1));
    }
    match find_char(&rest, '.') {
        Some(j) => {
            let segment = chars_between(&rest, 0, j);
            proof {
                assert(segment@ =~= rest@.take(j as int));
            }
            Some(string_from_chars(segment.as_slice()))
        },
        None => Some(string_from_chars(rest.as_slice())),
    }
}

/// The decoded claims payload of an access token: its payload segment, as
/// URL-safe base64 without padding.
pub open spec fn payload_bytes_spec(token: Seq<char>) -> Result<Seq<u8>, Seq<char>> {
    match payload_segment(token) {
        None => Err("invalid access token"@),
        Some(segment) => match base64url_decoded(segment) {
            Some(bytes) => Ok(bytes),
            None => Err("invalid access token payload"@),
        },
    }
}

/// The bytes of an access token's claims: its payload segment decoded from
/// URL-safe base64; an error when it has no payload or that is not base64.
pub fn access_token_payload(token: &str) -> (r: Result<Vec<u8>, String>)
    ensures
        match r {
            Ok(bytes) => payload_bytes_spec(token@) == Ok::<Seq<u8>, Seq<char>>(bytes@),
            Err(e) => payload_bytes_spec(token@) == Err::<Seq<u8>, Seq<char>>(e@),
        },
{
    let segment = match token_payload_segment(token) {
        Some(s) => s,
        None => return Err(owned("invalid access token")),
    };
    match base64url_decode(segment.as_str()) {
        Some(bytes) => Ok(bytes),
        None => Err(owned("invalid access token payload")),
    }
}

} // verus!
