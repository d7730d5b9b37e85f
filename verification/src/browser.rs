//! Browser login: the authorization request that the user's browser opens,
//! and the callback that comes back on a local port (reading the request, the
//! authorization code that it carries, and the page sent back).

use vstd::prelude::*;
use vstd::string::*;
use crate::outside::{
    url_parses, url_path_of, url_query_pairs_of, url_serialized,
    base64url, base64url_encode, parse_url, random_bytes, sha256, sha256_digest, url_append_query_pairs,
    url_into_string, url_path, url_query_pairs,
};
use crate::transcript::{decimal, push_decimal};
use crate::text::{
    chars_between, find_char, first_index, owned, split_words, str_chars, string_from_chars,
    utf8_count, utf8_len, words,
};
use crate::validation::str_eq;

verus! {

/// The longest authorization code accepted, in bytes.
pub const MAX_CODE_BYTES: usize = 1024;

/// How many pairs have the key `key`.
pub open spec fn key_count(pairs: Seq<(Seq<char>, Seq<char>)>, key: Seq<char>) -> nat
    decreases pairs.len(),
{
    if pairs.len() == 0 {
        0
    } else {
        key_count(pairs.drop_last(), key) + if pairs.last().0 == key {
            1nat
        } else {
            0nat
        }
    }
}

/// The value of the last pair with the key `key`.
pub open spec fn last_value(pairs: Seq<(Seq<char>, Seq<char>)>, key: Seq<char>) -> Seq<char>
    decreases pairs.len(),
{
    if pairs.len() == 0 {
        Seq::empty()
    } else if pairs.last().0 == key {
        pairs.last().1
    } else {
        last_value(pairs.drop_last(), key)
    }
}

/// The message for a callback whose URL does not parse.
pub open spec fn invalid_url_message() -> Seq<char> {
    "invalid callback URL"@
}

/// The message for a callback without one matching state and one code.
pub open spec fn invalid_code_message() -> Seq<char> {
    "invalid OAuth state or authorization code"@
}

/// The outcome of a callback request with the given method, URL path and
/// query pairs: the code when the request is a `GET` of `/auth/callback`
/// with exactly one `state` equal to `state` and exactly one non-empty
/// `code` of at most 1024 bytes.
pub open spec fn check_callback_spec(
    method: Option<Seq<char>>,
    path: Seq<char>,
    pairs: Seq<(Seq<char>, Seq<char>)>,
    state: Seq<char>,
) -> Result<Seq<char>, Seq<char>> {
    let code = last_value(pairs, "code"@);
    if method != Some("GET"@) || path != "/auth/callback"@ || key_count(pairs, "state"@) != 1
        || last_value(pairs, "state"@) != state || key_count(pairs, "code"@) != 1 || code.len() == 0
        || utf8_len(code) > MAX_CODE_BYTES {
        Err(invalid_code_message())
    } else {
        Ok(code)
    }
}

/// The pairs as text.
pub open spec fn pairs_text(pairs: Seq<(String, String)>) -> Seq<(Seq<char>, Seq<char>)> {
    pairs.map_values(|p: (String, String)| (p.0@, p.1@))
}

/// The first line of a request.
pub open spec fn request_line(request: Seq<char>) -> Seq<char> {
    match first_index(request, '\n') {
        Some(i) => request.take(i),
        None => request,
    }
}

/// The method of a request: the first word of its first line.
pub open spec fn request_method(request: Seq<char>) -> Option<Seq<char>> {
    let w = words(request_line(request));
    if w.len() > 0 {
        Some(w[0])
    } else {
        None
    }
}

/// Decide a callback request from its method, URL path and query pairs.
pub fn check_callback(method: Option<&str>, path: &str, pairs: &[(String, String)], state: &str) -> (r:
    Result<String, String>)
    ensures
        match r {
            Ok(code) => check_callback_spec(
                match method {
                    Some(m) => Some(m@),
                    None => None,
                },
                path@,
                pairs_text(pairs@),
                state@,
            ) == Ok::<Seq<char>, Seq<char>>(code@),
            Err(e) => check_callback_spec(
                match method {
                    Some(m) => Some(m@),
                    None => None,
                },
                path@,
                pairs_text(pairs@),
                state@,
            ) == Err::<Seq<char>, Seq<char>>(e@),
        },
{
    let ghost pv = pairs_text(pairs@);
    let mut state_count: usize = 0;
    let mut code_count: usize = 0;
    let mut state_index: usize = 0;
    let mut code_index: usize = 0;
    let mut i: usize = 0;
    proof {
        assert(pv.take(0) =~= Seq::<(Seq<char>, Seq<char>)>::empty());
    }
    while i < pairs.len()
        invariant
            pv == pairs_text(pairs@),
            0 <= i <= pairs@.len(),
            state_count == key_count(pv.take(i as int), "state"@),
            code_count == key_count(pv.take(i as int), "code"@),
            state_count <= i,
            code_count <= i,
            state_count > 0 ==> state_index < i && last_value(pv.take(i as int), "state"@) == pairs@[state_index as int].1@,
            code_count > 0 ==> code_index < i && last_value(pv.take(i as int), "code"@) == pairs@[code_index as int].1@,
        decreases pairs@.len() - i,
    {
        proof {
            assert(pv.take(i + 1).drop_last() =~= pv.take(i as int));
            assert(pv.take(i + 1).last() == (pairs@[i as int].0@, pairs@[i as int].1@));
        }
        if str_eq(pairs[i].0.as_str(), "state") {
            state_count = state_count + 1;
            state_index = i;
        }
        if str_eq(pairs[i].0.as_str(), "code") {
            code_count = code_count + 1;
            code_index = i;
        }
        i = i + 1;
    }
    proof {
        assert(pv.take(pairs@.len() as int) =~= pv);
    }
    let method_ok = match method {
        Some(m) => str_eq(m, "GET"),
        None => false,
    };
    if !method_ok || !str_eq(path, "/auth/callback") || state_count != 1 || !str_eq(
        pairs[state_index].1.as_str(),
        state,
    ) || code_count != 1 {
        return Err(owned("invalid OAuth state or authorization code"));
    }
    let code = pairs[code_index].1.as_str();
    if code.is_empty() || utf8_count(code) > MAX_CODE_BYTES as u128 {
        return Err(owned("invalid OAuth state or authorization code"));
    }
    Ok(owned(code))
}

/// The target of a request: the second word of its first line (empty when
/// there is none).
pub open spec fn request_target(request: Seq<char>) -> Seq<char> {
    let w = words(request_line(request));
    if w.len() > 1 {
        w[1]
    } else {
        Seq::empty()
    }
}

/// The local URL that a request's target names.
pub open spec fn callback_address(request: Seq<char>) -> Seq<char> {
    "http://localhost"@ + request_target(request)
}

/// What a callback request yields: an error when its target makes no URL,
/// else the decision of `check_callback_spec` on its method and the URL's
/// path and query pairs.
pub open spec fn callback_code_spec(request: Seq<char>, state: Seq<char>) -> Result<Seq<char>, Seq<char>> {
    let address = callback_address(request);
    if !url_parses(address) {
        Err(invalid_url_message())
    } else {
        check_callback_spec(request_method(request), url_path_of(address), url_query_pairs_of(address), state)
    }
}

/// The authorization code of a browser login callback request: the request
/// must be a `GET` of `/auth/callback` carrying exactly one `state`, equal
/// to `state`, and exactly one non-empty `code` of at most 1024 bytes.
pub fn callback_code(request: &str, state: &str) -> (r: Result<String, String>)
    ensures
        match r {
            Ok(code) => callback_code_spec(request@, state@) == Ok::<Seq<char>, Seq<char>>(code@),
            Err(e) => callback_code_spec(request@, state@) == Err::<Seq<char>, Seq<char>>(e@),
        },
{
    let chars = str_chars(request);
    let line = match find_char(&chars, '\n') {
        Some(i) => chars_between(&chars, 0, i),
        None => chars,
    };
    proof {
        assert(line@ == request_line(request@));
    }
    let parts = split_words(&line);
    proof {
        assert(parts@.len() == words(line@).len());
        if parts@.len() > 0 {
            assert(parts@[0]@ == words(line@)[0]);
        }
        if parts@.len() > 1 {
            assert(parts@[1]@ == words(line@)[1]);
        }
    }
    let method = if parts.len() > 0 {
        Some(string_from_chars(parts[0].as_slice()))
    } else {
        None
    };
    let mut address = owned("http://localhost");
    if parts.len() > 1 {
        let target = string_from_chars(parts[1].as_slice());
        address.append(target.as_str());
    }
    proof {
        reveal_strlit("http://localhost");
        assert(address@ =~= callback_address(request@));
    }
    let url = match parse_url(address.as_str()) {
        Some(url) => url,
        None => return Err(owned("invalid callback URL")),
    };
    let path = url_path(&url);
    let pairs = url_query_pairs(&url);
    let method_str = match &method {
        Some(m) => Some(m.as_str()),
        None => None,
    };
    check_callback(method_str, path.as_str(), pairs.as_slice(), state)
}

/// The most bytes of a callback request head.
pub const MAX_CALLBACK_BYTES: usize = 8192;

/// Where reading a callback request stands after a byte.
#[derive(Clone, Copy, Debug, PartialEq, Eq, Structural)]
pub enum CallbackRead {
    /// The head is complete: it ends with a blank line.
    Complete,
    /// Read another byte.
    More,
    /// 8192 bytes came without the blank line that ends a head.
    TooLarge,
}

/// Whether `bytes` end with the blank line (`\r\n\r\n`) that ends a request head.
pub open spec fn ends_with_blank_line(bytes: Seq<u8>) -> bool {
    bytes.len() >= 4 && bytes.skip(bytes.len() - 4) == seq![13u8, 10u8, 13u8, 10u8]
}

/// What the bytes of a callback request read so far call for.
pub open spec fn callback_read_spec(bytes: Seq<u8>) -> CallbackRead {
    if ends_with_blank_line(bytes) {
        CallbackRead::Complete
    } else if bytes.len() >= MAX_CALLBACK_BYTES {
        CallbackRead::TooLarge
    } else {
        CallbackRead::More
    }
}

/// After each byte of a callback request: stop at the blank line that ends
/// its head, give up at 8192 bytes, or read on.
pub fn callback_read_step(bytes: &[u8]) -> (r: CallbackRead)
    ensures
        r == callback_read_spec(bytes@),
{
    let n = bytes.len();
    let complete = n >= 4 && bytes[n - 4] == 13 && bytes[n - 3] == 10 && bytes[n - 2] == 13 && bytes[n
        - 1] == 10;
    proof {
        if n >= 4 {
            let tail = bytes@.skip(n - 4);
            if complete {
                assert(tail =~= seq![13u8, 10u8, 13u8, 10u8]);
            } else if tail == seq![13u8, 10u8, 13u8, 10u8] {
                assert(tail[0] == bytes@[n - 4] && tail[1] == bytes@[n - 3] && tail[2] == bytes@[n - 2]
                    && tail[3] == bytes@[n - 1]);
            }
        }
    }
    if complete {
        CallbackRead::Complete
    } else if n >= MAX_CALLBACK_BYTES {
        CallbackRead::TooLarge
    } else {
        CallbackRead::More
    }
}

/// The status line of the page sent back to the browser.
pub open spec fn reply_status(signed_in: bool) -> Seq<char> {
    if signed_in {
        "200 OK"@
    } else {
        "400 Bad Request"@
    }
}

/// The text of the page sent back to the browser.
pub open spec fn reply_body(signed_in: bool) -> Seq<char> {
    if signed_in {
        "Signed in to Antex. You may close this tab."@
    } else {
        "Login failed. Return to Antex."@
    }
}

/// The HTTP response sent back to the browser: its status, a
/// `Content-Length` that gives the body's bytes, and the body.
pub open spec fn reply_spec(signed_in: bool) -> Seq<char> {
    "HTTP/1.1 "@ + reply_status(signed_in) + "\r\nContent-Length: "@ + decimal(
        utf8_len(reply_body(signed_in)) as nat,
    ) + "\r\nContent-Type: text/plain\r\nConnection: close\r\n\r\n"@ + reply_body(signed_in)
}

/// A string takes at most four bytes a character.
proof fn lemma_utf8_len_bound(s: Seq<char>)
    ensures
        0 <= utf8_len(s) <= 4 * s.len(),
    decreases s.len(),
{
    if s.len() > 0 {
        lemma_utf8_len_bound(s.drop_last());
    }
}

/// The response to a browser login callback, after the login succeeded or
/// failed.
pub fn callback_reply(signed_in: bool) -> (r: String)
    ensures
        r@ == reply_spec(signed_in),
{
    let status = if signed_in {
        "200 OK"
    } else {
        "400 Bad Request"
    };
    let body = if signed_in {
        "Signed in to Antex. You may close this tab."
    } else {
        "Login failed. Return to Antex."
    };
    proof {
        reveal_strlit("Signed in to Antex. You may close this tab.");
        reveal_strlit("Login failed. Return to Antex.");
        lemma_utf8_len_bound(body@);
    }
    let length = utf8_count(body) as usize;
    let mut reply = owned("HTTP/1.1 ");
    reply.append(status);
    reply.append("\r\nContent-Length: ");
    push_decimal(&mut reply, length);
    reply.append("\r\nContent-Type: text/plain\r\nConnection: close\r\n\r\n");
    reply.append(body);
    reply
}

/// The OAuth client that logins identify as.
pub open spec fn client_id() -> Seq<char> {
    "app_EMoamEEZ73f0CkXaXp7hrann"@
}

/// What starting a browser login gives: the page to open, and what the
/// callback is checked and exchanged against.
#[derive(Clone, Debug)]
pub struct BrowserLoginStart {
    pub authorization_url: String,
    pub verifier: String,
    pub state: String,
    pub redirect: String,
}

/// The redirect address for a callback on local port `port`.
pub open spec fn redirect_spec(port: u16) -> Seq<char> {
    "http://localhost:"@ + decimal(port as nat) + "/auth/callback"@
}

/// The query of the authorization request: an authorization code with the
/// PKCE challenge (S256), the redirect, the scopes and the state.
pub open spec fn authorization_query_spec(redirect: Seq<char>, challenge: Seq<char>, state: Seq<char>) -> Seq<
    (Seq<char>, Seq<char>),
> {
    seq![
        ("response_type"@, "code"@),
        ("client_id"@, client_id()),
        ("redirect_uri"@, redirect),
        ("scope"@, "openid profile email offline_access"@),
        ("code_challenge"@, challenge),
        ("code_challenge_method"@, "S256"@),
        ("state"@, state),
        ("id_token_add_organizations"@, "true"@),
        ("codex_cli_simplified_flow"@, "true"@),
        ("originator"@, "codex_cli_rs"@),
    ]
}

/// The views of some pairs of strings.
pub open spec fn string_pairs(pairs: Seq<(String, String)>) -> Seq<(Seq<char>, Seq<char>)> {
    pairs.map_values(|p: (String, String)| (p.0@, p.1@))
}

fn pair(key: &str, value: &str) -> (r: (String, String))
    ensures
        r.0@ == key@,
        r.1@ == value@,
{
    (owned(key), owned(value))
}

/// The query of the authorization request.
pub fn authorization_query(redirect: &str, challenge: &str, state: &str) -> (r: Vec<(String, String)>)
    ensures
        string_pairs(r@) == authorization_query_spec(redirect@, challenge@, state@),
{
    let r = vec![
        pair("response_type", "code"),
        pair("client_id", "app_EMoamEEZ73f0CkXaXp7hrann"),
        pair("redirect_uri", redirect),
        pair("scope", "openid profile email offline_access"),
        pair("code_challenge", challenge),
        pair("code_challenge_method", "S256"),
        pair("state", state),
        pair("id_token_add_organizations", "true"),
        pair("codex_cli_simplified_flow", "true"),
        pair("originator", "codex_cli_rs"),
    ];
    proof {
        assert(string_pairs(r@) =~= authorization_query_spec(redirect@, challenge@, state@));
    }
    r
}

/// The PKCE challenge of a verifier: the URL-safe base64 of the SHA-256
/// digest of its bytes.
pub fn pkce_challenge(verifier: &str) -> (r: String)
    ensures
        r@ == base64url(sha256(verifier.spec_bytes())),
{
    let digest = sha256_digest(verifier.as_bytes());
    base64url_encode(digest.as_slice())
}

/// The address of the authorization request at `issuer`.
pub open spec fn authorize_address(issuer: Seq<char>) -> Seq<char> {
    issuer + "/oauth/authorize"@
}

/// The PKCE challenge of a verifier.
pub open spec fn challenge_spec(verifier: Seq<char>) -> Seq<char> {
    base64url(sha256(vstd::utf8::encode_utf8(verifier)))
}

/// The authorization URL for a login with this verifier and state.
pub open spec fn authorization_url_spec(issuer: Seq<char>, port: u16, verifier: Seq<char>, state: Seq<char>) -> Seq<char> {
    url_serialized(
        authorize_address(issuer),
        authorization_query_spec(redirect_spec(port), challenge_spec(verifier), state),
    )
}

/// Start a browser login whose callback comes to local port `port`, from
/// the random bytes of its verifier and its state: both are their URL-safe
/// base64, and the authorization request at `issuer` carries the query of
/// `authorization_query` with the verifier's challenge. An issuer that makes
/// no URL is refused.
pub fn browser_login_from(issuer: &str, port: u16, verifier_bytes: &[u8; 64], state_bytes: &[u8; 64]) -> (r:
    Result<BrowserLoginStart, String>)
    ensures
        r is Ok <==> url_parses(authorize_address(issuer@)),
        match r {
            Ok(login) => login.redirect@ == redirect_spec(port) && login.verifier@ == base64url(
                verifier_bytes@,
            ) && login.state@ == base64url(state_bytes@) && login.authorization_url@ == authorization_url_spec(
                issuer@,
                port,
                login.verifier@,
                login.state@,
            ),
            Err(e) => e@ == "invalid OAuth issuer"@,
        },
{
    let mut redirect = owned("http://localhost:");
    push_decimal(&mut redirect, port as usize);
    redirect.append("/auth/callback");
    let verifier = base64url_encode(verifier_bytes.as_slice());
    let state = base64url_encode(state_bytes.as_slice());
    let challenge = pkce_challenge(verifier.as_str());
    let mut address = owned(issuer);
    address.append("/oauth/authorize");
    let mut url = match parse_url(address.as_str()) {
        Some(url) => url,
        None => return Err(owned("invalid OAuth issuer")),
    };
    let query = authorization_query(redirect.as_str(), challenge.as_str(), state.as_str());
    url_append_query_pairs(&mut url, query.as_slice());
    proof {
        assert(Seq::<(Seq<char>, Seq<char>)>::empty() + string_pairs(query@) =~= string_pairs(query@));
    }
    let authorization_url = url_into_string(url);
    Ok(BrowserLoginStart { authorization_url, verifier, state, redirect })
}

/// Start a browser login whose callback comes to local port `port`, with a
/// fresh random verifier and state: the URL-safe base64 of 64 drawn bytes
/// each. Success depends on the issuer's address alone.
pub fn begin_browser_login(issuer: &str, port: u16) -> (r: Result<BrowserLoginStart, String>)
    ensures
        r is Ok <==> url_parses(authorize_address(issuer@)),
        match r {
            Ok(login) => login.redirect@ == redirect_spec(port) && (exists|v: Seq<u8>, s: Seq<u8>|
                v.len() == 64 && s.len() == 64 && login.verifier@ == #[trigger] base64url(v)
                    && login.state@ == #[trigger] base64url(s)) && login.authorization_url@
                == authorization_url_spec(issuer@, port, login.verifier@, login.state@),
            Err(e) => e@ == "invalid OAuth issuer"@,
        },
{
    let verifier_bytes = random_bytes();
    let state_bytes = random_bytes();
    browser_login_from(issuer, port, &verifier_bytes, &state_bytes)
}

} // verus!
