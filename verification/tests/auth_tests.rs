use antex::auth::access_token_payload;
use antex::auth::{token_payload_segment, tokens_from_response, TokenClaims, TokenResponse, Tokens};

fn response(access: Option<&str>, refresh: Option<&str>, expires_in: Option<u64>) -> TokenResponse {
    TokenResponse {
        access_token: access.map(str::to_string),
        refresh_token: refresh.map(str::to_string),
        expires_in,
    }
}

fn claims(account: Option<&str>, exp: Option<u64>) -> Result<TokenClaims, String> {
    Ok(TokenClaims { account_id: account.map(str::to_string), exp })
}

#[test]
fn fresh_login_takes_every_field_from_the_response() {
    let tokens = tokens_from_response(
        &response(Some("a.b.c"), Some("r1"), Some(60)),
        claims(Some("acct"), None),
        None,
        1000,
    )
    .unwrap();
    assert_eq!(
        tokens,
        Tokens {
            access_token: "a.b.c".to_string(),
            refresh_token: "r1".to_string(),
            account_id: "acct".to_string(),
            expires_at: 1060,
        }
    );
}

#[test]
fn refresh_keeps_previous_account_and_refresh_token_and_prefers_the_exp_claim() {
    let previous = Tokens {
        access_token: "old".to_string(),
        refresh_token: "r0".to_string(),
        account_id: "acct0".to_string(),
        expires_at: 5,
    };
    let tokens = tokens_from_response(
        &response(Some("new"), Some(""), Some(60)),
        claims(None, Some(77)),
        Some(&previous),
        u64::MAX,
    )
    .unwrap();
    assert_eq!(tokens.refresh_token, "r0");
    assert_eq!(tokens.account_id, "acct0");
    assert_eq!(tokens.expires_at, 77);
    let tokens = tokens_from_response(
        &response(Some("new"), None, Some(60)),
        claims(None, None),
        Some(&previous),
        u64::MAX - 1,
    )
    .unwrap();
    assert_eq!(tokens.expires_at, u64::MAX);
}

#[test]
fn each_missing_field_has_its_error() {
    assert_eq!(
        tokens_from_response(&response(Some(""), Some("r"), Some(1)), claims(Some("a"), None), None, 0),
        Err("OAuth response has no access token".to_string())
    );
    assert_eq!(
        tokens_from_response(&response(Some("t"), Some("r"), Some(1)), Err("invalid access token".to_string()), None, 0),
        Err("invalid access token".to_string())
    );
    assert_eq!(
        tokens_from_response(&response(Some("t"), Some("r"), Some(1)), claims(None, None), None, 0),
        Err("OAuth response has no ChatGPT account".to_string())
    );
    assert_eq!(
        tokens_from_response(&response(Some("t"), None, Some(1)), claims(Some("a"), None), None, 0),
        Err("OAuth response has no refresh token".to_string())
    );
    assert_eq!(
        tokens_from_response(&response(Some("t"), Some("r"), None), claims(Some("a"), None), None, 0),
        Err("OAuth response has no token expiration".to_string())
    );
    assert_eq!(
        tokens_from_response(&response(Some("t"), Some("r"), Some(1)), claims(Some(""), None), None, 0),
        Err("OAuth credentials exceed their size budget".to_string())
    );
    let long_account = "x".repeat(129);
    assert_eq!(
        tokens_from_response(&response(Some("t"), Some("r"), Some(1)), claims(Some(&long_account), None), None, 0),
        Err("OAuth credentials exceed their size budget".to_string())
    );
}

#[test]
fn payload_segment_is_the_second_dot_separated_part() {
    assert_eq!(token_payload_segment("h.p.s"), Some("p".to_string()));
    assert_eq!(token_payload_segment("h.p"), Some("p".to_string()));
    assert_eq!(token_payload_segment("h"), None);
    assert_eq!(token_payload_segment("h..s"), Some(String::new()));
}

#[test]
fn access_token_claims_are_its_decoded_payload() {
    assert_eq!(access_token_payload("e30.eyJleHAiOjF9.sig"), Ok(b"{\"exp\":1}".to_vec()));
    assert_eq!(access_token_payload("e30.e30"), Ok(b"{}".to_vec()));
    assert_eq!(access_token_payload("opaque"), Err("invalid access token".to_string()));
    assert_eq!(access_token_payload("a.!!!.c"), Err("invalid access token payload".to_string()));
}
