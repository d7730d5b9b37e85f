use antex::browser::{authorization_query, begin_browser_login, browser_login_from, pkce_challenge};
use antex::browser::{callback_read_step, callback_reply, CallbackRead};
use antex::browser::{callback_code, check_callback};

fn pairs(items: &[(&str, &str)]) -> Vec<(String, String)> {
    items.iter().map(|(k, v)| (k.to_string(), v.to_string())).collect()
}

#[test]
fn callback_yields_the_code_for_the_matching_state() {
    let request = "GET /auth/callback?code=abc%2F1&state=s1 HTTP/1.1\r\nHost: localhost\r\n\r\n";
    assert_eq!(callback_code(request, "s1"), Ok("abc/1".to_string()));
}

#[test]
fn callback_rejects_wrong_state_method_path_and_codes() {
    let invalid = Err("invalid OAuth state or authorization code".to_string());
    assert_eq!(callback_code("GET /auth/callback?code=abc&state=s2 HTTP/1.1", "s1"), invalid);
    assert_eq!(callback_code("POST /auth/callback?code=abc&state=s1 HTTP/1.1", "s1"), invalid);
    assert_eq!(callback_code("GET /other?code=abc&state=s1 HTTP/1.1", "s1"), invalid);
    assert_eq!(callback_code("GET /auth/callback?code=&state=s1 HTTP/1.1", "s1"), invalid);
    assert_eq!(
        callback_code("GET /auth/callback?code=a&code=b&state=s1 HTTP/1.1", "s1"),
        invalid
    );
    assert_eq!(callback_code("", "s1"), invalid);
    let long = format!("GET /auth/callback?code={}&state=s1 HTTP/1.1", "x".repeat(1025));
    assert_eq!(callback_code(&long, "s1"), invalid);
    let limit = format!("GET /auth/callback?code={}&state=s1 HTTP/1.1", "x".repeat(1024));
    assert_eq!(callback_code(&limit, "s1").map(|c| c.len()), Ok(1024));
}

#[test]
fn callback_with_an_unparsable_target_is_an_invalid_url() {
    assert_eq!(
        callback_code("GET :99999/auth/callback HTTP/1.1", "s1"),
        Err("invalid callback URL".to_string())
    );
}

#[test]
fn check_callback_decides_from_method_path_and_pairs() {
    assert_eq!(
        check_callback(Some("GET"), "/auth/callback", &pairs(&[("state", "s"), ("code", "c")]), "s"),
        Ok("c".to_string())
    );
    assert!(check_callback(None, "/auth/callback", &pairs(&[("state", "s"), ("code", "c")]), "s").is_err());
    assert!(check_callback(Some("GET"), "/auth/callback", &pairs(&[("state", "s"), ("state", "s"), ("code", "c")]), "s").is_err());
    assert!(check_callback(Some("GET"), "/auth/callback", &pairs(&[("code", "c")]), "s").is_err());
}

#[test]
fn a_callback_head_ends_at_its_blank_line() {
    assert_eq!(callback_read_step(b""), CallbackRead::More);
    assert_eq!(callback_read_step(b"GET / HTTP/1.1\r\n"), CallbackRead::More);
    assert_eq!(callback_read_step(b"GET / HTTP/1.1\r\n\r\n"), CallbackRead::Complete);
    assert_eq!(callback_read_step(b"\n\n"), CallbackRead::More);
}

#[test]
fn a_callback_head_is_read_up_to_8192_bytes() {
    let mut head = vec![b'a'; 8191];
    assert_eq!(callback_read_step(&head), CallbackRead::More);
    head.push(b'a');
    assert_eq!(callback_read_step(&head), CallbackRead::TooLarge);
    let mut head = vec![b'a'; 8188];
    head.extend_from_slice(b"\r\n\r\n");
    assert_eq!(callback_read_step(&head), CallbackRead::Complete);
}

#[test]
fn the_browser_gets_a_page_with_its_length() {
    assert_eq!(
        callback_reply(true),
        "HTTP/1.1 200 OK\r\nContent-Length: 43\r\nContent-Type: text/plain\r\nConnection: close\r\n\r\nSigned in to Antex. You may close this tab."
    );
    assert_eq!(
        callback_reply(false),
        "HTTP/1.1 400 Bad Request\r\nContent-Length: 30\r\nContent-Type: text/plain\r\nConnection: close\r\n\r\nLogin failed. Return to Antex."
    );
}

#[test]
fn pkce_challenges_follow_rfc_7636() {
    assert_eq!(
        pkce_challenge("dBjftJeZ4CVP-mB92K27uhbUJU1p1r_wW1gFWFOEjXk"),
        "E9Melhoa2OwvFrEMTJguCHaoeK1t8URWbuGJSstw-cM"
    );
}

#[test]
fn the_authorization_query_names_the_flow() {
    let query = authorization_query("http://localhost:1455/auth/callback", "CH", "ST");
    let expected: Vec<(String, String)> = [
        ("response_type", "code"),
        ("client_id", "app_EMoamEEZ73f0CkXaXp7hrann"),
        ("redirect_uri", "http://localhost:1455/auth/callback"),
        ("scope", "openid profile email offline_access"),
        ("code_challenge", "CH"),
        ("code_challenge_method", "S256"),
        ("state", "ST"),
        ("id_token_add_organizations", "true"),
        ("codex_cli_simplified_flow", "true"),
        ("originator", "codex_cli_rs"),
    ]
    .iter()
    .map(|(k, v)| (k.to_string(), v.to_string()))
    .collect();
    assert_eq!(query, expected);
}

#[test]
fn a_browser_login_starts_from_its_random_bytes() {
    let login = browser_login_from("https://auth.example", 1457, &[0u8; 64], &[255u8; 64]).unwrap();
    assert_eq!(login.redirect, "http://localhost:1457/auth/callback");
    assert_eq!(login.verifier, "A".repeat(86));
    assert_eq!(login.state, format!("{}w", "_".repeat(85)));
    let challenge = pkce_challenge(&login.verifier);
    assert!(login.authorization_url.starts_with(
        "https://auth.example/oauth/authorize?response_type=code&client_id=app_EMoamEEZ73f0CkXaXp7hrann&redirect_uri=http%3A%2F%2Flocalhost%3A1457%2Fauth%2Fcallback&"
    ));
    assert!(login.authorization_url.contains(&format!("&code_challenge={challenge}&code_challenge_method=S256&")));
    assert!(login.authorization_url.contains(&format!("&state={}&", login.state)));
    assert!(login.authorization_url.ends_with("&originator=codex_cli_rs"));
}

#[test]
fn fresh_browser_logins_draw_new_secrets() {
    let first = begin_browser_login("https://auth.example", 1455).unwrap();
    let second = begin_browser_login("https://auth.example", 1455).unwrap();
    assert_eq!(first.redirect, "http://localhost:1455/auth/callback");
    assert_eq!(first.verifier.len(), 86);
    assert_ne!(first.verifier, first.state);
    assert_ne!(first.verifier, second.verifier);
}

#[test]
fn an_issuer_must_make_a_url() {
    assert_eq!(
        browser_login_from("not a url", 1455, &[1u8; 64], &[2u8; 64]).unwrap_err(),
        "invalid OAuth issuer"
    );
}
