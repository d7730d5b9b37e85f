use antex::device_login::{
    begin_device_login, device_authorization, device_login_pending, parse_u64, DeviceAuthorization,
    DeviceCodeResponse, DeviceTokenResponse,
};

fn answer(id: Option<&str>, user_code: Option<&str>, usercode: Option<&str>) -> DeviceCodeResponse {
    DeviceCodeResponse {
        device_auth_id: id.map(str::to_string),
        user_code: user_code.map(str::to_string),
        usercode: usercode.map(str::to_string),
        interval: None,
        interval_text: None,
    }
}

#[test]
fn a_device_code_answer_starts_a_login() {
    let login = begin_device_login("https://auth.example", &answer(Some("dev-1"), Some("ABCD-1234"), None))
        .unwrap();
    assert_eq!(login.verification_url, "https://auth.example/codex/device");
    assert_eq!(login.user_code, "ABCD-1234");
    assert_eq!(login.device_auth_id, "dev-1");
    assert_eq!(login.interval_secs, 5);
}

#[test]
fn the_user_code_may_come_under_its_older_name() {
    let login = begin_device_login("i", &answer(Some("d"), None, Some("OLD-1"))).unwrap();
    assert_eq!(login.user_code, "OLD-1");
    // A present but empty `user_code` is not replaced by `usercode`.
    assert_eq!(
        begin_device_login("i", &answer(Some("d"), Some(""), Some("OLD-1"))).unwrap_err(),
        "device login returned an invalid user code"
    );
    let long = "x".repeat(129);
    assert_eq!(
        begin_device_login("i", &answer(Some("d"), Some(&long), None)).unwrap_err(),
        "device login returned an invalid user code"
    );
    assert!(begin_device_login("i", &answer(Some("d"), Some(&"x".repeat(128)), None)).is_ok());
}

#[test]
fn a_device_code_answer_needs_a_device_id() {
    assert_eq!(
        begin_device_login("i", &answer(None, Some("C"), None)).unwrap_err(),
        "invalid device login response"
    );
    assert_eq!(
        begin_device_login("i", &answer(Some(""), None, None)).unwrap_err(),
        "invalid device login response"
    );
    let long = "é".repeat(513);
    assert_eq!(
        begin_device_login("i", &answer(Some(&long), Some("C"), None)).unwrap_err(),
        "invalid device login response"
    );
}

#[test]
fn the_poll_interval_is_kept_between_one_second_and_a_minute() {
    let mut response = answer(Some("d"), Some("C"), None);
    response.interval = Some(0);
    assert_eq!(begin_device_login("i", &response).unwrap().interval_secs, 1);
    response.interval = Some(3600);
    assert_eq!(begin_device_login("i", &response).unwrap().interval_secs, 60);
    response.interval = None;
    response.interval_text = Some("12".to_string());
    assert_eq!(begin_device_login("i", &response).unwrap().interval_secs, 12);
    response.interval_text = Some("soon".to_string());
    assert_eq!(begin_device_login("i", &response).unwrap().interval_secs, 5);
}

#[test]
fn decimal_numbers_parse_as_u64() {
    assert_eq!(parse_u64("0"), Some(0));
    assert_eq!(parse_u64("+42"), Some(42));
    assert_eq!(parse_u64("007"), Some(7));
    assert_eq!(parse_u64("18446744073709551615"), Some(u64::MAX));
    assert_eq!(parse_u64("18446744073709551616"), None);
    assert_eq!(parse_u64(""), None);
    assert_eq!(parse_u64("+"), None);
    assert_eq!(parse_u64("-1"), None);
    assert_eq!(parse_u64("1 "), None);
    assert_eq!(parse_u64("1_000"), None);
}

#[test]
fn polling_waits_while_the_user_has_not_finished() {
    assert!(device_login_pending(403));
    assert!(device_login_pending(404));
    assert!(!device_login_pending(200));
    assert!(!device_login_pending(401));
}

#[test]
fn a_finished_device_login_yields_the_code_exchange() {
    let response = DeviceTokenResponse {
        authorization_code: Some("code-1".to_string()),
        code_verifier: Some("verifier-1".to_string()),
    };
    assert_eq!(
        device_authorization("https://auth.example", &response),
        Ok(DeviceAuthorization {
            authorization_code: "code-1".to_string(),
            code_verifier: "verifier-1".to_string(),
            redirect_uri: "https://auth.example/deviceauth/callback".to_string(),
        })
    );
    let missing = DeviceTokenResponse { authorization_code: Some("c".to_string()), code_verifier: None };
    assert_eq!(
        device_authorization("i", &missing),
        Err("invalid device login response".to_string())
    );
}
