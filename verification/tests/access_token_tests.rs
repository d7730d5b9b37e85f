use antex::access_token::{classify_antex_access_token, AntexAccessToken};

#[test]
fn classifies_personal_access_tokens_by_prefix() {
    assert!(matches!(
        classify_antex_access_token("at-example"),
        AntexAccessToken::PersonalAccessToken("at-example")
    ));
    assert!(matches!(
        classify_antex_access_token("header.payload.signature"),
        AntexAccessToken::AgentIdentityJwt("header.payload.signature")
    ));
}

#[test]
fn short_and_near_miss_prefixes_are_identity_tokens() {
    assert!(matches!(
        classify_antex_access_token("at"),
        AntexAccessToken::AgentIdentityJwt("at")
    ));
    assert!(matches!(
        classify_antex_access_token("At-x"),
        AntexAccessToken::AgentIdentityJwt("At-x")
    ));
    assert!(matches!(
        classify_antex_access_token("at-"),
        AntexAccessToken::PersonalAccessToken("at-")
    ));
}
