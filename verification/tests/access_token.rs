use codewen::access_token::classify_codewen_access_token;
use codewen::access_token::CodewenAccessToken;

#[test]
fn classifies_personal_access_tokens_by_prefix() {
    assert!(matches!(
        classify_codewen_access_token("at-example"),
        CodewenAccessToken::PersonalAccessToken("at-example")
    ));
    assert!(matches!(
        classify_codewen_access_token("header.payload.signature"),
        CodewenAccessToken::AgentIdentityJwt("header.payload.signature")
    ));
}

#[test]
fn classify_bare_prefix_and_near_misses() {
    assert!(matches!(
        classify_codewen_access_token("at-"),
        CodewenAccessToken::PersonalAccessToken("at-")
    ));
    assert!(matches!(
        classify_codewen_access_token("at"),
        CodewenAccessToken::AgentIdentityJwt("at")
    ));
    assert!(matches!(
        classify_codewen_access_token("AT-example"),
        CodewenAccessToken::AgentIdentityJwt("AT-example")
    ));
    assert!(matches!(
        classify_codewen_access_token(""),
        CodewenAccessToken::AgentIdentityJwt("")
    ));
}
