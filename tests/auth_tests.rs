use codex_core::auth::{
    env_oauth_token, exchange_failure, hosts_token_from, oauth_response_from_json,
    oauth_token_from_hosts_json, require_unexpired, resolve_credential, token_exchange_request,
    token_from_exchange, token_response_from, Credential, GithubCopilotToken, OAuthTokenResponse,
};
use codex_core::auth::{MAX_TIMESTAMP, MIN_TIMESTAMP};
use codex_core::json::Json;
use codex_core::error::DispatchError;
use codex_core::models::ModelProviderInfo;

fn token(expires_at: i64) -> GithubCopilotToken {
    GithubCopilotToken { api_key: "tok".to_string(), expires_at }
}

#[test]
fn validity_has_a_five_minute_buffer() {
    let now = 1_700_000_000i64;
    assert!(!token(now + 4 * 60).is_valid_at(now));
    assert!(token(now + 10 * 60).is_valid_at(now));
    assert!(!token(now + 300).is_valid_at(now));
    assert!(token(now + 301).is_valid_at(now));
    assert!(!token(i64::MIN).is_valid_at(i64::MIN));
}

#[test]
fn validity_at_a_clock_reading() {
    assert!(token(1000).is_valid_at_reading(Ok(699)));
    assert!(!token(1000).is_valid_at_reading(Ok(700)));
    assert!(token(0).is_valid_at_reading(Err(301)));
    assert!(!token(0).is_valid_at_reading(Err(300)));
    assert!(!token(i64::MAX).is_valid_at_reading(Ok(u64::MAX)));
    assert!(token(i64::MIN + 301).is_valid_at_reading(Err(u64::MAX)));
}

#[test]
fn validity_by_the_clock() {
    let now = chrono::Utc::now().timestamp();
    assert!(token(now + 3600).is_valid());
    assert!(!token(now + 60).is_valid());
}

#[test]
fn from_response_keeps_the_fields() {
    let r = GithubCopilotToken::from_response(OAuthTokenResponse {
        token: "abc".to_string(),
        expires_at: 1_700_000_000,
    })
    .unwrap();
    assert_eq!(r.api_key, "abc");
    assert_eq!(r.expires_at, 1_700_000_000);
}

#[test]
fn from_response_rejects_unrepresentable_expiry() {
    let r = GithubCopilotToken::from_response(OAuthTokenResponse {
        token: "abc".to_string(),
        expires_at: i64::MAX,
    });
    assert!(matches!(r, Err(DispatchError::Auth(d)) if d == "Invalid expires_at timestamp"));
}

#[test]
fn exchange_answer_is_read() {
    let r = oauth_response_from_json(r#"{"token":"tid=1","expires_at":1700000000,"refresh_in":1500}"#)
        .unwrap();
    assert_eq!(r.token, "tid=1");
    assert_eq!(r.expires_at, 1_700_000_000);
    assert!(oauth_response_from_json(r#"{"token":"t","expires_at":1.5}"#).is_none());
    assert!(oauth_response_from_json(r#"{"token":"t","expires_at":"1"}"#).is_none());
    assert!(oauth_response_from_json(r#"{"expires_at":1}"#).is_none());
    assert!(oauth_response_from_json("nope").is_none());
}

#[test]
fn exchange_success_gives_a_token() {
    let r = token_from_exchange(200, "200 OK", r#"{"token":"t1","expires_at":1000}"#).unwrap();
    assert_eq!(r.api_key, "t1");
    assert_eq!(r.expires_at, 1000);
}

#[test]
fn exchange_refusal_is_an_auth_error() {
    let r = token_from_exchange(401, "401 Unauthorized", "bad credentials");
    assert!(matches!(r, Err(DispatchError::Auth(d))
        if d == "Failed to get GitHub Copilot API token. Status: 401 Unauthorized, Body: bad credentials"));
}

#[test]
fn exchange_with_malformed_answer_is_an_auth_error() {
    let r = token_from_exchange(200, "200 OK", "<html>");
    assert!(matches!(r, Err(DispatchError::Auth(d)) if d == "malformed token response"));
}

#[test]
fn exchange_with_unrepresentable_expiry_is_an_auth_error() {
    let body = format!(r#"{{"token":"t1","expires_at":{}}}"#, i64::MAX);
    let r = token_from_exchange(200, "200 OK", &body);
    assert!(matches!(r, Err(DispatchError::Auth(d)) if d == "Invalid expires_at timestamp"));
}

#[test]
fn exchange_returns_a_stale_token() {
    let r = token_from_exchange(200, "200 OK", r#"{"token":"t1","expires_at":1000}"#).unwrap();
    assert_eq!(r.api_key, "t1");
    assert!(!r.is_valid_at(800));
}

#[test]
fn an_expired_token_is_unauthorized() {
    let r = require_unexpired(token(1000), 800);
    assert!(matches!(r, Err(DispatchError::UnexpectedStatus(401, d))
        if d == "GitHub Copilot token has expired, please refresh your login"));
    let r = require_unexpired(token(1000), 699).unwrap();
    assert_eq!(r.api_key, "tok");
    assert_eq!(r.expires_at, 1000);
}

#[test]
fn exchange_failures_gain_the_call_prefix() {
    let e = exchange_failure(DispatchError::Auth("GitHub Copilot OAuth token not found".to_string()));
    assert!(matches!(e, DispatchError::Auth(d)
        if d == "Failed to get GitHub Copilot token: GitHub Copilot OAuth token not found"));
    let e = exchange_failure(DispatchError::RetryLimit(503));
    assert!(matches!(e, DispatchError::RetryLimit(503)));
}

#[test]
fn token_exchange_request_has_its_headers() {
    let r = token_exchange_request("ghu_x");
    assert_eq!(r.url, "https://api.github.com/copilot_internal/v2/token");
    let h: Vec<(&str, &str)> = r.headers.iter().map(|(n, v)| (n.as_str(), v.as_str())).collect();
    assert_eq!(
        h,
        vec![
            ("Authorization", "token ghu_x"),
            ("Accept", "application/json"),
            ("User-Agent", "GithubCopilot/1.155.0"),
            ("editor-version", "Neovim/0.6.1"),
            ("editor-plugin-version", "copilot.vim/1.16.0"),
        ]
    );
}

#[test]
fn token_response_from_a_document() {
    let j = Json::Object(vec![
        ("expires_at".to_string(), Json::Number("-5".to_string())),
        ("token".to_string(), Json::Str("abc".to_string())),
    ]);
    let r = token_response_from(&j).unwrap();
    assert_eq!(r.token, "abc");
    assert_eq!(r.expires_at, -5);
    let j = Json::Object(vec![
        ("expires_at".to_string(), Json::Number("1e3".to_string())),
        ("token".to_string(), Json::Str("abc".to_string())),
    ]);
    assert!(token_response_from(&j).is_none());
    assert!(token_response_from(&Json::Null).is_none());
}

#[test]
fn hosts_token_from_a_document() {
    let entry = |t: &str| Json::Object(vec![("oauth_token".to_string(), Json::Str(t.to_string()))]);
    let j = Json::Object(vec![
        ("github.com".to_string(), entry("plain")),
        ("github.com:app".to_string(), entry("suffixed")),
    ]);
    assert_eq!(hosts_token_from(&j).as_deref(), Some("plain"));
    let j = Json::Object(vec![
        ("gitlab.com".to_string(), entry("other")),
        ("github.com:app".to_string(), entry("suffixed")),
    ]);
    assert_eq!(hosts_token_from(&j).as_deref(), Some("suffixed"));
    let j = Json::Object(vec![("github.co".to_string(), entry("short"))]);
    assert_eq!(hosts_token_from(&j), None);
    assert_eq!(hosts_token_from(&Json::Array(vec![entry("x")])), None);
}

#[test]
fn hosts_file_with_app_suffixed_key() {
    let t = oauth_token_from_hosts_json(r#"{"github.com:Iv1.b507a08c87ecfe98":{"user":"u","oauth_token":"ghu_1"}}"#);
    assert_eq!(t.as_deref(), Some("ghu_1"));
}

#[test]
fn hosts_file_with_plain_key() {
    let t = oauth_token_from_hosts_json(r#"{"github.com":{"oauth_token":"ghu_2"}}"#);
    assert_eq!(t.as_deref(), Some("ghu_2"));
}

#[test]
fn hosts_file_skips_entries_without_a_token() {
    let t = oauth_token_from_hosts_json(
        r#"{"example.com":{"oauth_token":"no"},"github.com:a":{"user":"u"},"github.com:b":{"oauth_token":"ghu_3"}}"#,
    );
    assert_eq!(t.as_deref(), Some("ghu_3"));
}

#[test]
fn hosts_file_without_token() {
    assert_eq!(oauth_token_from_hosts_json(r#"{"example.com":{"oauth_token":"no"}}"#), None);
    assert_eq!(oauth_token_from_hosts_json(r#"{"github.com":{"oauth_token":7}}"#), None);
    assert_eq!(oauth_token_from_hosts_json("[]"), None);
    assert_eq!(oauth_token_from_hosts_json("{"), None);
}

#[test]
fn env_token_must_be_non_empty() {
    assert_eq!(env_oauth_token(Some("x".to_string())).as_deref(), Some("x"));
    assert_eq!(env_oauth_token(Some(String::new())), None);
    assert_eq!(env_oauth_token(None), None);
}

fn provider(key: Option<&str>, needs_token: bool) -> ModelProviderInfo {
    ModelProviderInfo {
        name: "GitHub Copilot".to_string(),
        base_url: "https://api.githubcopilot.com".to_string(),
        api_key: key.map(|k| k.to_string()),
        requires_external_token: needs_token,
    }
}

#[test]
fn static_key_wins() {
    let c = resolve_credential(&provider(Some("k"), true), &Some(token(10_000)), 0);
    assert!(matches!(c, Credential::Key(k) if k == "k"));
}

#[test]
fn provider_without_token_goes_anonymous() {
    let mut p = provider(None, false);
    p.name = "OpenAI".to_string();
    let c = resolve_credential(&p, &None, 0);
    assert!(matches!(c, Credential::Anonymous));
}

#[test]
fn valid_cached_token_is_reused() {
    let c = resolve_credential(&provider(None, true), &Some(token(10_000)), 0);
    assert!(matches!(c, Credential::Key(k) if k == "tok"));
}

#[test]
fn copilot_provider_always_needs_a_token() {
    let c = resolve_credential(&provider(None, false), &None, 0);
    assert!(matches!(c, Credential::Exchange));
}

#[test]
fn stale_or_missing_token_is_exchanged() {
    let c = resolve_credential(&provider(None, true), &Some(token(200)), 0);
    assert!(matches!(c, Credential::Exchange));
    let c = resolve_credential(&provider(None, true), &None, 0);
    assert!(matches!(c, Credential::Exchange));
}

#[test]
fn expiry_range_is_the_chrono_range() {
    for (secs, ok) in [
        (MIN_TIMESTAMP, true),
        (MIN_TIMESTAMP - 1, false),
        (MAX_TIMESTAMP, true),
        (MAX_TIMESTAMP + 1, false),
        (0, true),
    ] {
        assert_eq!(chrono::DateTime::from_timestamp(secs, 0).is_some(), ok, "secs {secs}");
        let r = GithubCopilotToken::from_response(OAuthTokenResponse {
            token: "t".to_string(),
            expires_at: secs,
        });
        assert_eq!(r.is_ok(), ok, "secs {secs}");
    }
}
