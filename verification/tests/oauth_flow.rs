use spotify_gateway::config::ConfigError;
use spotify_gateway::config::OAuthConfig;
use spotify_gateway::oauth::build_authorize_url;
use spotify_gateway::oauth::complete_token_exchange;
use spotify_gateway::oauth::extract_code;
use spotify_gateway::oauth::prepare_token_request;
use spotify_gateway::oauth::profile_from_upstream;
use spotify_gateway::oauth::token_from_header;
use spotify_gateway::oauth::AuthError;
use spotify_gateway::responses::auth_response;
use spotify_gateway::responses::get_url_response;

fn test_config() -> OAuthConfig {
    OAuthConfig::from_credentials(Some(String::from("id123")), Some(String::from("sec456")))
        .unwrap()
}

#[test]
fn config_requires_both_credentials() {
    assert!(matches!(
        OAuthConfig::from_credentials(None, Some(String::from("s"))),
        Err(ConfigError::MissingCredentials)
    ));
    assert!(matches!(
        OAuthConfig::from_credentials(Some(String::from("i")), None),
        Err(ConfigError::MissingCredentials)
    ));
    assert!(matches!(
        OAuthConfig::from_credentials(None, None),
        Err(ConfigError::MissingCredentials)
    ));
    assert!(OAuthConfig::from_credentials(
        Some(String::from("i")),
        Some(String::from("s"))
    )
    .is_ok());
}

#[test]
fn config_carries_credentials_and_scopes() {
    let cfg = test_config();
    assert_eq!(cfg.client_id, "id123");
    assert_eq!(cfg.client_secret, "sec456");
    assert_eq!(cfg.redirect_uri, "http://localhost:8000/redirect");
    assert_eq!(
        cfg.scopes,
        vec![
            String::from("app-remote-control"),
            String::from("streaming"),
            String::from("user-read-playback-state"),
            String::from("user-modify-playback-state"),
            String::from("user-read-currently-playing"),
        ]
    );
}

#[test]
fn authorize_url_exact() {
    let cfg = test_config();
    let url = build_authorize_url(&cfg);
    let expected = String::from("https://accounts.spotify.com/authorize?client_id=id123")
        + "&response_type=code&redirect_uri=http://localhost:8000/redirect"
        + "&scope=app-remote-control streaming user-read-playback-state"
        + " user-modify-playback-state user-read-currently-playing";
    assert_eq!(url, expected);
}

#[test]
fn authorize_url_contains_required_parts() {
    let cfg = test_config();
    let url = build_authorize_url(&cfg);
    assert!(url.contains("id123"));
    assert!(url.contains("http://localhost:8000/redirect"));
    assert!(url.contains("app-remote-control"));
    assert!(url.contains("streaming"));
    assert!(url.contains("user-read-playback-state"));
    assert!(url.contains("user-modify-playback-state"));
    assert!(url.contains("user-read-currently-playing"));
}

#[test]
fn extract_code_finds_the_code() {
    assert_eq!(
        extract_code("http://localhost:8000/redirect?code=abc123"),
        Some(String::from("abc123"))
    );
    assert_eq!(
        extract_code("http://localhost:8000/redirect?code=abc123&state=xyz"),
        Some(String::from("abc123"))
    );
    assert_eq!(extract_code("http://localhost:8000/redirect?code="), Some(String::from("")));
}

#[test]
fn extract_code_rejects_urls_without_code() {
    assert_eq!(extract_code("http://localhost:8000/redirect?error=access_denied"), None);
    assert_eq!(extract_code("http://localhost:8000/redirect"), None);
    assert_eq!(extract_code(""), None);
    assert_eq!(extract_code("code=abc"), None);
}

#[test]
fn missing_code_fails_without_a_request() {
    let cfg = test_config();
    let r = prepare_token_request(&cfg, "http://localhost:8000/redirect?error=denied");
    assert!(matches!(r, Err(AuthError::MissingCode)));
}

#[test]
fn token_request_carries_code_and_credentials() {
    let cfg = test_config();
    let req = prepare_token_request(&cfg, "http://localhost:8000/redirect?code=abc123").unwrap();
    assert_eq!(req.code, "abc123");
    assert_eq!(req.client_id, "id123");
    assert_eq!(req.client_secret, "sec456");
    assert_eq!(req.redirect_uri, "http://localhost:8000/redirect");
}

#[test]
fn exchange_outcomes() {
    assert_eq!(complete_token_exchange(Some(String::from("tok_1"))), Ok(String::from("tok_1")));
    assert_eq!(complete_token_exchange(None), Err(AuthError::ExchangeFailed));
}

#[test]
fn auth_endpoint_success_scenario() {
    let cfg = test_config();
    let mut exchange_calls: u32 = 0;
    let outcome = match prepare_token_request(&cfg, "http://localhost:8000/redirect?code=abc123") {
        Ok(_request) => {
            exchange_calls += 1;
            complete_token_exchange(Some(String::from("tok_1")))
        }
        Err(e) => Err(e),
    };
    assert_eq!(exchange_calls, 1);
    assert_eq!(auth_response(&outcome), "{\"status\":\"ok\",\"token\":\"tok_1\"}");
}

#[test]
fn auth_endpoint_missing_code_scenario() {
    let cfg = test_config();
    let mut exchange_calls: u32 = 0;
    let outcome = match prepare_token_request(&cfg, "http://localhost:8000/redirect?error=denied")
    {
        Ok(_request) => {
            exchange_calls += 1;
            complete_token_exchange(Some(String::from("tok_1")))
        }
        Err(e) => Err(e),
    };
    assert_eq!(exchange_calls, 0);
    assert_eq!(auth_response(&outcome), "{\"status\":\"err\",\"error\":\"Failed to authenticate\"}");
}

#[test]
fn auth_response_escapes_the_token() {
    let outcome: Result<String, AuthError> = Ok(String::from("a\"b\\c\nd\u{1}e"));
    assert_eq!(
        auth_response(&outcome),
        "{\"status\":\"ok\",\"token\":\"a\\\"b\\\\c\\nd\\u0001e\"}"
    );
}

#[test]
fn auth_response_escapes_every_control_form() {
    let outcome: Result<String, AuthError> = Ok(String::from("\t\r\u{8}\u{c}\u{1f}"));
    assert_eq!(
        auth_response(&outcome),
        "{\"status\":\"ok\",\"token\":\"\\t\\r\\b\\f\\u001f\"}"
    );
}

#[test]
fn get_url_response_shape() {
    assert_eq!(
        get_url_response("https://example.test/x"),
        "{\"status\":\"ok\",\"url\":\"https://example.test/x\"}"
    );
}

#[test]
fn header_token_extraction() {
    assert_eq!(token_from_header(Some(String::from("tok"))), Ok(String::from("tok")));
    assert_eq!(token_from_header(None), Err(AuthError::InvalidToken));
}

#[test]
fn profile_passthrough() {
    assert_eq!(
        profile_from_upstream(Some(String::from("{\"id\":\"me\"}"))),
        Ok(String::from("{\"id\":\"me\"}"))
    );
    assert_eq!(profile_from_upstream(None), Err(AuthError::InvalidToken));
}
