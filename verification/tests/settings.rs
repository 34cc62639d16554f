use barforge::auth::token_key_from_secret;
use barforge::oauth::github_client;
use barforge::settings::{server_settings, ServerEnv, SettingsError};

fn env() -> ServerEnv {
    ServerEnv {
        github_id: None,
        github_secret: None,
        token_secret: None,
        public_base_url: None,
        github_api_base_url: None,
        admin_logins: None,
        resend_api_key: None,
        resend_from: None,
        resend_base_url: None,
    }
}

#[test]
fn auth_state_from_env_requires_credentials() {
    let mut values = env();
    values.public_base_url = Some("http://localhost:8080".to_string());
    let err = server_settings(&values).err().expect("missing id");
    assert!(matches!(err, SettingsError::MissingGithubId));
    assert_eq!(err.message(), "AUTH_GITHUB_ID is required");
    values.github_id = Some("client-id".to_string());
    let err = server_settings(&values).err().expect("missing secret");
    assert!(matches!(err, SettingsError::MissingGithubSecret));
}

#[test]
fn server_settings_build_redirect_url_and_defaults() {
    let mut values = env();
    values.github_id = Some("client-id".to_string());
    values.github_secret = Some("client-secret".to_string());
    values.public_base_url = Some("http://localhost:8080/".to_string());
    values.admin_logins = Some(" octo , ,admin".to_string());
    values.resend_api_key = Some("   ".to_string());
    values.resend_from = Some("Barforge <no-reply@barforge.dev>".to_string());
    let settings = server_settings(&values).ok().expect("settings");
    assert_eq!(settings.redirect_url, "http://localhost:8080/auth/github/callback");
    assert_eq!(settings.app_base, "http://localhost:8080");
    assert_eq!(settings.github_api_base.text, "https://api.github.com/");
    assert_eq!(settings.resend_base_url.text, "https://api.resend.com/");
    assert_eq!(settings.token_key, token_key_from_secret("client-secret"));
    assert_eq!(settings.admin_logins, vec!["octo".to_string(), "admin".to_string()]);
    assert!(settings.resend_api_key.is_none());
    assert_eq!(settings.resend_from.as_deref(), Some("Barforge <no-reply@barforge.dev>"));
}

#[test]
fn server_settings_use_token_secret_and_reject_bad_bases() {
    let mut values = env();
    values.github_id = Some("id".to_string());
    values.github_secret = Some("secret".to_string());
    values.token_secret = Some("token-secret".to_string());
    let settings = server_settings(&values).ok().expect("settings");
    assert_eq!(settings.token_key, token_key_from_secret("token-secret"));

    values.github_api_base_url = Some("not a url".to_string());
    let err = server_settings(&values).err().expect("bad api base");
    assert!(matches!(err, SettingsError::InvalidGithubApiBase(_)));

    values.github_api_base_url = None;
    values.resend_base_url = Some("::".to_string());
    let err = server_settings(&values).err().expect("bad resend base");
    assert_eq!(err.message(), "BARFORGE_RESEND_BASE_URL is invalid");

    values.resend_base_url = None;
    values.public_base_url = Some("relative".to_string());
    let err = server_settings(&values).err().expect("bad public base");
    assert!(matches!(err, SettingsError::InvalidRedirectUrl(_)));
}

#[test]
fn auth_state_from_env_builds_redirect_url() {
    let mut values = env();
    values.github_id = Some("client-id".to_string());
    values.github_secret = Some("client-secret".to_string());
    values.public_base_url = Some("http://localhost:8080/".to_string());
    let settings = server_settings(&values).ok().expect("auth state");
    let client = github_client(&settings.github_id, &settings.github_secret, &settings.redirect_url)
        .ok()
        .expect("redirect uri");
    assert_eq!(client.redirect_url(), "http://localhost:8080/auth/github/callback");
}
