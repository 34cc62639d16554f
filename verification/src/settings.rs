//! The web server's settings, worked out from the environment values it was started with.
use vstd::prelude::*;
use vstd::utf8::encode_utf8;

use crate::auth::{
    github_api_base_url, github_redirect_url, sha256_of, token_key_from_secret,
    with_trailing_slash,
};
use crate::server_config::{admin_list, admin_logins_from_env, app_base_url, DEFAULT_APP_BASE_URL};
use crate::text::{opt_view, string_views, trim, trim_end_char, trimmed};
use crate::urls::{parse_url, url_joined, url_parsed, UrlError, UrlParts};

verus! {

broadcast use vstd::string::group_string_axioms;

/// Where e-mail is sent through when no other base is configured.
pub const RESEND_BASE_URL: &'static str = "https://api.resend.com/";

/// The environment values the server reads, each as set (or not).
pub struct ServerEnv {
    /// `AUTH_GITHUB_ID`
    pub github_id: Option<String>,
    /// `AUTH_GITHUB_SECRET`
    pub github_secret: Option<String>,
    /// `BARFORGE_TOKEN_SECRET`
    pub token_secret: Option<String>,
    /// `BARFORGE_PUBLIC_BASE_URL`
    pub public_base_url: Option<String>,
    /// `BARFORGE_GITHUB_API_BASE_URL`
    pub github_api_base_url: Option<String>,
    /// `BARFORGE_ADMIN_LOGINS`
    pub admin_logins: Option<String>,
    /// `BARFORGE_RESEND_API_KEY`
    pub resend_api_key: Option<String>,
    /// `BARFORGE_RESEND_FROM`
    pub resend_from: Option<String>,
    /// `BARFORGE_RESEND_BASE_URL`
    pub resend_base_url: Option<String>,
}

/// Why the settings cannot be worked out.
pub enum SettingsError {
    MissingGithubId,
    MissingGithubSecret,
    InvalidRedirectUrl(UrlError),
    InvalidGithubApiBase(UrlError),
    InvalidResendBase(UrlError),
}

impl SettingsError {
    /// What went wrong, in words.
    pub fn message(&self) -> (r: &'static str)
        ensures
            r@ == settings_error_message(*self),
    {
        match self {
            SettingsError::MissingGithubId => "AUTH_GITHUB_ID is required",
            SettingsError::MissingGithubSecret => "AUTH_GITHUB_SECRET is required",
            SettingsError::InvalidRedirectUrl(_) => "BARFORGE_PUBLIC_BASE_URL is invalid",
            SettingsError::InvalidGithubApiBase(_) => "BARFORGE_GITHUB_API_BASE_URL is invalid",
            SettingsError::InvalidResendBase(_) => "BARFORGE_RESEND_BASE_URL is invalid",
        }
    }
}

/// The words for each settings error.
pub open spec fn settings_error_message(e: SettingsError) -> Seq<char> {
    match e {
        SettingsError::MissingGithubId => "AUTH_GITHUB_ID is required"@,
        SettingsError::MissingGithubSecret => "AUTH_GITHUB_SECRET is required"@,
        SettingsError::InvalidRedirectUrl(_) => "BARFORGE_PUBLIC_BASE_URL is invalid"@,
        SettingsError::InvalidGithubApiBase(_) => "BARFORGE_GITHUB_API_BASE_URL is invalid"@,
        SettingsError::InvalidResendBase(_) => "BARFORGE_RESEND_BASE_URL is invalid"@,
    }
}

/// The server's settings.
pub struct ServerSettings {
    pub github_id: String,
    pub github_secret: String,
    /// Key of the cipher that keeps access tokens in sessions.
    pub token_key: [u8; 32],
    /// The site's public base URL, without trailing slashes.
    pub app_base: String,
    /// The GitHub OAuth callback address.
    pub redirect_url: String,
    pub github_api_base: UrlParts,
    pub admin_logins: Vec<String>,
    pub resend_api_key: Option<String>,
    pub resend_from: Option<String>,
    pub resend_base_url: UrlParts,
}

/// The text of an optional environment value.
pub open spec fn env_text(v: Option<String>) -> Option<Seq<char>> {
    opt_view(v)
}

/// A value that is set to something other than white space.
pub open spec fn non_blank(v: Option<Seq<char>>) -> Option<Seq<char>> {
    match v {
        Some(t) => if trimmed(t).len() > 0 {
            Some(t)
        } else {
            None
        },
        None => None,
    }
}

/// The public base URL the settings use.
pub open spec fn settings_app_base(env: ServerEnv) -> Seq<char> {
    trim_end_char(
        match env_text(env.public_base_url) {
            Some(v) => v,
            None => DEFAULT_APP_BASE_URL@,
        },
        '/',
    )
}

/// The GitHub API base the settings parse.
pub open spec fn settings_github_api_text(env: ServerEnv) -> Seq<char> {
    with_trailing_slash(
        match env_text(env.github_api_base_url) {
            Some(v) => v,
            None => "https://api.github.com/"@,
        },
    )
}

/// The e-mail base the settings parse.
pub open spec fn settings_resend_text(env: ServerEnv) -> Seq<char> {
    match non_blank(env_text(env.resend_base_url)) {
        Some(v) => v,
        None => RESEND_BASE_URL@,
    }
}

/// The first problem with `env`, if any: a missing GitHub id, then a missing secret, then a
/// public base that gives no callback address, a GitHub API base that is no URL, and an e-mail
/// base that is no URL.
pub open spec fn settings_problem(env: ServerEnv) -> Option<int> {
    if env.github_id is None {
        Some(0)
    } else if env.github_secret is None {
        Some(1)
    } else if url_joined(with_trailing_slash(settings_app_base(env)), "auth/github/callback"@) is None {
        Some(2)
    } else if url_parsed(settings_github_api_text(env)) is None {
        Some(3)
    } else if url_parsed(settings_resend_text(env)) is None {
        Some(4)
    } else {
        None
    }
}

/// The position of each settings error in [`settings_problem`].
pub open spec fn settings_error_index(e: SettingsError) -> int {
    match e {
        SettingsError::MissingGithubId => 0,
        SettingsError::MissingGithubSecret => 1,
        SettingsError::InvalidRedirectUrl(_) => 2,
        SettingsError::InvalidGithubApiBase(_) => 3,
        SettingsError::InvalidResendBase(_) => 4,
    }
}

fn non_blank_value(v: &Option<String>) -> (r: Option<String>)
    ensures
        opt_view(r) == non_blank(opt_view(*v)),
{
    match v {
        Some(t) => {
            if trim(t.as_str()).unicode_len() > 0 {
                Some(t.clone())
            } else {
                None
            }
        },
        None => None,
    }
}

fn as_opt_str(v: &Option<String>) -> (r: Option<&str>)
    ensures
        match r {
            Some(s) => opt_view(*v) == Some(s@),
            None => v is None,
        },
{
    match v {
        Some(s) => Some(s.as_str()),
        None => None,
    }
}

/// Works out the server's settings from `env`. It fails on the first problem (see
/// [`settings_problem`]); otherwise the GitHub id and secret are as set, the token key is the
/// SHA-256 digest of the token secret (the GitHub secret when none is set), the public base is
/// [`settings_app_base`] and the callback address is resolved against it, the GitHub API and
/// e-mail bases are parsed, the administrators are listed as [`admin_list`] reads them, and the
/// e-mail key and sender are kept when set to something other than white space.
pub fn server_settings(env: &ServerEnv) -> (r: Result<ServerSettings, SettingsError>)
    ensures
        match settings_problem(*env) {
            Some(k) => r matches Err(e) && settings_error_index(e) == k,
            None => r matches Ok(s) && {
                &&& Some(s.github_id@) == env_text(env.github_id)
                &&& Some(s.github_secret@) == env_text(env.github_secret)
                &&& s.token_key@ == sha256_of(
                    encode_utf8(
                        match env_text(env.token_secret) {
                            Some(t) => t,
                            None => s.github_secret@,
                        },
                    ),
                )
                &&& s.app_base@ == settings_app_base(*env)
                &&& url_joined(with_trailing_slash(settings_app_base(*env)), "auth/github/callback"@)
                    == Some(s.redirect_url@)
                &&& url_parsed(settings_github_api_text(*env)) == Some(s.github_api_base@)
                &&& string_views(s.admin_logins@) == admin_list(
                    match env_text(env.admin_logins) {
                        Some(v) => v,
                        None => Seq::empty(),
                    },
                )
                &&& opt_view(s.resend_api_key) == non_blank(env_text(env.resend_api_key))
                &&& opt_view(s.resend_from) == non_blank(env_text(env.resend_from))
                &&& url_parsed(settings_resend_text(*env)) == Some(s.resend_base_url@)
            },
        },
{
    let github_id = match &env.github_id {
        Some(v) => v.clone(),
        None => {
            return Err(SettingsError::MissingGithubId);
        },
    };
    let github_secret = match &env.github_secret {
        Some(v) => v.clone(),
        None => {
            return Err(SettingsError::MissingGithubSecret);
        },
    };
    let token_key = match &env.token_secret {
        Some(t) => token_key_from_secret(t.as_str()),
        None => token_key_from_secret(github_secret.as_str()),
    };
    let app_base = app_base_url(as_opt_str(&env.public_base_url));
    let redirect_url = match github_redirect_url(app_base.as_str()) {
        Ok(u) => u,
        Err(e) => {
            return Err(SettingsError::InvalidRedirectUrl(e));
        },
    };
    let github_api_base = match github_api_base_url(as_opt_str(&env.github_api_base_url)) {
        Ok(p) => p,
        Err(e) => {
            return Err(SettingsError::InvalidGithubApiBase(e));
        },
    };
    let admin_logins = admin_logins_from_env(as_opt_str(&env.admin_logins));
    let resend_api_key = non_blank_value(&env.resend_api_key);
    let resend_from = non_blank_value(&env.resend_from);
    let resend_base = match non_blank_value(&env.resend_base_url) {
        Some(v) => v,
        None => RESEND_BASE_URL.to_string(),
    };
    let resend_base_url = match parse_url(resend_base.as_str()) {
        Ok(p) => p,
        Err(cause) => {
            return Err(SettingsError::InvalidResendBase(UrlError { cause }));
        },
    };
    Ok(
        ServerSettings {
            github_id,
            github_secret,
            token_key,
            app_base,
            redirect_url,
            github_api_base,
            admin_logins,
            resend_api_key,
            resend_from,
            resend_base_url,
        },
    )
}

} // verus!
