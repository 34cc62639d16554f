//! The GitHub OAuth client: its endpoints, and the address that starts a sign-in.
use oauth2::basic::BasicClient;
use oauth2::{AuthUrl, ClientId, ClientSecret, CsrfToken, RedirectUrl, Scope, TokenUrl};
use vstd::prelude::*;

use crate::auth_redirect::{resolve_redirect_target, spec_is_safe_redirect};
use crate::urls::{parse_url, url_parsed, UrlError};

verus! {

/// GitHub's authorization endpoint.
pub const GITHUB_AUTH_URL: &'static str = "https://github.com/login/oauth/authorize";

/// GitHub's token endpoint.
pub const GITHUB_TOKEN_URL: &'static str = "https://github.com/login/oauth/access_token";

/// The scope that reads the user's profile.
pub const GITHUB_SCOPE_READ_USER: &'static str = "read:user";

/// The scope that reads the user's e-mail addresses.
pub const GITHUB_SCOPE_USER_EMAIL: &'static str = "user:email";

/// An OAuth client of GitHub: the application's credentials, where GitHub sends the user back,
/// and GitHub's two endpoints. The three addresses are absolute URLs.
pub struct GithubClient {
    client_id: String,
    client_secret: String,
    redirect_url: String,
    auth_url: String,
    token_url: String,
}

/// What an OAuth client holds.
pub struct GithubClientView {
    pub client_id: Seq<char>,
    pub client_secret: Seq<char>,
    pub redirect_url: Seq<char>,
    pub auth_url: Seq<char>,
    pub token_url: Seq<char>,
}

impl View for GithubClient {
    type V = GithubClientView;

    closed spec fn view(&self) -> GithubClientView {
        GithubClientView {
            client_id: self.client_id@,
            client_secret: self.client_secret@,
            redirect_url: self.redirect_url@,
            auth_url: self.auth_url@,
            token_url: self.token_url@,
        }
    }
}

impl GithubClient {
    #[verifier::type_invariant]
    spec fn addresses_parse(&self) -> bool {
        &&& url_parsed(self.auth_url@) is Some
        &&& url_parsed(self.token_url@) is Some
        &&& url_parsed(self.redirect_url@) is Some
    }

    /// Where GitHub sends the user back.
    pub fn redirect_url(&self) -> (r: &str)
        ensures
            r@ == self@.redirect_url,
    {
        self.redirect_url.as_str()
    }
}

/// An OAuth client with the given credentials and addresses; refused when the authorization,
/// token or redirect address is no absolute URL.
pub fn github_client_with_urls(
    client_id: &str,
    client_secret: &str,
    redirect_url: &str,
    auth_url: &str,
    token_url: &str,
) -> (r: Result<GithubClient, UrlError>)
    ensures
        r is Ok <==> url_parsed(auth_url@) is Some && url_parsed(token_url@) is Some && url_parsed(
            redirect_url@,
        ) is Some,
        r matches Ok(c) ==> c@ == (GithubClientView {
            client_id: client_id@,
            client_secret: client_secret@,
            redirect_url: redirect_url@,
            auth_url: auth_url@,
            token_url: token_url@,
        }),
{
    if let Err(cause) = parse_url(auth_url) {
        return Err(UrlError { cause });
    }
    if let Err(cause) = parse_url(token_url) {
        return Err(UrlError { cause });
    }
    if let Err(cause) = parse_url(redirect_url) {
        return Err(UrlError { cause });
    }
    Ok(
        GithubClient {
            client_id: client_id.to_string(),
            client_secret: client_secret.to_string(),
            redirect_url: redirect_url.to_string(),
            auth_url: auth_url.to_string(),
            token_url: token_url.to_string(),
        },
    )
}

/// The OAuth client of GitHub's own endpoints (see [`github_client_with_urls`]).
pub fn github_client(client_id: &str, client_secret: &str, redirect_url: &str) -> (r: Result<
    GithubClient,
    UrlError,
>)
    ensures
        r is Ok <==> url_parsed(GITHUB_AUTH_URL@) is Some && url_parsed(GITHUB_TOKEN_URL@) is Some
            && url_parsed(redirect_url@) is Some,
        r matches Ok(c) ==> c@ == (GithubClientView {
            client_id: client_id@,
            client_secret: client_secret@,
            redirect_url: redirect_url@,
            auth_url: GITHUB_AUTH_URL@,
            token_url: GITHUB_TOKEN_URL@,
        }),
{
    github_client_with_urls(client_id, client_secret, redirect_url, GITHUB_AUTH_URL, GITHUB_TOKEN_URL)
}

/// The authorization address `oauth2` builds: the endpoint `auth_url` with the query pairs
/// `response_type=code`, `client_id`, `state`, `redirect_uri` and `scope` (the scopes joined by
/// spaces) appended, serialised.
pub uninterp spec fn oauth_authorize_url(
    auth_url: Seq<char>,
    client_id: Seq<char>,
    redirect_url: Seq<char>,
    scopes: Seq<Seq<char>>,
    state: Seq<char>,
) -> Seq<char>;

/// `oauth2`'s `Client::authorize_url` with a fresh `CsrfToken::new_random` state and the two
/// scopes added, on a client built from the given values. It fails exactly when one of the three
/// addresses does not parse (`AuthUrl::new` and its kin parse with `url::Url::parse`); the
/// address is the name `oauth_authorize_url` of the endpoint, the client identifier, the
/// redirect address, the scopes and the state, and the state is 16 random bytes in URL-safe
/// base64 without padding, so 22 characters. Which characters the state holds is not stated.
#[verifier::external_body]
fn authorize_with_fresh_state(
    client_id: &str,
    client_secret: &str,
    redirect_url: &str,
    auth_url: &str,
    token_url: &str,
    scope_a: &str,
    scope_b: &str,
) -> (r: Result<(String, String), url::ParseError>)
    ensures
        r is Ok <==> (url_parsed(auth_url@) is Some && url_parsed(token_url@) is Some
            && url_parsed(redirect_url@) is Some),
        r matches Ok((u, s)) ==> u@ == oauth_authorize_url(
            auth_url@,
            client_id@,
            redirect_url@,
            seq![scope_a@, scope_b@],
            s@,
        ) && s@.len() == 22,
{
    let client = BasicClient::new(ClientId::new(client_id.to_string()))
        .set_client_secret(ClientSecret::new(client_secret.to_string()))
        .set_auth_uri(AuthUrl::new(auth_url.to_string())?)
        .set_token_uri(TokenUrl::new(token_url.to_string())?)
        .set_redirect_uri(RedirectUrl::new(redirect_url.to_string())?);
    let (url, state) = client.authorize_url(CsrfToken::new_random).add_scope(
        Scope::new(scope_a.to_string()),
    ).add_scope(Scope::new(scope_b.to_string())).url();
    Ok((url.to_string(), state.secret().to_string()))
}

/// The address that sends the user to GitHub to sign in, with the scopes `read:user` and
/// `user:email`, and the fresh state it carries (22 characters), to be checked when GitHub
/// sends the user back.
pub fn github_authorize_url(client: &GithubClient) -> (r: (String, String))
    ensures
        r.0@ == oauth_authorize_url(
            client@.auth_url,
            client@.client_id,
            client@.redirect_url,
            seq![GITHUB_SCOPE_READ_USER@, GITHUB_SCOPE_USER_EMAIL@],
            r.1@,
        ),
        r.1@.len() == 22,
{
    proof {
        use_type_invariant(client);
    }
    match authorize_with_fresh_state(
        client.client_id.as_str(),
        client.client_secret.as_str(),
        client.redirect_url.as_str(),
        client.auth_url.as_str(),
        client.token_url.as_str(),
        GITHUB_SCOPE_READ_USER,
        GITHUB_SCOPE_USER_EMAIL,
    ) {
        Ok(pair) => pair,
        Err(_) => {
            proof {
                assert(false);
            }
            (String::new(), String::new())
        },
    }
}

/// How a sign-in starts: the address to send the user to, the state to keep in the session,
/// and where to return after signing in.
pub struct SignInStart {
    pub authorize_url: String,
    pub state: String,
    pub redirect_to: String,
}

/// How a sign-in asked for with `redirect_to` starts: GitHub's address and its state (see
/// [`github_authorize_url`]), and the target to return to (the requested one when it is safe,
/// the home page otherwise).
pub fn start_sign_in(client: &GithubClient, redirect_to: Option<&str>) -> (r: SignInStart)
    ensures
        r.authorize_url@ == oauth_authorize_url(
            client@.auth_url,
            client@.client_id,
            client@.redirect_url,
            seq![GITHUB_SCOPE_READ_USER@, GITHUB_SCOPE_USER_EMAIL@],
            r.state@,
        ),
        r.state@.len() == 22,
        r.redirect_to@ == match redirect_to {
            Some(v) => if spec_is_safe_redirect(v@) {
                v@
            } else {
                seq!['/']
            },
            None => seq!['/'],
        },
{
    let (authorize_url, state) = github_authorize_url(client);
    SignInStart { authorize_url, state, redirect_to: resolve_redirect_target(redirect_to) }
}

} // verus!
