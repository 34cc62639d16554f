//! The decisions the web server makes around the requests it forwards to the registry: who may
//! pass its guard, what a sign-in callback and the session endpoint answer, how star requests
//! are reported, and how a data export is named.
use vstd::prelude::*;
use vstd::string::StringExecFns;

use crate::api::{SessionResponse, SessionUser, StarActionResponse};
use crate::auth_redirect::{login_redirect_url, resolve_redirect_target, spec_is_safe_redirect, encode_bytes};
use crate::model::UserRole;
use crate::server_config::{is_admin_path, is_protected_path, spec_is_admin_path, spec_is_protected_path};
use crate::text::{chars_of, opt_view, str_eq, string_of};

verus! {

broadcast use vstd::string::group_string_axioms;

/// The only path whose answers get the GitHub statistics cache headers.
pub const GITHUB_STATS_PATH: &'static str = "/api/v1/github/stats";

/// `Cache-Control` of the GitHub statistics answer.
pub const GITHUB_STATS_CACHE_CONTROL: &'static str = "private, max-age=60";

/// `Vary` of the GitHub statistics answer.
pub const GITHUB_STATS_VARY: &'static str = "cookie";

/// The cookie that clears the cached profile of a signed-out visitor.
pub const CLEAR_PROFILE_COOKIE: &'static str = "profile_cache=; Path=/; Max-Age=0";

/// Whether the answer to `path` gets the GitHub statistics cache headers.
pub fn caches_github_stats(path: &str) -> (r: bool)
    ensures
        r == (path@ == GITHUB_STATS_PATH@),
{
    str_eq(path, GITHUB_STATS_PATH)
}

/// What the request guard does next.
#[derive(Debug, Clone, PartialEq, Eq)]
pub enum GuardStep {
    /// Let the request through.
    Proceed,
    /// Send the visitor to sign in, to come back to where they were going.
    RedirectToLogin(String),
    /// Ask whether the signed-in user is an administrator.
    CheckAdmin,
    /// Refuse the request (Forbidden).
    Forbidden,
}

/// Where a visitor stopped by the guard is sent: the login page, told to return to the
/// requested path and query (or the path), when that is a safe target, else to `/`.
pub open spec fn login_detour(path: Seq<char>, path_and_query: Option<Seq<char>>) -> Seq<char> {
    let target = match path_and_query {
        Some(t) => t,
        None => path,
    };
    let back = if spec_is_safe_redirect(target) {
        target
    } else {
        seq!['/']
    };
    "/login?redirect_to="@ + encode_bytes(vstd::utf8::encode_utf8(back))
}

/// The guard's step once it knows whether the visitor is signed in: unprotected paths pass;
/// visitors who are not signed in are sent to sign in; administration paths need the
/// administrator check; other paths pass.
pub fn guard_after_session(path: &str, path_and_query: Option<&str>, signed_in: bool) -> (r: GuardStep)
    ensures
        if !spec_is_protected_path(path@) {
            r == GuardStep::Proceed
        } else if !signed_in {
            r matches GuardStep::RedirectToLogin(url) && url@ == login_detour(
                path@,
                match path_and_query {
                    Some(t) => Some(t@),
                    None => None::<Seq<char>>,
                },
            )
        } else if spec_is_admin_path(path@) {
            r == GuardStep::CheckAdmin
        } else {
            r == GuardStep::Proceed
        },
{
    if !is_protected_path(path) {
        return GuardStep::Proceed;
    }
    if !signed_in {
        let target = match path_and_query {
            Some(t) => t,
            None => path,
        };
        let back = resolve_redirect_target(Some(target));
        let url = login_redirect_url(back.as_str());
        return GuardStep::RedirectToLogin(url);
    }
    if is_admin_path(path) {
        GuardStep::CheckAdmin
    } else {
        GuardStep::Proceed
    }
}

/// The guard's step after the administrator check.
pub fn guard_after_admin_check(is_admin: bool) -> (r: GuardStep)
    ensures
        r == (if is_admin {
            GuardStep::Proceed
        } else {
            GuardStep::Forbidden
        }),
{
    if is_admin {
        GuardStep::Proceed
    } else {
        GuardStep::Forbidden
    }
}

/// Roles that count as administrators: administrators and moderators.
pub open spec fn role_grants_admin(role: UserRole) -> bool {
    role == UserRole::Admin || role == UserRole::Moderator
}

/// Whether a user is treated as an administrator: configured as one, or with a profile whose
/// role grants it.
pub fn is_admin_user(configured: bool, role: Option<UserRole>) -> (r: bool)
    ensures
        r == (configured || (role matches Some(x) && role_grants_admin(x))),
{
    if configured {
        return true;
    }
    match role {
        Some(UserRole::Admin) => true,
        Some(UserRole::Moderator) => true,
        _ => false,
    }
}

/// Whether a sign-in callback carries the state this session was given.
pub fn callback_state_matches(expected: Option<&str>, received: &str) -> (r: bool)
    ensures
        r == (expected matches Some(e) && e@ == received@),
{
    match expected {
        Some(e) => str_eq(e, received),
        None => false,
    }
}

/// Where a finished sign-in goes: the target remembered at its start (`/` when none was) if
/// that is a safe target, else `/`.
pub fn callback_redirect(remembered: Option<&str>) -> (r: String)
    ensures
        r@ == (match remembered {
            Some(v) => if spec_is_safe_redirect(v@) {
                v@
            } else {
                seq!['/']
            },
            None => seq!['/'],
        }),
{
    proof {
        reveal_strlit("/");
    }
    match remembered {
        Some(v) => resolve_redirect_target(Some(v)),
        None => resolve_redirect_target(Some("/")),
    }
}

/// The session endpoint's answer: for a signed-in user (login and address), signed in, an
/// administrator when configured or by profile role, with that user; otherwise signed out.
pub fn session_status_response(
    signed_in: Option<(String, Option<String>)>,
    configured_admin: bool,
    profile_role: Option<UserRole>,
) -> (r: SessionResponse)
    ensures
        match signed_in {
            Some((login, email)) => r.authenticated && r.is_admin == (configured_admin || (
            profile_role matches Some(x) && role_grants_admin(x))) && r.user == Some(
                SessionUser { login, email },
            ),
            None => !r.authenticated && !r.is_admin && r.user is None,
        },
{
    match signed_in {
        Some((login, email)) => SessionResponse {
            authenticated: true,
            is_admin: is_admin_user(configured_admin, profile_role),
            user: Some(SessionUser { login, email }),
        },
        None => SessionResponse { authenticated: false, is_admin: false, user: None },
    }
}

/// Whether an HTTP status is a success (2xx).
pub open spec fn is_success(status: u16) -> bool {
    200 <= status <= 299
}

/// What starring a module reports, by the registry's status: not found, a failure, or starred.
pub fn star_outcome(status: u16) -> (r: StarActionResponse)
    ensures
        if status == 404 {
            !r.success && !r.starred && opt_view(r.error) == Some("Module not found"@)
        } else if !is_success(status) {
            !r.success && !r.starred && opt_view(r.error) == Some("Failed to star module"@)
        } else {
            r.success && r.starred && r.error is None
        },
{
    if status == 404 {
        StarActionResponse {
            success: false,
            starred: false,
            error: Some("Module not found".to_string()),
        }
    } else if !(200 <= status && status <= 299) {
        StarActionResponse {
            success: false,
            starred: false,
            error: Some("Failed to star module".to_string()),
        }
    } else {
        StarActionResponse { success: true, starred: true, error: None }
    }
}

/// What unstarring a module reports, by the registry's status: success, or for a failure other
/// than not found, still starred.
pub fn unstar_outcome(status: u16) -> (r: StarActionResponse)
    ensures
        if !is_success(status) && status != 404 {
            !r.success && r.starred && opt_view(r.error) == Some("Failed to unstar module"@)
        } else {
            r.success && !r.starred && r.error is None
        },
{
    if !(200 <= status && status <= 299) && status != 404 {
        StarActionResponse {
            success: false,
            starred: true,
            error: Some("Failed to unstar module".to_string()),
        }
    } else {
        StarActionResponse { success: true, starred: false, error: None }
    }
}

/// `s` up to its first `c` (all of `s` when there is none).
pub open spec fn before_first(s: Seq<char>, c: char) -> Seq<char>
    decreases s.len(),
{
    if s.len() == 0 || s[0] == c {
        Seq::empty()
    } else {
        seq![s[0]] + before_first(s.drop_first(), c)
    }
}

proof fn lemma_before_first(s: Seq<char>, c: char, n: int)
    requires
        0 <= n <= s.len(),
        forall|j: int| 0 <= j < n ==> s[j] != c,
        n == s.len() || s[n] == c,
    ensures
        before_first(s, c) == s.take(n),
    decreases n,
{
    if n == 0 {
        assert(s.take(0) =~= Seq::<char>::empty());
    } else {
        let t = s.drop_first();
        assert forall|j: int| 0 <= j < n - 1 implies t[j] != c by {
            assert(t[j] == s[j + 1]);
        }
        if n - 1 < t.len() {
            assert(t[n - 1] == s[n]);
        }
        lemma_before_first(t, c, n - 1);
        assert(seq![s[0]] + t.take(n - 1) =~= s.take(n));
    }
}

/// The file name of a data export made at `exported_at` (an RFC 3339 time): its date part.
pub fn export_filename(exported_at: &str) -> (r: String)
    ensures
        r@ == "barforge-export-"@ + before_first(exported_at@, 'T') + ".json"@,
{
    let v = chars_of(exported_at);
    let mut n: usize = 0;
    while n < v.len() && v[n] != 'T'
        invariant
            n <= v@.len(),
            v@ == exported_at@,
            forall|j: int| 0 <= j < n ==> v@[j] != 'T',
        decreases v@.len() - n,
    {
        n = n + 1;
    }
    proof {
        lemma_before_first(v@, 'T', n as int);
    }
    let mut date: Vec<char> = Vec::new();
    let mut i: usize = 0;
    while i < n
        invariant
            i <= n <= v@.len(),
            date@ == v@.take(i as int),
        decreases n - i,
    {
        date.push(v[i]);
        i = i + 1;
        assert(date@ =~= v@.take(i as int));
    }
    let date = string_of(&date);
    let mut r = "barforge-export-".to_string();
    r.append(date.as_str());
    r.append(".json");
    r
}

/// The `Content-Disposition` of a data export saved as `filename`.
pub fn export_disposition(filename: &str) -> (r: String)
    ensures
        r@ == "attachment; filename=\""@ + filename@ + "\""@,
{
    let mut r = "attachment; filename=\"".to_string();
    r.append(filename);
    r.append("\"");
    r
}

/// The text of the e-mail that confirms a data export made at `exported_at`.
pub fn export_email_text(exported_at: &str) -> (r: String)
    ensures
        r@ == "Your Barforge data export was generated at "@ + exported_at@ + "."@,
{
    let mut r = "Your Barforge data export was generated at ".to_string();
    r.append(exported_at);
    r.append(".");
    r
}

/// The page of notifications asked for: 20 from the first unless the request says otherwise.
pub fn notification_page(limit: Option<i64>, offset: Option<i64>) -> (r: (i64, i64))
    ensures
        r.0 == (match limit {
            Some(l) => l,
            None => 20,
        }),
        r.1 == (match offset {
            Some(o) => o,
            None => 0,
        }),
{
    let l = match limit {
        Some(l) => l,
        None => 20,
    };
    let o = match offset {
        Some(o) => o,
        None => 0,
    };
    (l, o)
}

/// Whether a request to an administration endpoint goes on: it needs a stored token and a
/// login (else Unauthorized), and the login must be an administrator's (else Forbidden).
pub fn admin_gate(has_token: bool, login: Option<&str>, admin_logins: &Vec<String>) -> (r: Result<(), u16>)
    ensures
        if !has_token || login is None {
            r == Err::<(), u16>(401)
        } else if !crate::text::string_views(admin_logins@).contains(login->0@) {
            r == Err::<(), u16>(403)
        } else {
            r is Ok
        },
{
    if !has_token {
        return Err(401);
    }
    let login = match login {
        Some(l) => l,
        None => {
            return Err(401);
        },
    };
    if !crate::server_config::is_admin_login(admin_logins, login) {
        return Err(403);
    }
    Ok(())
}

} // verus!
