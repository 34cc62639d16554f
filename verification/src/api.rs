//! Registry endpoints and the small records exchanged with the registry API.
use vstd::prelude::*;
use vstd::string::StringExecFns;

use crate::text::{
    contains_string, i64_decimal, int_decimal, string_views, trim_end_char, trim_end_matches_char,
};

verus! {

broadcast use vstd::string::group_string_axioms;

/// Registry base URL used when the build does not name another one.
pub const DEFAULT_API_BASE_URL: &'static str = "https://api.barforge.dev";

/// Text of the registry URL for `path` under `base`: trailing slashes of `base` dropped,
/// then `/api/v1/`, then `path`.
pub open spec fn api_url_text(base: Seq<char>, path: Seq<char>) -> Seq<char> {
    trim_end_char(base, '/') + "/api/v1/"@ + path
}

/// Joins `base` and `path` into a registry API URL.
pub fn api_url(base: &str, path: &str) -> (r: String)
    ensures
        r@ == api_url_text(base@, path@),
{
    let trimmed = trim_end_matches_char(base, '/');
    let mut r = trimmed.to_string();
    r.append("/api/v1/");
    r.append(path);
    r
}

/// Endpoint for the registry index.
pub fn index_url(base: &str) -> (r: String)
    ensures
        r@ == api_url_text(base@, "index"@),
{
    api_url(base, "index")
}

/// Endpoint for featured modules.
pub fn featured_url(base: &str) -> (r: String)
    ensures
        r@ == api_url_text(base@, "featured"@),
{
    api_url(base, "featured")
}

/// Endpoint for landing page data.
pub fn landing_url(base: &str) -> (r: String)
    ensures
        r@ == api_url_text(base@, "landing"@),
{
    api_url(base, "landing")
}

/// Endpoint for the signed-in user's collections.
pub fn collections_url(base: &str) -> (r: String)
    ensures
        r@ == api_url_text(base@, "collections"@),
{
    api_url(base, "collections")
}

/// Endpoint for the signed-in user's stars.
pub fn stars_url(base: &str) -> (r: String)
    ensures
        r@ == api_url_text(base@, "users/me/stars"@),
{
    api_url(base, "users/me/stars")
}

/// Endpoint for star synchronisation.
pub fn stars_sync_url(base: &str) -> (r: String)
    ensures
        r@ == api_url_text(base@, "stars/sync"@),
{
    api_url(base, "stars/sync")
}

/// Endpoint for notification preferences.
pub fn notifications_preferences_url(base: &str) -> (r: String)
    ensures
        r@ == api_url_text(base@, "notifications/preferences"@),
{
    api_url(base, "notifications/preferences")
}

/// Endpoint for notifications.
pub fn notifications_url(base: &str) -> (r: String)
    ensures
        r@ == api_url_text(base@, "notifications"@),
{
    api_url(base, "notifications")
}

/// Endpoint for the unread notification count.
pub fn notifications_unread_url(base: &str) -> (r: String)
    ensures
        r@ == api_url_text(base@, "notifications/unread-count"@),
{
    api_url(base, "notifications/unread-count")
}

/// Endpoint for marking every notification read.
pub fn notifications_mark_all_read_url(base: &str) -> (r: String)
    ensures
        r@ == api_url_text(base@, "notifications/mark-all-read"@),
{
    api_url(base, "notifications/mark-all-read")
}

/// Endpoint for the notification event stream.
pub fn notifications_stream_url(base: &str) -> (r: String)
    ensures
        r@ == api_url_text(base@, "notifications/stream"@),
{
    api_url(base, "notifications/stream")
}

/// Endpoint for admin statistics.
pub fn admin_stats_url(base: &str) -> (r: String)
    ensures
        r@ == api_url_text(base@, "admin/stats"@),
{
    api_url(base, "admin/stats")
}

/// Endpoint for pending submissions.
pub fn admin_submissions_url(base: &str) -> (r: String)
    ensures
        r@ == api_url_text(base@, "admin/submissions"@),
{
    api_url(base, "admin/submissions")
}

/// Endpoint for a module.
pub fn module_detail_url(base: &str, uuid: &str) -> (r: String)
    ensures
        r@ == api_url_text(base@, "modules/"@ + uuid@),
{
    let mut path = "modules/".to_string();
    path.append(uuid);
    api_url(base, path.as_str())
}

/// Endpoint for a module's versions.
pub fn module_versions_url(base: &str, uuid: &str) -> (r: String)
    ensures
        r@ == api_url_text(base@, "modules/"@ + uuid@ + "/versions"@),
{
    let mut path = "modules/".to_string();
    path.append(uuid);
    path.append("/versions");
    api_url(base, path.as_str())
}

/// Endpoint for modules related to a module.
pub fn module_related_url(base: &str, uuid: &str) -> (r: String)
    ensures
        r@ == api_url_text(base@, "modules/"@ + uuid@ + "/related"@),
{
    let mut path = "modules/".to_string();
    path.append(uuid);
    path.append("/related");
    api_url(base, path.as_str())
}

/// Endpoint for a module's reviews.
pub fn module_reviews_url(base: &str, uuid: &str) -> (r: String)
    ensures
        r@ == api_url_text(base@, "modules/"@ + uuid@ + "/reviews"@),
{
    let mut path = "modules/".to_string();
    path.append(uuid);
    path.append("/reviews");
    api_url(base, path.as_str())
}

/// Endpoint for a module's screenshots.
pub fn module_screenshots_url(base: &str, uuid: &str) -> (r: String)
    ensures
        r@ == api_url_text(base@, "modules/"@ + uuid@ + "/screenshots"@),
{
    let mut path = "modules/".to_string();
    path.append(uuid);
    path.append("/screenshots");
    api_url(base, path.as_str())
}

/// Endpoint for a user profile.
pub fn user_profile_url(base: &str, username: &str) -> (r: String)
    ensures
        r@ == api_url_text(base@, "users/"@ + username@),
{
    let mut path = "users/".to_string();
    path.append(username);
    api_url(base, path.as_str())
}

/// Endpoint for a user's modules.
pub fn user_modules_url(base: &str, username: &str) -> (r: String)
    ensures
        r@ == api_url_text(base@, "users/"@ + username@ + "/modules"@),
{
    let mut path = "users/".to_string();
    path.append(username);
    path.append("/modules");
    api_url(base, path.as_str())
}

/// Endpoint for a user's collections.
pub fn user_collections_url(base: &str, username: &str) -> (r: String)
    ensures
        r@ == api_url_text(base@, "users/"@ + username@ + "/collections"@),
{
    let mut path = "users/".to_string();
    path.append(username);
    path.append("/collections");
    api_url(base, path.as_str())
}

/// Endpoint for a module's star status.
pub fn star_status_url(base: &str, uuid: &str) -> (r: String)
    ensures
        r@ == api_url_text(base@, "modules/"@ + uuid@ + "/star"@),
{
    let mut path = "modules/".to_string();
    path.append(uuid);
    path.append("/star");
    api_url(base, path.as_str())
}

/// Endpoint for a collection.
pub fn collection_url(base: &str, id: i64) -> (r: String)
    ensures
        r@ == api_url_text(base@, "collections/"@ + int_decimal(id as int)),
{
    let mut path = "collections/".to_string();
    let digits = i64_decimal(id);
    path.append(digits.as_str());
    api_url(base, path.as_str())
}

/// Endpoint for a collection's modules.
pub fn collection_modules_url(base: &str, id: i64) -> (r: String)
    ensures
        r@ == api_url_text(base@, "collections/"@ + int_decimal(id as int) + "/modules"@),
{
    let mut path = "collections/".to_string();
    let digits = i64_decimal(id);
    path.append(digits.as_str());
    path.append("/modules");
    api_url(base, path.as_str())
}

/// Endpoint for marking one notification read.
pub fn notification_mark_read_url(base: &str, id: i64) -> (r: String)
    ensures
        r@ == api_url_text(base@, "notifications/"@ + int_decimal(id as int) + "/read"@),
{
    let mut path = "notifications/".to_string();
    let digits = i64_decimal(id);
    path.append(digits.as_str());
    path.append("/read");
    api_url(base, path.as_str())
}

/// Endpoint for approving a submission.
pub fn admin_submission_approve_url(base: &str, id: i64) -> (r: String)
    ensures
        r@ == api_url_text(base@, "admin/submissions/"@ + int_decimal(id as int) + "/approve"@),
{
    let mut path = "admin/submissions/".to_string();
    let digits = i64_decimal(id);
    path.append(digits.as_str());
    path.append("/approve");
    api_url(base, path.as_str())
}

/// Endpoint for rejecting a submission.
pub fn admin_submission_reject_url(base: &str, id: i64) -> (r: String)
    ensures
        r@ == api_url_text(base@, "admin/submissions/"@ + int_decimal(id as int) + "/reject"@),
{
    let mut path = "admin/submissions/".to_string();
    let digits = i64_decimal(id);
    path.append(digits.as_str());
    path.append("/reject");
    api_url(base, path.as_str())
}

/// Endpoint for toggling a user's verification.
pub fn admin_user_verify_url(base: &str, id: i64) -> (r: String)
    ensures
        r@ == api_url_text(base@, "admin/users/"@ + int_decimal(id as int) + "/verify"@),
{
    let mut path = "admin/users/".to_string();
    let digits = i64_decimal(id);
    path.append(digits.as_str());
    path.append("/verify");
    api_url(base, path.as_str())
}

/// Endpoint for one screenshot of a module.
pub fn module_screenshot_url(base: &str, uuid: &str, id: i64) -> (r: String)
    ensures
        r@ == api_url_text(base@, "modules/"@ + uuid@ + "/screenshots/"@ + int_decimal(id as int)),
{
    let mut path = "modules/".to_string();
    path.append(uuid);
    path.append("/screenshots/");
    let digits = i64_decimal(id);
    path.append(digits.as_str());
    api_url(base, path.as_str())
}

/// Endpoint for one module inside a collection.
pub fn collection_module_url(base: &str, id: i64, uuid: &str) -> (r: String)
    ensures
        r@ == api_url_text(base@, "collections/"@ + int_decimal(id as int) + "/modules/"@ + uuid@),
{
    let mut path = "collections/".to_string();
    let digits = i64_decimal(id);
    path.append(digits.as_str());
    path.append("/modules/");
    path.append(uuid);
    api_url(base, path.as_str())
}

/// Registry base URL this library is built against.
///
/// The registry base is fixed when the program is built; the library itself reads no
/// build setting and answers [`DEFAULT_API_BASE_URL`]. Programs that take the base from
/// their build or run environment pick it with [`choose_api_base_url`].
pub fn api_base_url() -> (r: &'static str)
    ensures
        r@ == DEFAULT_API_BASE_URL@,
{
    DEFAULT_API_BASE_URL
}

/// Picks the registry base: the first setting that is present, else the default.
pub fn choose_api_base_url(primary: Option<String>, secondary: Option<String>) -> (r: String)
    ensures
        r@ == (match primary {
            Some(p) => p@,
            None => match secondary {
                Some(s) => s@,
                None => DEFAULT_API_BASE_URL@,
            },
        }),
{
    match primary {
        Some(p) => p,
        None => match secondary {
            Some(s) => s,
            None => DEFAULT_API_BASE_URL.to_string(),
        },
    }
}

/// An API failure, carrying the message shown to the user.
#[derive(Debug, Clone, PartialEq, Eq)]
pub struct ApiError {
    message: String,
}

impl ApiError {
    /// An error with the given message.
    pub fn new(message: String) -> (r: ApiError)
        ensures
            r.spec_message() == message@,
    {
        ApiError { message }
    }

    /// The message, as the error's `Display` prints it.
    pub fn message(&self) -> (r: &str)
        ensures
            r@ == self.spec_message(),
    {
        self.message.as_str()
    }

    /// Spec view of the message.
    pub closed spec fn spec_message(&self) -> Seq<char> {
        self.message@
    }
}

/// The signed-in user as the session endpoint reports it.
#[derive(Debug, Clone, PartialEq, Eq)]
pub struct SessionUser {
    pub login: String,
    pub email: Option<String>,
}

/// The session endpoint's answer.
#[derive(Debug, Clone, PartialEq, Eq)]
pub struct SessionResponse {
    pub authenticated: bool,
    pub is_admin: bool,
    pub user: Option<SessionUser>,
}

/// The CSRF endpoint's answer.
#[derive(Debug, Clone, PartialEq, Eq)]
pub struct CsrfTokenResponse {
    pub token: String,
}

/// Outcome of starring or unstarring a module.
#[derive(Debug, Clone, PartialEq, Eq)]
pub struct StarActionResponse {
    pub success: bool,
    pub starred: bool,
    pub error: Option<String>,
}

/// Star, fork and contributor totals of the project's repositories.
#[derive(Debug, Clone, PartialEq, Eq)]
pub struct GithubStats {
    pub stars: i64,
    pub forks: i64,
    pub contributors: i64,
}

/// The counters GitHub reports for one repository.
#[derive(Debug, Clone, PartialEq, Eq)]
pub struct GithubRepo {
    pub stargazers_count: i64,
    pub forks_count: i64,
}

/// One contributor of a repository.
#[derive(Debug, Clone, PartialEq, Eq)]
pub struct GithubContributor {
    pub login: String,
}

/// Stars of a repository that may be missing (counted as zero).
pub open spec fn repo_stars(repo: Option<GithubRepo>) -> int {
    match repo {
        Some(r) => r.stargazers_count as int,
        None => 0,
    }
}

/// Forks of a repository that may be missing (counted as zero).
pub open spec fn repo_forks(repo: Option<GithubRepo>) -> int {
    match repo {
        Some(r) => r.forks_count as int,
        None => 0,
    }
}

/// The logins of a list of contributors, as a set.
pub open spec fn contributor_logins(cs: Seq<GithubContributor>) -> Set<Seq<char>> {
    cs.map_values(|c: GithubContributor| c.login@).to_set()
}

fn add_logins(seen: &mut Vec<String>, cs: &Vec<GithubContributor>)
    requires
        string_views(old(seen)@).no_duplicates(),
    ensures
        string_views(final(seen)@).no_duplicates(),
        string_views(final(seen)@).to_set() == string_views(old(seen)@).to_set() + contributor_logins(cs@),
        final(seen).len() <= old(seen).len() + cs.len(),
{
    let ghost start = string_views(seen@).to_set();
    let mut i: usize = 0;
    while i < cs.len()
        invariant
            i <= cs.len(),
            string_views(seen@).no_duplicates(),
            string_views(seen@).to_set() == start + contributor_logins(cs@.take(i as int)),
            seen.len() <= old(seen).len() + i,
        decreases cs.len() - i,
    {
        let login = &cs[i].login;
        let ghost before = seen@;
        if !contains_string(seen, login.as_str()) {
            seen.push(login.clone());
            assert(string_views(seen@) == string_views(before).push(login@));
            proof {
                string_views(before).lemma_push_to_set_commute(login@);
            }
        }
        proof {
            let taken = cs@.take(i as int);
            let next = cs@.take(i + 1);
            assert(next == taken.push(cs@[i as int]));
            let f = |c: GithubContributor| c.login@;
            assert(next.map_values(f) == taken.map_values(f).push(login@));
            taken.map_values(f).lemma_push_to_set_commute(login@);
        }
        i = i + 1;
    }
    assert(cs@.take(cs.len() as int) == cs@);
}

/// Adds up the stars and forks of both repositories and counts each contributor login once.
pub fn combine_github_stats(
    web_repo: Option<GithubRepo>,
    app_repo: Option<GithubRepo>,
    web_contributors: Vec<GithubContributor>,
    app_contributors: Vec<GithubContributor>,
) -> (r: GithubStats)
    requires
        i64::MIN <= repo_stars(web_repo) + repo_stars(app_repo) <= i64::MAX,
        i64::MIN <= repo_forks(web_repo) + repo_forks(app_repo) <= i64::MAX,
        web_contributors.len() + app_contributors.len() <= i64::MAX,
    ensures
        r.stars == repo_stars(web_repo) + repo_stars(app_repo),
        r.forks == repo_forks(web_repo) + repo_forks(app_repo),
        r.contributors == (contributor_logins(web_contributors@) + contributor_logins(
            app_contributors@,
        )).len(),
{
    let web_stars: i64 = match &web_repo {
        Some(repo) => repo.stargazers_count,
        None => 0,
    };
    let app_stars: i64 = match &app_repo {
        Some(repo) => repo.stargazers_count,
        None => 0,
    };
    let web_forks: i64 = match &web_repo {
        Some(repo) => repo.forks_count,
        None => 0,
    };
    let app_forks: i64 = match &app_repo {
        Some(repo) => repo.forks_count,
        None => 0,
    };
    let mut seen: Vec<String> = Vec::new();
    assert(string_views(seen@).to_set() =~= Set::<Seq<char>>::empty());
    add_logins(&mut seen, &web_contributors);
    add_logins(&mut seen, &app_contributors);
    proof {
        string_views(seen@).unique_seq_to_set();
        assert(string_views(seen@).to_set() =~= contributor_logins(web_contributors@)
            + contributor_logins(app_contributors@));
    }
    let count: usize = seen.len();
    GithubStats { stars: web_stars + app_stars, forks: web_forks + app_forks, contributors: count as i64 }
}

} // verus!
