//! Data the web pages fetch from the registry, and what each page shows while it loads, when
//! it fails, and when the registry is not reachable at all.
use vstd::prelude::*;
use vstd::string::{StringExecFns, StringSliceAdditionalSpecFns};

use crate::api::{GithubStats, SessionResponse, SessionUser};
use crate::model::{
    AdminStats, Collection, FeaturedModulesResponse, LandingData, PublicStats, RegistryIndex,
    RegistryModule, Review, Screenshot, Submission, SubmissionsResponse, UserProfile,
    VersionHistoryEntry, Versioned, copy_collections, copy_module, copy_modules, copy_profile,
    copy_reviews, copy_versions, same_module, same_modules,
};
use crate::pages::{build_screenshot_urls, screenshot_url};
use crate::sample_data::{
    is_fallback_module, is_sample_modules, is_sample_profile, sample_collections,
    sample_fallback_module, sample_landing_data, sample_module_by_uuid, sample_modules,
    sample_related_modules, sample_stats, sample_user_profile, sample_versions, without_module,
    collection_is, sample_pick, version_is,
};
use crate::text::{contains_str, contains_text, opt_view, string_views};

verus! {

broadcast use vstd::string::group_string_axioms;

/// Where a fetch stands.
#[derive(Debug, Clone, PartialEq)]
pub enum RemoteState<T> {
    Loading,
    Ready(T),
    Error(String),
    /// Nothing is fetched here (the live registry is off, or this is not a browser).
    Unavailable,
}

/// The landing page's counts: the fetched ones, the sample ones when nothing is fetched, and
/// zeros while loading or after a failure.
pub fn landing_stats_from_state(state: &RemoteState<LandingData>) -> (r: PublicStats)
    ensures
        r == (match state {
            RemoteState::Ready(payload) => payload.stats,
            RemoteState::Unavailable => sample_stats(),
            _ => PublicStats { total_modules: 0, total_downloads: 0, total_authors: 0 },
        }),
{
    match state {
        RemoteState::Ready(payload) => payload.stats,
        RemoteState::Unavailable => sample_landing_data().stats,
        _ => PublicStats { total_modules: 0, total_downloads: 0, total_authors: 0 },
    }
}

/// A session set up in place of the server's answer.
#[derive(Debug, Clone, PartialEq, Eq)]
pub struct SessionStateOverride {
    pub authenticated: bool,
    pub is_admin: bool,
    pub login: Option<String>,
    pub email: Option<String>,
}

/// The session answer a set-up session stands for: a user (with the set-up address) only when
/// signed in with a login.
pub fn session_response_from_override(o: &SessionStateOverride) -> (r: SessionResponse)
    ensures
        r.authenticated == o.authenticated,
        r.is_admin == o.is_admin,
        match r.user {
            Some(u) => o.authenticated && o.login == Some(u.login) && o.email == u.email,
            None => !o.authenticated || o.login is None,
        },
{
    let user = if o.authenticated {
        match &o.login {
            Some(login) => Some(SessionUser { login: login.clone(), email: o.email.clone() }),
            None => None,
        }
    } else {
        None
    };
    SessionResponse { authenticated: o.authenticated, is_admin: o.is_admin, user }
}

/// The set-up session that a session answer stands for.
pub fn session_override_from_response(session: &SessionResponse) -> (r: SessionStateOverride)
    ensures
        r.authenticated == session.authenticated,
        r.is_admin == session.is_admin,
        match session.user {
            Some(u) => r.login == Some(u.login) && r.email == u.email,
            None => r.login is None && r.email is None,
        },
{
    let (login, email) = match &session.user {
        Some(u) => (Some(u.login.clone()), u.email.clone()),
        None => (None, None),
    };
    SessionStateOverride {
        authenticated: session.authenticated,
        is_admin: session.is_admin,
        login,
        email,
    }
}

/// A set-up session survives the trip through a session answer exactly when it holds no login
/// while signed out, and no address without a login.
pub proof fn lemma_session_override_round_trip(o: SessionStateOverride, r: SessionResponse, back: SessionStateOverride)
    requires
        r.authenticated == o.authenticated,
        r.is_admin == o.is_admin,
        match r.user {
            Some(u) => o.authenticated && o.login == Some(u.login) && o.email == u.email,
            None => !o.authenticated || o.login is None,
        },
        back.authenticated == r.authenticated,
        back.is_admin == r.is_admin,
        match r.user {
            Some(u) => back.login == Some(u.login) && back.email == u.email,
            None => back.login is None && back.email is None,
        },
    ensures
        back == o <==> ((o.authenticated || o.login is None) && (o.login is Some || o.email is None)),
{
}

/// The admin counts' fetch state: nothing for non-administrators; otherwise loading until an
/// answer comes, then the counts, nothing when the registry had none, or the error.
pub fn admin_stats_state_from_response(
    response: Option<Result<Option<Versioned<AdminStats>>, String>>,
    is_admin: bool,
) -> (r: RemoteState<AdminStats>)
    ensures
        r == (if !is_admin {
            RemoteState::Unavailable
        } else {
            match response {
                Some(Ok(Some(payload))) => RemoteState::Ready(payload.payload),
                Some(Ok(None)) => RemoteState::Unavailable,
                Some(Err(err)) => RemoteState::Error(err),
                None => RemoteState::Loading,
            }
        }),
{
    if !is_admin {
        return RemoteState::Unavailable;
    }
    match response {
        Some(Ok(Some(payload))) => RemoteState::Ready(payload.payload),
        Some(Ok(None)) => RemoteState::Unavailable,
        Some(Err(err)) => RemoteState::Error(err),
        None => RemoteState::Loading,
    }
}

/// The submissions' fetch state, by the same rule as [`admin_stats_state_from_response`].
pub fn admin_submissions_state_from_response(
    response: Option<Result<Option<Versioned<SubmissionsResponse>>, String>>,
    is_admin: bool,
) -> (r: RemoteState<SubmissionsResponse>)
    ensures
        r == (if !is_admin {
            RemoteState::Unavailable
        } else {
            match response {
                Some(Ok(Some(payload))) => RemoteState::Ready(payload.payload),
                Some(Ok(None)) => RemoteState::Unavailable,
                Some(Err(err)) => RemoteState::Error(err),
                None => RemoteState::Loading,
            }
        }),
{
    if !is_admin {
        return RemoteState::Unavailable;
    }
    match response {
        Some(Ok(Some(payload))) => RemoteState::Ready(payload.payload),
        Some(Ok(None)) => RemoteState::Unavailable,
        Some(Err(err)) => RemoteState::Error(err),
        None => RemoteState::Loading,
    }
}

/// The admin counts shown: the fetched ones, else zeros.
pub fn admin_stats_from_state(state: &RemoteState<AdminStats>) -> (r: AdminStats)
    ensures
        r == (match state {
            RemoteState::Ready(stats) => *stats,
            _ => AdminStats {
                total_modules: 0,
                total_users: 0,
                total_downloads: 0,
                pending_submissions: 0,
            },
        }),
{
    match state {
        RemoteState::Ready(stats) => *stats,
        _ => AdminStats {
            total_modules: 0,
            total_users: 0,
            total_downloads: 0,
            pending_submissions: 0,
        },
    }
}

fn copy_submission(s: &Submission) -> (r: Submission)
    ensures
        r == *s,
{
    Submission {
        id: s.id,
        submitter_id: s.submitter_id,
        uuid: s.uuid.clone(),
        name: s.name.clone(),
        description: s.description.clone(),
        category: s.category.clone(),
        version: s.version.clone(),
        repo_url: s.repo_url.clone(),
        status: s.status.clone(),
        rejection_reason: s.rejection_reason.clone(),
        submitted_at: s.submitted_at.clone(),
        reviewed_at: s.reviewed_at.clone(),
        reviewed_by: s.reviewed_by,
        submitter_username: s.submitter_username.clone(),
    }
}

/// The submissions shown: the fetched ones, else none.
pub fn admin_submissions_from_state(state: &RemoteState<SubmissionsResponse>) -> (r: SubmissionsResponse)
    ensures
        match state {
            RemoteState::Ready(s) => r.submissions@ == s.submissions@ && r.total == s.total,
            _ => r.submissions@.len() == 0 && r.total == 0,
        },
{
    match state {
        RemoteState::Ready(s) => {
            let mut out: Vec<Submission> = Vec::new();
            let mut i: usize = 0;
            while i < s.submissions.len()
                invariant
                    i <= s.submissions@.len(),
                    out@ == s.submissions@.take(i as int),
                decreases s.submissions@.len() - i,
            {
                out.push(copy_submission(&s.submissions[i]));
                i = i + 1;
                assert(out@ =~= s.submissions@.take(i as int));
            }
            assert(s.submissions@.take(s.submissions@.len() as int) =~= s.submissions@);
            SubmissionsResponse { submissions: out, total: s.total }
        },
        _ => SubmissionsResponse { submissions: Vec::new(), total: 0 },
    }
}

/// The modules the browse pages list: the index's when it has any, the sample modules when
/// nothing is fetched, and none otherwise.
pub fn modules_from_state(state: &RemoteState<RegistryIndex>) -> (r: Vec<RegistryModule>)
    ensures
        match state {
            RemoteState::Ready(index) => if index.modules@.len() > 0 {
                same_modules(r@, index.modules@)
            } else {
                r@.len() == 0
            },
            RemoteState::Unavailable => is_sample_modules(r@),
            _ => r@.len() == 0,
        },
{
    match state {
        RemoteState::Ready(index) => {
            if index.modules.len() > 0 {
                copy_modules(index.modules.as_slice())
            } else {
                Vec::new()
            }
        },
        RemoteState::Unavailable => sample_modules(),
        _ => Vec::new(),
    }
}

/// The featured modules shown: the fetched answer, else `fallback` in every list (version 0).
pub fn featured_modules_from_state(
    state: &RemoteState<FeaturedModulesResponse>,
    fallback: &[RegistryModule],
) -> (r: FeaturedModulesResponse)
    ensures
        match state {
            RemoteState::Ready(p) => r.version == p.version && same_modules(r.featured@, p.featured@)
                && same_modules(r.popular@, p.popular@) && same_modules(r.recent@, p.recent@),
            _ => r.version == 0 && same_modules(r.featured@, fallback@) && same_modules(
                r.popular@,
                fallback@,
            ) && same_modules(r.recent@, fallback@),
        },
{
    match state {
        RemoteState::Ready(p) => FeaturedModulesResponse {
            version: p.version,
            featured: copy_modules(p.featured.as_slice()),
            popular: copy_modules(p.popular.as_slice()),
            recent: copy_modules(p.recent.as_slice()),
        },
        _ => FeaturedModulesResponse {
            version: 0,
            featured: copy_modules(fallback),
            popular: copy_modules(fallback),
            recent: copy_modules(fallback),
        },
    }
}

/// The project's GitHub counts shown: the fetched ones, else 1280 stars, 96 forks and 18
/// contributors.
pub fn github_stats_from_state(state: &RemoteState<GithubStats>) -> (r: GithubStats)
    ensures
        match state {
            RemoteState::Ready(s) => r.stars == s.stars && r.forks == s.forks && r.contributors
                == s.contributors,
            _ => r.stars == 1280 && r.forks == 96 && r.contributors == 18,
        },
{
    match state {
        RemoteState::Ready(s) => GithubStats {
            stars: s.stars,
            forks: s.forks,
            contributors: s.contributors,
        },
        _ => GithubStats { stars: 1280, forks: 96, contributors: 18 },
    }
}

/// The sum of the download counts of `modules`.
pub open spec fn total_downloads(modules: Seq<RegistryModule>) -> int
    decreases modules.len(),
{
    if modules.len() == 0 {
        0
    } else {
        total_downloads(modules.drop_last()) + modules.last().downloads
    }
}

/// What a user's profile page shows.
#[derive(Debug, Clone, PartialEq)]
pub struct UserProfileView {
    pub profile: UserProfile,
    pub modules: Vec<RegistryModule>,
    pub collections: Vec<Collection>,
    pub total_downloads: i64,
}

/// The modules a profile page lists: the fetched ones, the samples when nothing is fetched,
/// none otherwise.
pub open spec fn profile_modules_ok(state: RemoteState<Vec<RegistryModule>>, r: Seq<RegistryModule>) -> bool {
    match state {
        RemoteState::Ready(m) => same_modules(r, m@),
        RemoteState::Unavailable => is_sample_modules(r),
        _ => r.len() == 0,
    }
}

proof fn lemma_same_modules_total(a: Seq<RegistryModule>, b: Seq<RegistryModule>)
    requires
        same_modules(a, b),
    ensures
        total_downloads(a) == total_downloads(b),
    decreases a.len(),
{
    if a.len() > 0 {
        assert(same_modules(a.drop_last(), b.drop_last())) by {
            assert forall|i: int| 0 <= i < a.drop_last().len() implies same_module(
                #[trigger] a.drop_last()[i],
                b.drop_last()[i],
            ) by {
                assert(same_module(a[i], b[i]));
            }
        }
        lemma_same_modules_total(a.drop_last(), b.drop_last());
        assert(same_module(a[a.len() - 1], b[b.len() - 1]));
    }
}

/// A user's profile page: the modules as in [`profile_modules_ok`]; the fetched profile, or the
/// sample profile of `username` counting those modules; the fetched collections, the sample
/// collections when nothing is fetched, none otherwise; and the modules' downloads added up.
pub fn user_profile_view_from_state(
    username: &str,
    profile_state: &RemoteState<UserProfile>,
    modules_state: &RemoteState<Vec<RegistryModule>>,
    collections_state: &RemoteState<Vec<Collection>>,
) -> (r: UserProfileView)
    requires
        modules_state matches RemoteState::Ready(m) ==> (forall|k: int|
            0 <= k <= m@.len() ==> i64::MIN <= #[trigger] total_downloads(m@.take(k))
                <= i64::MAX),
    ensures
        profile_modules_ok(*modules_state, r.modules@),
        match profile_state {
            RemoteState::Ready(p) => r.profile == *p,
            _ => is_sample_profile(r.profile, username@, r.modules@.len() as i64),
        },
        match collections_state {
            RemoteState::Ready(c) => r.collections@ == c@,
            RemoteState::Unavailable => r.collections@.len() == 1 && collection_is(
                r.collections@[0],
                1,
                "Ops Essentials"@,
                "Modules for steady-state ops dashboards."@,
                4,
            ),
            _ => r.collections@.len() == 0,
        },
        r.total_downloads == total_downloads(r.modules@),
{
    let modules = match modules_state {
        RemoteState::Ready(m) => copy_modules(m.as_slice()),
        RemoteState::Unavailable => sample_modules(),
        _ => Vec::new(),
    };
    let profile = match profile_state {
        RemoteState::Ready(p) => copy_profile(p),
        _ => sample_user_profile(username, modules.len()),
    };
    let collections = match collections_state {
        RemoteState::Ready(c) => copy_collections(c.as_slice()),
        RemoteState::Unavailable => sample_collections(profile.username.as_str()),
        _ => Vec::new(),
    };
    let ghost bound_ok = forall|k: int|
        0 <= k <= modules@.len() ==> i64::MIN <= #[trigger] total_downloads(modules@.take(k))
            <= i64::MAX;
    proof {
        match modules_state {
            RemoteState::Ready(m) => {
                assert forall|k: int| 0 <= k <= modules@.len() implies i64::MIN
                    <= #[trigger] total_downloads(modules@.take(k)) <= i64::MAX by {
                    assert(same_modules(modules@.take(k), m@.take(k))) by {
                        assert forall|i: int| 0 <= i < modules@.take(k).len() implies same_module(
                            #[trigger] modules@.take(k)[i],
                            m@.take(k)[i],
                        ) by {
                            assert(same_module(modules@[i], m@[i]));
                        }
                    }
                    lemma_same_modules_total(modules@.take(k), m@.take(k));
                }
            },
            RemoteState::Unavailable => {
                assert forall|k: int| 0 <= k <= modules@.len() implies i64::MIN
                    <= #[trigger] total_downloads(modules@.take(k)) <= i64::MAX by {
                    assert(modules@.take(0) =~= Seq::<RegistryModule>::empty());
                    assert(modules@.take(1).drop_last() =~= modules@.take(0));
                    assert(modules@.take(2).drop_last() =~= modules@.take(1));
                    assert(modules@.take(3).drop_last() =~= modules@.take(2));
                    assert(modules@.take(1).last() == modules@[0]);
                    assert(modules@.take(2).last() == modules@[1]);
                    assert(modules@.take(3).last() == modules@[2]);
                    assert(total_downloads(modules@.take(0)) == 0);
                    assert(total_downloads(modules@.take(1)) == 3200);
                    assert(total_downloads(modules@.take(2)) == 5000);
                    assert(total_downloads(modules@.take(3)) == 5900);
                }
            },
            _ => {
                assert forall|k: int| 0 <= k <= modules@.len() implies i64::MIN
                    <= #[trigger] total_downloads(modules@.take(k)) <= i64::MAX by {
                    assert(modules@.take(k) =~= Seq::<RegistryModule>::empty());
                }
            },
        }
    }
    let mut total: i64 = 0;
    let mut i: usize = 0;
    assert(modules@.take(0) =~= Seq::<RegistryModule>::empty());
    while i < modules.len()
        invariant
            i <= modules@.len(),
            bound_ok,
            bound_ok == (forall|k: int|
                0 <= k <= modules@.len() ==> i64::MIN <= #[trigger] total_downloads(
                    modules@.take(k),
                ) <= i64::MAX),
            total == total_downloads(modules@.take(i as int)),
        decreases modules@.len() - i,
    {
        assert(modules@.take(i + 1).drop_last() =~= modules@.take(i as int));
        assert(i64::MIN <= total_downloads(modules@.take(i + 1)) <= i64::MAX);
        total = total + modules[i].downloads;
        i = i + 1;
    }
    assert(modules@.take(modules@.len() as int) =~= modules@);
    UserProfileView { profile, modules, collections, total_downloads: total }
}

/// What the module page shows once the module is known.
#[derive(Debug, Clone, PartialEq)]
pub struct ModuleDetailReady {
    pub module: RegistryModule,
    pub versions: Vec<VersionHistoryEntry>,
    pub related_modules: Vec<RegistryModule>,
    pub screenshots: Vec<String>,
    pub reviews: Vec<Review>,
    pub collections: Vec<Collection>,
}

/// What the module page shows.
#[derive(Debug, Clone, PartialEq)]
pub enum ModuleDetailView {
    Loading,
    NotFound,
    Error { title: String, message: String },
    Ready(Box<ModuleDetailReady>),
}

/// A list fetched for the module page: the fetched items, the sample ones when nothing is
/// fetched, none while loading or after a failure.
pub open spec fn fetched_or<T>(state: RemoteState<Vec<T>>, sample: Seq<T>, r: Seq<T>) -> bool {
    match state {
        RemoteState::Ready(v) => r == v@,
        RemoteState::Unavailable => r == sample,
        _ => r.len() == 0,
    }
}

/// The screenshot addresses of the module page (see [`ModuleDetailReady`]).
pub open spec fn screenshots_ok(
    state: RemoteState<Vec<Screenshot>>,
    api_base: Seq<char>,
    uuid: Seq<char>,
    sample: Seq<Seq<char>>,
    r: Seq<Seq<char>>,
) -> bool {
    match state {
        RemoteState::Ready(shots) => r.len() == shots@.len() && forall|i: int|
            0 <= i < r.len() ==> #[trigger] r[i] == screenshot_url(api_base, uuid, shots@[i].r2_key@),
        RemoteState::Unavailable => r == sample,
        _ => r.len() == 0,
    }
}

fn copy_strings(v: &[String]) -> (r: Vec<String>)
    ensures
        r@ == v@,
{
    let mut r: Vec<String> = Vec::new();
    let mut i: usize = 0;
    while i < v.len()
        invariant
            i <= v@.len(),
            r@ == v@.take(i as int),
        decreases v@.len() - i,
    {
        r.push(v[i].clone());
        i = i + 1;
        assert(r@ =~= v@.take(i as int));
    }
    assert(v@.take(v@.len() as int) =~= v@);
    r
}

/// The module page for `uuid`. While the module loads the page loads; a failure that mentions
/// 404 is Not Found, any other failure an error with the message; otherwise the page shows the
/// fetched module (or, with nothing fetched, the sample module for `uuid`), and for each list the
/// fetched items, samples or nothing (see [`fetched_or`]); screenshots become addresses under
/// `api_base` (see [`screenshots_ok`]), and the page falls back to `sample_screenshots`; reviews
/// and collections have no samples.
pub fn resolve_module_detail_view(
    uuid: &str,
    module_state: &RemoteState<RegistryModule>,
    versions_state: &RemoteState<Vec<VersionHistoryEntry>>,
    related_state: &RemoteState<Vec<RegistryModule>>,
    screenshots_state: &RemoteState<Vec<Screenshot>>,
    reviews_state: &RemoteState<Vec<Review>>,
    collections_state: &RemoteState<Vec<Collection>>,
    api_base: &str,
    sample_screenshots: &[String],
) -> (r: ModuleDetailView)
    ensures
        match module_state {
            RemoteState::Loading => r is Loading,
            RemoteState::Error(message) => if contains_text(message@, "404"@) {
                r is NotFound
            } else {
                r matches ModuleDetailView::Error { title, message: m } && title@
                    == "Module unavailable"@ && m == message
            },
            _ => r matches ModuleDetailView::Ready(ready) && {
                &&& match module_state {
                    RemoteState::Ready(m) => same_module(ready.module, *m),
                    _ => exists|s: Seq<RegistryModule>|
                        is_sample_modules(s) && same_module(ready.module, sample_pick(s, uuid@)),
                }
                &&& match versions_state {
                    RemoteState::Ready(v) => ready.versions@ == v@,
                    RemoteState::Unavailable => ready.versions@.len() == 2 && version_is(
                        ready.versions@[0],
                        "1.3.2"@,
                        "Added Mocha theme support."@,
                        1200,
                        "2025-12-01T12:00:00Z"@,
                    ) && version_is(
                        ready.versions@[1],
                        "1.3.1"@,
                        "Improved forecast refresh cadence."@,
                        980,
                        "2025-10-20T12:00:00Z"@,
                    ),
                    _ => ready.versions@.len() == 0,
                }
                &&& match related_state {
                    RemoteState::Ready(v) => same_modules(ready.related_modules@, v@),
                    RemoteState::Unavailable => exists|s: Seq<RegistryModule>|
                        is_sample_modules(s) && same_modules(
                            ready.related_modules@,
                            without_module(s, ready.module.uuid@),
                        ),
                    _ => ready.related_modules@.len() == 0,
                }
                &&& screenshots_ok(
                    *screenshots_state,
                    api_base@,
                    ready.module.uuid@,
                    string_views(sample_screenshots@),
                    string_views(ready.screenshots@),
                )
                &&& fetched_or(*reviews_state, Seq::empty(), ready.reviews@)
                &&& fetched_or(*collections_state, Seq::empty(), ready.collections@)
            },
        },
{
    match module_state {
        RemoteState::Loading => {
            return ModuleDetailView::Loading;
        },
        RemoteState::Error(message) => {
            if contains_str(message.as_str(), "404") {
                return ModuleDetailView::NotFound;
            } else {
                return ModuleDetailView::Error {
                    title: "Module unavailable".to_string(),
                    message: message.clone(),
                };
            }
        },
        _ => {},
    }
    let module = match module_state {
        RemoteState::Ready(m) => copy_module(m),
        _ => sample_module_by_uuid(uuid),
    };
    let versions = match versions_state {
        RemoteState::Ready(v) => copy_versions(v.as_slice()),
        RemoteState::Unavailable => sample_versions(),
        _ => Vec::new(),
    };
    let related_modules = match related_state {
        RemoteState::Ready(v) => copy_modules(v.as_slice()),
        RemoteState::Unavailable => sample_related_modules(module.uuid.as_str()),
        _ => Vec::new(),
    };
    let screenshots = match screenshots_state {
        RemoteState::Ready(shots) => build_screenshot_urls(api_base, module.uuid.as_str(), shots.as_slice()),
        RemoteState::Unavailable => copy_strings(sample_screenshots),
        _ => Vec::new(),
    };
    let reviews = match reviews_state {
        RemoteState::Ready(v) => copy_reviews(v.as_slice()),
        _ => Vec::new(),
    };
    let collections = match collections_state {
        RemoteState::Ready(c) => copy_collections(c.as_slice()),
        _ => Vec::new(),
    };
    let ready = ModuleDetailReady {
        module,
        versions,
        related_modules,
        screenshots,
        reviews,
        collections,
    };
    ModuleDetailView::Ready(Box::new(ready))
}

/// Whether the visitor is signed in and an administrator, as the session fetch says (neither
/// until it is ready).
pub fn auth_flags(state: &RemoteState<SessionResponse>) -> (r: (bool, bool))
    ensures
        r == (match state {
            RemoteState::Ready(s) => (s.authenticated, s.is_admin),
            _ => (false, false),
        }),
{
    match state {
        RemoteState::Ready(s) => (s.authenticated, s.is_admin),
        _ => (false, false),
    }
}

/// What a user's profile page shows.
#[derive(Debug, Clone, Copy, PartialEq, Eq, Structural)]
pub enum ProfilePage {
    /// The not-found page (404).
    NotFound,
    /// The loading banner.
    Loading,
    /// The "Profile unavailable" banner.
    Failed,
    /// The profile.
    Show,
}

/// What the profile page shows for the profile fetch `state`: a failure whose message holds
/// `404` is not found, another failure the error banner.
pub fn profile_page(state: &RemoteState<UserProfile>) -> (r: ProfilePage)
    ensures
        r == match state {
            RemoteState::Loading => ProfilePage::Loading,
            RemoteState::Error(m) => if contains_text(m@, "404"@) {
                ProfilePage::NotFound
            } else {
                ProfilePage::Failed
            },
            _ => ProfilePage::Show,
        },
{
    match state {
        RemoteState::Loading => ProfilePage::Loading,
        RemoteState::Error(m) => {
            if contains_str(m.as_str(), "404") {
                ProfilePage::NotFound
            } else {
                ProfilePage::Failed
            }
        },
        _ => ProfilePage::Show,
    }
}

/// The name a profile is headed by: the display name, else the username.
pub fn profile_display_name(profile: &UserProfile) -> (r: &str)
    ensures
        r@ == match profile.display_name {
            Some(d) => d@,
            None => profile.username@,
        },
{
    match &profile.display_name {
        Some(d) => d.as_str(),
        None => profile.username.as_str(),
    }
}

/// How many modules the settings page counts for the signed-in user: the fetched ones, the
/// sample modules when nothing is fetched, none otherwise.
pub open spec fn settings_module_count(state: RemoteState<Vec<RegistryModule>>) -> int {
    match state {
        RemoteState::Ready(ms) => ms@.len() as int,
        RemoteState::Unavailable => 3,
        _ => 0,
    }
}

/// The profile the settings page edits: the fetched one, else the sample profile of `username`
/// with the module count of [`settings_module_count`].
pub fn settings_profile(
    profile_state: &RemoteState<UserProfile>,
    modules_state: &RemoteState<Vec<RegistryModule>>,
    username: &str,
) -> (r: UserProfile)
    ensures
        match profile_state {
            RemoteState::Ready(p) => r == *p,
            _ => is_sample_profile(r, username@, settings_module_count(*modules_state) as i64),
        },
{
    match profile_state {
        RemoteState::Ready(p) => copy_profile(p),
        _ => {
            let count: usize = match modules_state {
                RemoteState::Ready(ms) => ms.len(),
                RemoteState::Unavailable => sample_modules().len(),
                _ => 0,
            };
            sample_user_profile(username, count)
        },
    }
}

/// How the header's user menu names the visitor.
#[derive(Debug, Clone, PartialEq, Eq)]
pub struct UserBadge {
    pub login: String,
    /// `@` and the login.
    pub handle: String,
    /// The visitor's profile page.
    pub profile_href: String,
    /// The login's first character, `U` for an empty login.
    pub initial: char,
}

/// The login the header names: the signed-in user's, else `user`.
pub open spec fn badge_login(state: RemoteState<SessionResponse>) -> Seq<char> {
    match state {
        RemoteState::Ready(s) => match s.user {
            Some(u) => u.login@,
            None => "user"@,
        },
        _ => "user"@,
    }
}

/// How the header's user menu names the visitor (see [`badge_login`]).
pub fn user_badge(state: &RemoteState<SessionResponse>) -> (r: UserBadge)
    ensures
        r.login@ == badge_login(*state),
        r.handle@ == "@"@ + badge_login(*state),
        r.profile_href@ == "/users/"@ + badge_login(*state),
        r.initial == (if badge_login(*state).len() > 0 {
            badge_login(*state)[0]
        } else {
            'U'
        }),
{
    let login: String = match state {
        RemoteState::Ready(s) => match &s.user {
            Some(u) => u.login.clone(),
            None => "user".to_string(),
        },
        _ => "user".to_string(),
    };
    let mut handle = "@".to_string();
    handle.append(login.as_str());
    let mut profile_href = "/users/".to_string();
    profile_href.append(login.as_str());
    let initial = if login.unicode_len() > 0 {
        login.as_str().get_char(0)
    } else {
        'U'
    };
    UserBadge { login, handle, profile_href, initial }
}

/// The user the dashboard is about: the signed-in login, else `barforge`.
pub fn dashboard_username(state: &RemoteState<SessionResponse>) -> (r: &str)
    ensures
        r@ == match state {
            RemoteState::Ready(s) => match s.user {
                Some(u) => u.login@,
                None => "barforge"@,
            },
            _ => "barforge"@,
        },
{
    match state {
        RemoteState::Ready(s) => match &s.user {
            Some(u) => u.login.as_str(),
            None => "barforge",
        },
        _ => "barforge",
    }
}

/// Which visitors a gated page admits.
#[derive(Debug, Clone, Copy, PartialEq, Eq, Structural)]
pub enum AuthGateKind {
    User,
    Admin,
}

/// What a gated page shows.
#[derive(Debug, Clone, PartialEq, Eq)]
pub enum GateView {
    /// The page itself.
    Content,
    /// A notice that only administrators may see the page.
    AdminRequired,
    /// A sign-in card with a title, a message and the GitHub sign-in link.
    Login { title: &'static str, message: &'static str, href: String },
}

/// The sign-in card a gate shows, by the session fetch.
pub open spec fn login_card(state: RemoteState<SessionResponse>) -> (&'static str, &'static str) {
    match state {
        RemoteState::Loading => ("Checking your session", "Verifying your access..."),
        RemoteState::Error(_) => ("Unable to verify session", "Please sign in again to continue."),
        _ => ("Log in to continue", "This page is available to registered members."),
    }
}

/// What a page behind `gate` shows: with nothing fetched, or to a signed-in visitor, the page
/// (but an administrator page tells other signed-in visitors that it needs an administrator);
/// otherwise a sign-in card whose link returns to `redirect_to`.
pub fn auth_gate_view(state: &RemoteState<SessionResponse>, gate: AuthGateKind, redirect_to: &str) -> (r: GateView)
    ensures
        match state {
            RemoteState::Unavailable => r == GateView::Content,
            RemoteState::Ready(s) if s.authenticated => if gate == AuthGateKind::Admin
                && !s.is_admin {
                r == GateView::AdminRequired
            } else {
                r == GateView::Content
            },
            _ => r matches GateView::Login { title, message, href } && (title, message)
                == login_card(*state) && href@ == (if crate::auth_redirect::spec_is_safe_redirect(
                redirect_to@,
            ) {
                "/auth/github?redirect_to="@ + crate::auth_redirect::encode_bytes(
                    redirect_to.spec_bytes(),
                )
            } else {
                "/auth/github"@
            }),
        },
{
    match state {
        RemoteState::Unavailable => GateView::Content,
        RemoteState::Ready(s) => {
            if s.authenticated {
                if gate == AuthGateKind::Admin && !s.is_admin {
                    GateView::AdminRequired
                } else {
                    GateView::Content
                }
            } else {
                GateView::Login {
                    title: "Log in to continue",
                    message: "This page is available to registered members.",
                    href: crate::auth_redirect::github_auth_href(Some(redirect_to)),
                }
            }
        },
        RemoteState::Loading => GateView::Login {
            title: "Checking your session",
            message: "Verifying your access...",
            href: crate::auth_redirect::github_auth_href(Some(redirect_to)),
        },
        RemoteState::Error(_) => GateView::Login {
            title: "Unable to verify session",
            message: "Please sign in again to continue.",
            href: crate::auth_redirect::github_auth_href(Some(redirect_to)),
        },
    }
}

} // verus!
