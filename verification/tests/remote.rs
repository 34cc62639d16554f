use barforge::api::{GithubStats, DEFAULT_API_BASE_URL};
use barforge::model::{
    AdminStats, Collection, CollectionOwner, FeaturedModulesResponse, RegistryIndex, Review,
    ReviewUser, Screenshot, Submission, SubmissionsResponse, UserProfile, UserRole, Versioned,
};
use barforge::remote::{
    admin_stats_from_state, admin_stats_state_from_response, admin_submissions_from_state,
    admin_submissions_state_from_response, featured_modules_from_state, github_stats_from_state,
    landing_stats_from_state, modules_from_state, resolve_module_detail_view,
    session_override_from_response, session_response_from_override, user_profile_view_from_state,
    ModuleDetailReady, ModuleDetailView, RemoteState, SessionStateOverride,
};
use barforge::sample_data::{
    sample_collection, sample_collections, sample_landing_data, sample_module_by_uuid,
    sample_modules, sample_user_profile,
};

use barforge::remote::{
    auth_flags, auth_gate_view, dashboard_username, settings_profile, user_badge, profile_display_name, profile_page,
    AuthGateKind, GateView, ProfilePage,
};

#[test]
fn modules_from_state_falls_back_to_sample_modules_when_unavailable() {
    let modules = modules_from_state(&RemoteState::Unavailable);

    assert!(modules
        .iter()
        .any(|module| module.uuid == "weather-wttr@barforge"));
}

#[test]
fn modules_from_state_prefers_registry_index() {
    let modules = sample_modules();
    let index = RegistryIndex {
        version: 1,
        modules: modules.clone(),
        categories: Vec::new(),
    };

    let resolved = modules_from_state(&RemoteState::Ready(index));

    assert_eq!(resolved, modules);
}

#[test]
fn modules_from_state_returns_empty_on_error() {
    let modules = modules_from_state(&RemoteState::Error("nope".to_string()));

    assert!(modules.is_empty());
}

#[test]
fn modules_from_state_returns_empty_on_loading() {
    let modules = modules_from_state(&RemoteState::Loading);

    assert!(modules.is_empty());
}

#[test]
fn featured_modules_from_state_prefers_payload() {
    let payload = FeaturedModulesResponse {
        version: 1,
        featured: vec![sample_modules()[0].clone()],
        popular: vec![sample_modules()[1].clone()],
        recent: vec![sample_modules()[2].clone()],
    };
    let fallback = sample_modules();

    let resolved = featured_modules_from_state(&RemoteState::Ready(payload.clone()), &fallback);

    assert_eq!(resolved, payload);
}

#[test]
fn featured_modules_from_state_falls_back_on_error() {
    let fallback = sample_modules();

    let resolved = featured_modules_from_state(&RemoteState::Error("nope".to_string()), &fallback);

    assert_eq!(resolved.featured, fallback);
    assert_eq!(resolved.popular, fallback);
    assert_eq!(resolved.recent, fallback);
}

#[test]
fn github_stats_from_state_uses_ready_stats() {
    let state = RemoteState::Ready(GithubStats {
        stars: 42,
        forks: 7,
        contributors: 5,
    });

    let stats = github_stats_from_state(&state);

    assert_eq!(stats.stars, 42);
    assert_eq!(stats.forks, 7);
    assert_eq!(stats.contributors, 5);
}

#[test]
fn github_stats_from_state_falls_back_when_unavailable() {
    let state = RemoteState::Unavailable;

    let stats = github_stats_from_state(&state);

    assert_eq!(stats.stars, 1280);
    assert_eq!(stats.forks, 96);
    assert_eq!(stats.contributors, 18);
}

#[test]
fn landing_stats_from_state_uses_ready_stats() {
    let state = RemoteState::Ready(sample_landing_data());

    let stats = landing_stats_from_state(&state);

    assert_eq!(stats.total_modules, 128);
    assert_eq!(stats.total_downloads, 24800);
    assert_eq!(stats.total_authors, 42);
}

#[test]
fn landing_stats_from_state_uses_sample_when_unavailable() {
    let state = RemoteState::Unavailable;

    let stats = landing_stats_from_state(&state);
    let sample = sample_landing_data();

    assert_eq!(stats, sample.stats);
}

#[test]
fn landing_stats_from_state_falls_back_when_error() {
    let state = RemoteState::Error("no landing".to_string());

    let stats = landing_stats_from_state(&state);

    assert_eq!(stats.total_modules, 0);
    assert_eq!(stats.total_downloads, 0);
    assert_eq!(stats.total_authors, 0);
}

fn sample_admin_stats() -> AdminStats {
    AdminStats {
        total_modules: 128,
        total_users: 42_000,
        total_downloads: 9001,
        pending_submissions: 1,
    }
}

fn sample_submission(id: i64) -> Submission {
    Submission {
        id,
        submitter_id: 7,
        uuid: format!("submission-{id}"),
        name: "Weather".to_string(),
        description: "Forecasts".to_string(),
        category: "system".to_string(),
        version: "1.0.0".to_string(),
        repo_url: "https://example.com/repo".to_string(),
        status: "pending".to_string(),
        rejection_reason: None,
        submitted_at: "2024-01-01T00:00:00Z".to_string(),
        reviewed_at: None,
        reviewed_by: None,
        submitter_username: "octo".to_string(),
    }
}

#[test]
fn admin_stats_state_from_response_requires_admin() {
    let stats = Versioned {
        version: 1,
        payload: sample_admin_stats(),
    };

    let state = admin_stats_state_from_response(Some(Ok(Some(stats))), false);

    assert_eq!(state, RemoteState::Unavailable);
}

#[test]
fn admin_stats_state_from_response_uses_payload() {
    let stats = Versioned {
        version: 1,
        payload: sample_admin_stats(),
    };

    let state = admin_stats_state_from_response(Some(Ok(Some(stats.clone()))), true);

    assert_eq!(state, RemoteState::Ready(stats.payload));
}

#[test]
fn admin_stats_state_from_response_surfaces_error() {
    let state = admin_stats_state_from_response(Some(Err("stats failed".to_string())), true);

    assert_eq!(state, RemoteState::Error("stats failed".to_string()));
}

#[test]
fn admin_stats_from_state_falls_back_to_zero() {
    let state = RemoteState::Unavailable;

    let stats = admin_stats_from_state(&state);

    assert_eq!(stats.total_modules, 0);
    assert_eq!(stats.total_users, 0);
    assert_eq!(stats.total_downloads, 0);
    assert_eq!(stats.pending_submissions, 0);
}

#[test]
fn admin_submissions_state_from_response_uses_payload() {
    let payload = SubmissionsResponse {
        submissions: vec![sample_submission(1)],
        total: 1,
    };
    let response = Versioned {
        version: 1,
        payload: payload.clone(),
    };

    let state = admin_submissions_state_from_response(Some(Ok(Some(response))), true);

    assert_eq!(state, RemoteState::Ready(payload));
}

#[test]
fn admin_submissions_state_from_response_handles_loading() {
    let state = admin_submissions_state_from_response(None, true);

    assert_eq!(state, RemoteState::Loading);
}

#[test]
fn admin_submissions_from_state_falls_back_to_empty() {
    let state = RemoteState::Unavailable;

    let submissions = admin_submissions_from_state(&state);

    assert!(submissions.submissions.is_empty());
    assert_eq!(submissions.total, 0);
}

#[test]
fn admin_submissions_from_state_copies_payload() {
    let payload = SubmissionsResponse {
        submissions: vec![sample_submission(3), sample_submission(4)],
        total: 2,
    };
    let submissions = admin_submissions_from_state(&RemoteState::Ready(payload.clone()));
    assert_eq!(submissions, payload);
}

#[test]
fn user_profile_view_uses_ready_payloads() {
    let profile = UserProfile {
        id: 7,
        username: "barforge".to_string(),
        display_name: Some("Barforge".to_string()),
        avatar_url: None,
        bio: None,
        website_url: None,
        github_url: None,
        twitter_url: None,
        bluesky_url: None,
        discord_url: None,
        sponsor_url: None,
        verified_author: true,
        role: UserRole::User,
        module_count: 2,
        created_at: "2025-01-01T00:00:00Z".to_string(),
    };
    let modules = sample_modules().into_iter().take(2).collect::<Vec<_>>();
    let collections = vec![Collection {
        id: 1,
        user_id: 7,
        name: "Ops Essentials".to_string(),
        description: None,
        visibility: "public".to_string(),
        module_count: 2,
        owner: CollectionOwner {
            username: "barforge".to_string(),
            display_name: None,
            avatar_url: None,
        },
        created_at: "2025-01-01T00:00:00Z".to_string(),
        updated_at: "2025-01-01T00:00:00Z".to_string(),
    }];

    let view = user_profile_view_from_state(
        "barforge",
        &RemoteState::Ready(profile.clone()),
        &RemoteState::Ready(modules.clone()),
        &RemoteState::Ready(collections.clone()),
    );

    let expected_downloads = modules.iter().map(|module| module.downloads).sum::<i64>();

    assert_eq!(view.profile, profile);
    assert_eq!(view.modules, modules);
    assert_eq!(view.collections, collections);
    assert_eq!(view.total_downloads, expected_downloads);
}

#[test]
fn user_profile_view_falls_back_when_unavailable() {
    let view = user_profile_view_from_state(
        "barforge",
        &RemoteState::Unavailable,
        &RemoteState::Unavailable,
        &RemoteState::Unavailable,
    );

    let expected_modules = sample_modules();
    let expected_profile = sample_user_profile("barforge", expected_modules.len());

    assert_eq!(view.profile, expected_profile);
    assert_eq!(view.modules, expected_modules);
    assert_eq!(view.total_downloads, 5900);
    assert_eq!(view.collections, sample_collections("barforge"));
}

#[test]
fn session_override_round_trips_through_response() {
    let signed_in = SessionStateOverride {
        authenticated: true,
        is_admin: false,
        login: Some("barforge".to_string()),
        email: None,
    };
    let response = session_response_from_override(&signed_in);
    assert!(response.authenticated);
    assert_eq!(response.user.as_ref().map(|u| u.login.as_str()), Some("barforge"));
    assert_eq!(session_override_from_response(&response), signed_in);

    let signed_out_with_login = SessionStateOverride {
        authenticated: false,
        is_admin: false,
        login: Some("ghost".to_string()),
        email: None,
    };
    let response = session_response_from_override(&signed_out_with_login);
    assert!(response.user.is_none());
    assert_ne!(session_override_from_response(&response), signed_out_with_login);
}

fn no_screenshots() -> Vec<String> {
    vec!["/assets/one.svg".to_string(), "/assets/two.svg".to_string()]
}

fn resolve(
    uuid: &str,
    module: RemoteState<barforge::model::RegistryModule>,
    screenshots: RemoteState<Vec<Screenshot>>,
    reviews: RemoteState<Vec<Review>>,
    collections: RemoteState<Vec<Collection>>,
    versions_ready: bool,
) -> ModuleDetailView {
    let versions = if versions_ready {
        RemoteState::Ready(Vec::new())
    } else {
        RemoteState::Unavailable
    };
    let related = if versions_ready {
        RemoteState::Ready(Vec::new())
    } else {
        RemoteState::Unavailable
    };
    resolve_module_detail_view(
        uuid,
        &module,
        &versions,
        &related,
        &screenshots,
        &reviews,
        &collections,
        DEFAULT_API_BASE_URL,
        &no_screenshots(),
    )
}

#[test]
fn module_detail_view_returns_loading() {
    let view = resolve(
        "weather-wttr@barforge",
        RemoteState::Loading,
        RemoteState::Unavailable,
        RemoteState::Unavailable,
        RemoteState::Unavailable,
        false,
    );

    assert_eq!(view, ModuleDetailView::Loading);
}

#[test]
fn module_detail_view_returns_not_found_for_404() {
    let view = resolve(
        "missing@barforge",
        RemoteState::Error("unexpected status: 404".to_string()),
        RemoteState::Unavailable,
        RemoteState::Unavailable,
        RemoteState::Unavailable,
        false,
    );

    assert_eq!(view, ModuleDetailView::NotFound);
}

#[test]
fn module_detail_view_reports_other_errors() {
    let view = resolve(
        "clock-time@barforge",
        RemoteState::Error("timeout".to_string()),
        RemoteState::Unavailable,
        RemoteState::Unavailable,
        RemoteState::Unavailable,
        false,
    );

    assert_eq!(
        view,
        ModuleDetailView::Error {
            title: "Module unavailable".to_string(),
            message: "timeout".to_string(),
        }
    );
}

#[test]
fn module_detail_view_unavailable_uses_sample_data() {
    let view = resolve(
        "weather-wttr@barforge",
        RemoteState::Unavailable,
        RemoteState::Unavailable,
        RemoteState::Unavailable,
        RemoteState::Unavailable,
        false,
    );

    match view {
        ModuleDetailView::Ready(ready) => {
            let ModuleDetailReady {
                module,
                versions,
                screenshots,
                reviews,
                related_modules,
                ..
            } = *ready;
            assert_eq!(module.uuid, "weather-wttr@barforge");
            assert!(!versions.is_empty());
            assert!(!screenshots.is_empty());
            assert!(reviews.is_empty());
            assert!(related_modules.iter().all(|m| m.uuid != "weather-wttr@barforge"));
            assert_eq!(related_modules.len(), 2);
        }
        _ => panic!("expected ready view"),
    }
}

#[test]
fn module_detail_view_builds_screenshot_urls() {
    let screenshot = Screenshot {
        id: 1,
        r2_key: "screenshots/weather-wttr@barforge/shot-1.png".to_string(),
        alt_text: None,
        position: 1,
        created_at: "2025-01-02T00:00:00Z".to_string(),
    };
    let view = resolve(
        "weather-wttr@barforge",
        RemoteState::Ready(sample_module_by_uuid("weather-wttr@barforge")),
        RemoteState::Ready(vec![screenshot]),
        RemoteState::Unavailable,
        RemoteState::Unavailable,
        true,
    );

    match view {
        ModuleDetailView::Ready(ready) => {
            let ModuleDetailReady { screenshots, .. } = *ready;
            let expected = format!(
                "{}/screenshots/weather-wttr@barforge/shot-1.png",
                DEFAULT_API_BASE_URL
            );
            assert_eq!(screenshots, vec![expected]);
        }
        _ => panic!("expected ready view"),
    }
}

fn sample_review(username: &str, rating: i64) -> Review {
    Review {
        id: 1,
        rating,
        title: Some("Solid module".to_string()),
        body: Some("Dependable in production.".to_string()),
        helpful_count: 2,
        user: ReviewUser {
            username: username.to_string(),
            avatar_url: None,
        },
        created_at: "2025-01-02T00:00:00Z".to_string(),
        updated_at: None,
    }
}

#[test]
fn module_detail_view_prefers_review_payload() {
    let review = sample_review("alice", 4);
    let view = resolve(
        "weather-wttr@barforge",
        RemoteState::Ready(sample_module_by_uuid("weather-wttr@barforge")),
        RemoteState::Unavailable,
        RemoteState::Ready(vec![review.clone()]),
        RemoteState::Unavailable,
        true,
    );

    match view {
        ModuleDetailView::Ready(ready) => {
            let ModuleDetailReady { reviews, .. } = *ready;
            assert_eq!(reviews, vec![review]);
        }
        _ => panic!("expected ready view"),
    }
}

#[test]
fn module_detail_view_prefers_collections_payload() {
    let collections = vec![sample_collection("1")];
    let view = resolve(
        "weather-wttr@barforge",
        RemoteState::Ready(sample_module_by_uuid("weather-wttr@barforge")),
        RemoteState::Unavailable,
        RemoteState::Unavailable,
        RemoteState::Ready(collections.clone()),
        true,
    );

    match view {
        ModuleDetailView::Ready(ready) => {
            let ModuleDetailReady {
                collections: loaded,
                ..
            } = *ready;
            assert_eq!(loaded, collections);
        }
        _ => panic!("expected ready view"),
    }
}

#[test]
fn sample_collection_reads_numeric_ids() {
    assert_eq!(sample_collection("17").id, 17);
    assert_eq!(sample_collection("17").name, "Community Picks");
    let ops = sample_collection("ops-essentials");
    assert_eq!(ops.id, 0);
    assert_eq!(ops.name, "Ops Essentials");
    assert_eq!(sample_collection("-4").id, -4);
}

#[test]
fn sample_module_by_uuid_falls_back_to_last_sample() {
    assert_eq!(sample_module_by_uuid("clock-time@barforge").name, "Clock");
    assert_eq!(sample_module_by_uuid("unknown@x").uuid, "cpu-monitor@barforge");
    assert_eq!(sample_modules()[0].rating, Some(4.1f32.to_bits()));
    assert_eq!(sample_modules()[1].rating, Some(4.8f32.to_bits()));
}

fn session(authenticated: bool, is_admin: bool) -> barforge::api::SessionResponse {
    barforge::api::SessionResponse {
        authenticated,
        is_admin,
        user: None,
    }
}

#[test]
fn auth_gate_prompts_login_when_unauthenticated() {
    let state = RemoteState::Ready(session(false, false));
    match auth_gate_view(&state, AuthGateKind::User, "/dashboard") {
        GateView::Login { title, href, .. } => {
            assert_eq!(title, "Log in to continue");
            assert!(href.contains("redirect_to=/dashboard"));
        }
        other => panic!("expected login card, got {other:?}"),
    }
}

#[test]
fn auth_gate_allows_authenticated_content() {
    let state = RemoteState::Ready(session(true, false));
    assert_eq!(
        auth_gate_view(&state, AuthGateKind::User, "/dashboard"),
        GateView::Content
    );
}

#[test]
fn admin_gate_blocks_non_admins() {
    let state = RemoteState::Ready(session(true, false));
    assert_eq!(
        auth_gate_view(&state, AuthGateKind::Admin, "/admin"),
        GateView::AdminRequired
    );
    let admin = RemoteState::Ready(session(true, true));
    assert_eq!(auth_gate_view(&admin, AuthGateKind::Admin, "/admin"), GateView::Content);
}

#[test]
fn auth_gate_reports_session_checks_and_failures() {
    match auth_gate_view(&RemoteState::Loading, AuthGateKind::User, "https://evil.example") {
        GateView::Login { title, message, href } => {
            assert_eq!(title, "Checking your session");
            assert_eq!(message, "Verifying your access...");
            assert_eq!(href, "/auth/github");
        }
        other => panic!("expected login card, got {other:?}"),
    }
    assert_eq!(
        auth_gate_view(&RemoteState::Unavailable, AuthGateKind::Admin, "/admin"),
        GateView::Content
    );
    assert_eq!(auth_flags(&RemoteState::Ready(session(true, true))), (true, true));
    assert_eq!(auth_flags(&RemoteState::Error("x".to_string())), (false, false));
}

#[test]
fn dashboard_is_about_the_signed_in_user_or_barforge() {
    let mut signed_in = session(true, false);
    signed_in.user = Some(barforge::api::SessionUser {
        login: "octo".to_string(),
        email: None,
    });
    assert_eq!(dashboard_username(&RemoteState::Ready(signed_in)), "octo");
    let mut anonymous = session(false, false);
    anonymous.user = None;
    assert_eq!(dashboard_username(&RemoteState::Ready(anonymous)), "barforge");
    assert_eq!(dashboard_username(&RemoteState::Loading), "barforge");
}

#[test]
fn profile_page_views_and_display_name() {
    let loading: RemoteState<UserProfile> = RemoteState::Loading;
    assert_eq!(profile_page(&loading), ProfilePage::Loading);
    let missing: RemoteState<UserProfile> = RemoteState::Error("HTTP 404".to_string());
    assert_eq!(profile_page(&missing), ProfilePage::NotFound);
    let broken: RemoteState<UserProfile> = RemoteState::Error("HTTP 500".to_string());
    assert_eq!(profile_page(&broken), ProfilePage::Failed);
    let profile = sample_user_profile("octo", 0);
    assert_eq!(profile_page(&RemoteState::Ready(profile.clone())), ProfilePage::Show);
    let mut named = profile.clone();
    named.display_name = Some("The Octocat".to_string());
    assert_eq!(profile_display_name(&named), "The Octocat");
    let mut plain = profile;
    plain.display_name = None;
    assert_eq!(profile_display_name(&plain), "octo");
}

#[test]
fn user_badge_names_the_signed_in_user() {
    let mut signed_in = session(true, false);
    signed_in.user = Some(barforge::api::SessionUser {
        login: "octo".to_string(),
        email: None,
    });
    let badge = user_badge(&RemoteState::Ready(signed_in));
    assert_eq!(badge.login, "octo");
    assert_eq!(badge.handle, "@octo");
    assert_eq!(badge.profile_href, "/users/octo");
    assert_eq!(badge.initial, 'o');
    let badge = user_badge(&RemoteState::Loading);
    assert_eq!(badge.handle, "@user");
    assert_eq!(badge.initial, 'u');
}

#[test]
fn settings_profile_falls_back_to_the_sample_with_a_module_count() {
    let loading: RemoteState<UserProfile> = RemoteState::Loading;
    let none: RemoteState<Vec<barforge::model::RegistryModule>> = RemoteState::Unavailable;
    let p = settings_profile(&loading, &none, "octo");
    assert_eq!(p.username, "octo");
    assert_eq!(p.module_count, 3);
    let fetched = RemoteState::Ready(vec![sample_modules().remove(0)]);
    assert_eq!(settings_profile(&loading, &fetched, "octo").module_count, 1);
    let failed: RemoteState<Vec<barforge::model::RegistryModule>> =
        RemoteState::Error("x".to_string());
    assert_eq!(settings_profile(&loading, &failed, "octo").module_count, 0);
    let mine = sample_user_profile("me", 9);
    assert_eq!(settings_profile(&RemoteState::Ready(mine.clone()), &none, "octo"), mine);
}
