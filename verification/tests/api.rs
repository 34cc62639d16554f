use barforge::api::{
    admin_stats_url, admin_submission_approve_url, admin_submission_reject_url,
    admin_submissions_url, admin_user_verify_url, api_base_url, choose_api_base_url,
    collection_module_url, collection_modules_url, collection_url, collections_url,
    combine_github_stats, featured_url, index_url, landing_url, module_detail_url,
    module_related_url, module_reviews_url, module_screenshot_url, module_screenshots_url,
    module_versions_url, notification_mark_read_url, notifications_mark_all_read_url,
    notifications_preferences_url, notifications_stream_url, notifications_unread_url,
    notifications_url, star_status_url, stars_sync_url, stars_url, user_collections_url,
    user_modules_url, user_profile_url, ApiError, GithubContributor, GithubRepo, GithubStats,
    DEFAULT_API_BASE_URL,
};

#[test]
fn index_url_trims_trailing_slash() {
    let base = "https://api.barforge.dev/";
    let url = index_url(base);

    assert_eq!(url, "https://api.barforge.dev/api/v1/index");
}

#[test]
fn index_url_uses_default_base() {
    let url = index_url(DEFAULT_API_BASE_URL);

    assert_eq!(url, "https://api.barforge.dev/api/v1/index");
}

#[test]
fn api_base_url_defaults_to_constant() {
    assert_eq!(api_base_url(), DEFAULT_API_BASE_URL);
}

#[test]
fn combine_github_stats_sums_and_dedupes() {
    let web_repo = GithubRepo {
        stargazers_count: 12,
        forks_count: 4,
    };
    let app_repo = GithubRepo {
        stargazers_count: 8,
        forks_count: 3,
    };
    let web_contributors = vec![
        GithubContributor {
            login: "alice".to_string(),
        },
        GithubContributor {
            login: "bob".to_string(),
        },
    ];
    let app_contributors = vec![
        GithubContributor {
            login: "bob".to_string(),
        },
        GithubContributor {
            login: "cora".to_string(),
        },
    ];

    let stats = combine_github_stats(
        Some(web_repo),
        Some(app_repo),
        web_contributors,
        app_contributors,
    );

    assert_eq!(
        stats,
        GithubStats {
            stars: 20,
            forks: 7,
            contributors: 3,
        }
    );
}

#[test]
fn featured_url_trims_trailing_slash() {
    let base = "https://api.barforge.dev/";
    let url = featured_url(base);

    assert_eq!(url, "https://api.barforge.dev/api/v1/featured");
}

#[test]
fn module_detail_url_uses_uuid() {
    let url = module_detail_url("https://api.barforge.dev", "weather-wttr@barforge");

    assert_eq!(
        url,
        "https://api.barforge.dev/api/v1/modules/weather-wttr@barforge"
    );
}

#[test]
fn module_versions_url_uses_uuid() {
    let url = module_versions_url("https://api.barforge.dev", "weather-wttr@barforge");

    assert_eq!(
        url,
        "https://api.barforge.dev/api/v1/modules/weather-wttr@barforge/versions"
    );
}

#[test]
fn module_related_url_uses_uuid() {
    let url = module_related_url("https://api.barforge.dev", "weather-wttr@barforge");

    assert_eq!(
        url,
        "https://api.barforge.dev/api/v1/modules/weather-wttr@barforge/related"
    );
}

#[test]
fn module_reviews_url_uses_uuid() {
    let url = module_reviews_url("https://api.barforge.dev", "weather-wttr@barforge");

    assert_eq!(
        url,
        "https://api.barforge.dev/api/v1/modules/weather-wttr@barforge/reviews"
    );
}

#[test]
fn module_screenshots_url_uses_uuid() {
    let url = module_screenshots_url("https://api.barforge.dev", "weather-wttr@barforge");

    assert_eq!(
        url,
        "https://api.barforge.dev/api/v1/modules/weather-wttr@barforge/screenshots"
    );
}

#[test]
fn module_screenshot_url_uses_uuid_and_id() {
    let url = module_screenshot_url("https://api.barforge.dev", "weather-wttr@barforge", 42);

    assert_eq!(
        url,
        "https://api.barforge.dev/api/v1/modules/weather-wttr@barforge/screenshots/42"
    );
}

#[test]
fn user_profile_url_uses_username() {
    let url = user_profile_url("https://api.barforge.dev", "barforge");

    assert_eq!(url, "https://api.barforge.dev/api/v1/users/barforge");
}

#[test]
fn user_modules_url_uses_username() {
    let url = user_modules_url("https://api.barforge.dev", "barforge");

    assert_eq!(
        url,
        "https://api.barforge.dev/api/v1/users/barforge/modules"
    );
}

#[test]
fn user_collections_url_uses_username() {
    let url = user_collections_url("https://api.barforge.dev", "barforge");

    assert_eq!(
        url,
        "https://api.barforge.dev/api/v1/users/barforge/collections"
    );
}

#[test]
fn collections_url_uses_base() {
    let url = collections_url("https://api.barforge.dev");

    assert_eq!(url, "https://api.barforge.dev/api/v1/collections");
}

#[test]
fn collection_url_uses_id() {
    let url = collection_url("https://api.barforge.dev", 42);

    assert_eq!(url, "https://api.barforge.dev/api/v1/collections/42");
}

#[test]
fn collection_modules_url_uses_id() {
    let url = collection_modules_url("https://api.barforge.dev", 42);

    assert_eq!(
        url,
        "https://api.barforge.dev/api/v1/collections/42/modules"
    );
}

#[test]
fn collection_module_url_uses_id_and_uuid() {
    let url = collection_module_url("https://api.barforge.dev", 42, "weather-wttr@barforge");

    assert_eq!(
        url,
        "https://api.barforge.dev/api/v1/collections/42/modules/weather-wttr@barforge"
    );
}

#[test]
fn stars_url_uses_base() {
    let url = stars_url("https://api.barforge.dev");

    assert_eq!(url, "https://api.barforge.dev/api/v1/users/me/stars");
}

#[test]
fn stars_sync_url_uses_base() {
    let url = stars_sync_url("https://api.barforge.dev");

    assert_eq!(url, "https://api.barforge.dev/api/v1/stars/sync");
}

#[test]
fn star_status_url_uses_uuid() {
    let url = star_status_url("https://api.barforge.dev", "module-1");

    assert_eq!(url, "https://api.barforge.dev/api/v1/modules/module-1/star");
}

#[test]
fn notifications_preferences_url_uses_base() {
    let url = notifications_preferences_url("https://api.barforge.dev");

    assert_eq!(
        url,
        "https://api.barforge.dev/api/v1/notifications/preferences"
    );
}

#[test]
fn notifications_url_uses_base() {
    let url = notifications_url("https://api.barforge.dev");

    assert_eq!(url, "https://api.barforge.dev/api/v1/notifications");
}

#[test]
fn notifications_unread_url_uses_base() {
    let url = notifications_unread_url("https://api.barforge.dev");

    assert_eq!(
        url,
        "https://api.barforge.dev/api/v1/notifications/unread-count"
    );
}

#[test]
fn notifications_mark_all_read_url_uses_base() {
    let url = notifications_mark_all_read_url("https://api.barforge.dev");

    assert_eq!(
        url,
        "https://api.barforge.dev/api/v1/notifications/mark-all-read"
    );
}

#[test]
fn notifications_stream_url_uses_base() {
    let url = notifications_stream_url("https://api.barforge.dev");

    assert_eq!(url, "https://api.barforge.dev/api/v1/notifications/stream");
}

#[test]
fn notification_mark_read_url_uses_id() {
    let url = notification_mark_read_url("https://api.barforge.dev", 42);

    assert_eq!(url, "https://api.barforge.dev/api/v1/notifications/42/read");
}

#[test]
fn admin_stats_url_uses_base() {
    let url = admin_stats_url("https://api.barforge.dev");

    assert_eq!(url, "https://api.barforge.dev/api/v1/admin/stats");
}

#[test]
fn admin_submissions_url_uses_base() {
    let url = admin_submissions_url("https://api.barforge.dev");

    assert_eq!(url, "https://api.barforge.dev/api/v1/admin/submissions");
}

#[test]
fn admin_submission_approve_url_uses_id() {
    let url = admin_submission_approve_url("https://api.barforge.dev", 42);

    assert_eq!(
        url,
        "https://api.barforge.dev/api/v1/admin/submissions/42/approve"
    );
}

#[test]
fn admin_submission_reject_url_uses_id() {
    let url = admin_submission_reject_url("https://api.barforge.dev", 42);

    assert_eq!(
        url,
        "https://api.barforge.dev/api/v1/admin/submissions/42/reject"
    );
}

#[test]
fn admin_user_verify_url_uses_id() {
    let url = admin_user_verify_url("https://api.barforge.dev", 42);

    assert_eq!(url, "https://api.barforge.dev/api/v1/admin/users/42/verify");
}

#[test]
fn landing_url_strips_every_trailing_slash() {
    assert_eq!(
        landing_url("https://api.barforge.dev///"),
        "https://api.barforge.dev/api/v1/landing"
    );
}

#[test]
fn negative_ids_keep_their_sign() {
    assert_eq!(
        collection_url("https://api.barforge.dev", -7),
        "https://api.barforge.dev/api/v1/collections/-7"
    );
    assert_eq!(
        collection_url("https://api.barforge.dev", i64::MIN),
        "https://api.barforge.dev/api/v1/collections/-9223372036854775808"
    );
}

#[test]
fn choose_api_base_url_prefers_first_setting() {
    assert_eq!(
        choose_api_base_url(Some("https://a".to_string()), Some("https://b".to_string())),
        "https://a"
    );
    assert_eq!(
        choose_api_base_url(None, Some("https://b".to_string())),
        "https://b"
    );
    assert_eq!(choose_api_base_url(None, None), DEFAULT_API_BASE_URL);
}

#[test]
fn combine_github_stats_counts_missing_repos_as_zero() {
    let stats = combine_github_stats(None, None, Vec::new(), Vec::new());
    assert_eq!(
        stats,
        GithubStats {
            stars: 0,
            forks: 0,
            contributors: 0
        }
    );
}

#[test]
fn api_error_keeps_its_message() {
    let error = ApiError::new("fetch failed".to_string());
    assert_eq!(error.message(), "fetch failed");
}
