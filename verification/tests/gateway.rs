use barforge::gateway::{
    admin_gate, caches_github_stats, GITHUB_STATS_CACHE_CONTROL, GITHUB_STATS_VARY, callback_redirect, callback_state_matches,
    export_disposition, export_email_text, export_filename, guard_after_admin_check,
    guard_after_session, is_admin_user, notification_page, session_status_response,
    star_outcome, unstar_outcome, GuardStep,
};
use barforge::model::UserRole;

#[test]
fn github_stats_path_gets_cache_headers() {
    assert!(caches_github_stats("/api/v1/github/stats"));
    assert!(!caches_github_stats("/api/v1/github/stats/extra"));
}

#[test]
fn github_stats_cache_headers_set_on_stats_route() {
    assert!(caches_github_stats("/api/v1/github/stats"));
    assert_eq!(GITHUB_STATS_CACHE_CONTROL, "private, max-age=60");
    assert_eq!(GITHUB_STATS_VARY, "cookie");
}

#[test]
fn github_stats_cache_headers_skip_other_routes() {
    assert!(!caches_github_stats("/api/v1/featured"));
}

#[test]
fn guard_lets_public_paths_through() {
    assert_eq!(guard_after_session("/modules", None, false), GuardStep::Proceed);
}

#[test]
fn guard_sends_signed_out_visitors_to_login() {
    assert_eq!(
        guard_after_session("/settings/profile", Some("/settings/profile?tab=2"), false),
        GuardStep::RedirectToLogin("/login?redirect_to=/settings/profile%3Ftab%3D2".to_string())
    );
    assert_eq!(
        guard_after_session("/dashboard", None, false),
        GuardStep::RedirectToLogin("/login?redirect_to=/dashboard".to_string())
    );
}

#[test]
fn guard_checks_admins_only_on_admin_paths() {
    assert_eq!(guard_after_session("/admin", None, true), GuardStep::CheckAdmin);
    assert_eq!(guard_after_session("/dashboard", None, true), GuardStep::Proceed);
    assert_eq!(guard_after_admin_check(false), GuardStep::Forbidden);
    assert_eq!(guard_after_admin_check(true), GuardStep::Proceed);
}

#[test]
fn admin_roles_and_configuration_grant_admin() {
    assert!(is_admin_user(true, None));
    assert!(is_admin_user(false, Some(UserRole::Moderator)));
    assert!(is_admin_user(false, Some(UserRole::Admin)));
    assert!(!is_admin_user(false, Some(UserRole::User)));
    assert!(!is_admin_user(false, None));
}

#[test]
fn callback_checks_state_and_redirects_safely() {
    assert!(callback_state_matches(Some("abc"), "abc"));
    assert!(!callback_state_matches(Some("abc"), "abd"));
    assert!(!callback_state_matches(None, "abc"));
    assert_eq!(callback_redirect(Some("/stars")), "/stars");
    assert_eq!(callback_redirect(Some("https://evil.example")), "/");
    assert_eq!(callback_redirect(None), "/");
}

#[test]
fn session_status_reports_signed_in_users() {
    let r = session_status_response(
        Some(("octo".to_string(), Some("octo@example.com".to_string()))),
        false,
        Some(UserRole::Moderator),
    );
    assert!(r.authenticated);
    assert!(r.is_admin);
    assert_eq!(r.user.as_ref().map(|u| u.login.as_str()), Some("octo"));
    let guest = session_status_response(None, true, Some(UserRole::Admin));
    assert!(!guest.authenticated && !guest.is_admin && guest.user.is_none());
}

#[test]
fn star_outcomes_follow_registry_status() {
    let missing = star_outcome(404);
    assert!(!missing.success && !missing.starred);
    assert_eq!(missing.error.as_deref(), Some("Module not found"));
    assert_eq!(star_outcome(500).error.as_deref(), Some("Failed to star module"));
    let ok = star_outcome(201);
    assert!(ok.success && ok.starred && ok.error.is_none());
    let gone = unstar_outcome(404);
    assert!(gone.success && !gone.starred);
    let failed = unstar_outcome(502);
    assert!(!failed.success && failed.starred);
    assert_eq!(failed.error.as_deref(), Some("Failed to unstar module"));
}

#[test]
fn export_names_use_the_date_part() {
    assert_eq!(
        export_filename("2025-12-29T10:11:12Z"),
        "barforge-export-2025-12-29.json"
    );
    assert_eq!(export_filename("undated"), "barforge-export-undated.json");
    assert_eq!(
        export_disposition("barforge-export-2025-12-29.json"),
        "attachment; filename=\"barforge-export-2025-12-29.json\""
    );
    assert_eq!(
        export_email_text("2025-12-29T10:11:12Z"),
        "Your Barforge data export was generated at 2025-12-29T10:11:12Z."
    );
}

#[test]
fn notification_page_defaults() {
    assert_eq!(notification_page(None, None), (20, 0));
    assert_eq!(notification_page(Some(5), Some(10)), (5, 10));
}

#[test]
fn admin_gate_requires_token_login_and_admin() {
    let admins = vec!["octo".to_string()];
    assert_eq!(admin_gate(false, Some("octo"), &admins), Err(401));
    assert_eq!(admin_gate(true, None, &admins), Err(401));
    assert_eq!(admin_gate(true, Some("other"), &admins), Err(403));
    assert_eq!(admin_gate(true, Some("octo"), &admins), Ok(()));
}
