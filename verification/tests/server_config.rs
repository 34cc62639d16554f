use barforge::server_config::{
    admin_logins_from_env, app_base_url, ensure_trailing_slash, is_admin_login, is_admin_path,
    is_protected_path, map_status, parse_u64, session_db_url, session_secure_cookie,
    sqlite_path_from_url,
};

#[test]
fn app_base_url_defaults_to_localhost() {
    assert_eq!(app_base_url(None), "http://127.0.0.1:8080");
}

#[test]
fn app_base_url_trims_trailing_slash() {
    assert_eq!(
        app_base_url(Some("http://localhost:8080/")),
        "http://localhost:8080"
    );
}

#[test]
fn session_db_url_defaults_to_sqlite_file() {
    assert_eq!(session_db_url(None), "sqlite://.barforge/sessions.db");
}

#[test]
fn session_db_url_uses_override() {
    assert_eq!(session_db_url(Some("sqlite::memory:")), "sqlite::memory:");
}

#[test]
fn session_secure_cookie_parses_values() {
    let release_build = false;
    assert!(session_secure_cookie(Some("true"), release_build));
    assert!(session_secure_cookie(Some("1"), release_build));
    assert!(!session_secure_cookie(Some("false"), release_build));
    assert!(!session_secure_cookie(Some("0"), release_build));
}

#[test]
fn session_secure_cookie_ignores_case_and_falls_back_to_build() {
    assert!(session_secure_cookie(Some("TRUE"), false));
    assert!(!session_secure_cookie(Some("FaLsE"), true));
    assert!(session_secure_cookie(Some("maybe"), true));
    assert!(!session_secure_cookie(None, false));
}

#[test]
fn admin_logins_from_env_defaults_empty() {
    assert!(admin_logins_from_env(None).is_empty());
}

#[test]
fn admin_logins_from_env_parses_list() {
    let admins = admin_logins_from_env(Some("octo, admin, ,root "));

    assert_eq!(admins, vec!["octo", "admin", "root"]);
}

#[test]
fn sqlite_path_from_url_ignores_memory() {
    assert!(sqlite_path_from_url("sqlite::memory:").is_none());
}

#[test]
fn sqlite_path_from_url_parses_file() {
    let path = sqlite_path_from_url("sqlite://.barforge/sessions.db").expect("path");
    assert_eq!(path, ".barforge/sessions.db");
}

#[test]
fn sqlite_path_from_url_rejects_empty_and_memory_paths() {
    assert!(sqlite_path_from_url("sqlite://").is_none());
    assert!(sqlite_path_from_url("sqlite://:memory:").is_none());
    assert!(sqlite_path_from_url("postgres://db").is_none());
}

#[test]
fn protected_and_admin_paths() {
    assert!(is_protected_path("/dashboard"));
    assert!(is_protected_path("/settings/profile"));
    assert!(is_protected_path("/admin"));
    assert!(!is_protected_path("/modules"));
    assert!(!is_protected_path("/settingsx"));
    assert!(is_admin_path("/admin"));
    assert!(is_admin_path("/admin/users"));
    assert!(!is_admin_path("/administrator"));
    // The guard protects `/admin` itself but not the paths below it.
    assert!(!is_protected_path("/admin/users"));
}

#[test]
fn ensure_trailing_slash_appends_once() {
    assert_eq!(ensure_trailing_slash("http://a"), "http://a/");
    assert_eq!(ensure_trailing_slash("http://a/"), "http://a/");
    assert_eq!(ensure_trailing_slash(""), "/");
}

#[test]
fn map_status_keeps_auth_errors_and_bodies() {
    assert_eq!(map_status(401, None), 401);
    assert_eq!(map_status(403, Some("0")), 403);
    assert_eq!(map_status(404, Some("12")), 404);
    assert_eq!(map_status(404, Some("0")), 502);
    assert_eq!(map_status(404, None), 502);
    assert_eq!(map_status(404, Some("abc")), 502);
    assert_eq!(map_status(200, Some("12")), 502);
}

#[test]
fn parse_u64_follows_from_str() {
    assert_eq!(parse_u64("42"), Some(42));
    assert_eq!(parse_u64("+7"), Some(7));
    assert_eq!(parse_u64("18446744073709551615"), Some(u64::MAX));
    assert_eq!(parse_u64("18446744073709551616"), None);
    assert_eq!(parse_u64(""), None);
    assert_eq!(parse_u64("+"), None);
    assert_eq!(parse_u64("-1"), None);
    assert_eq!(parse_u64("1a"), None);
}

#[test]
fn admin_login_lookup() {
    let admins = admin_logins_from_env(Some("octo,root"));
    assert!(is_admin_login(&admins, "octo"));
    assert!(!is_admin_login(&admins, "oct"));
}
