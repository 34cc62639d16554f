use barforge::auth_redirect::{
    encode_query_value, github_auth_href, is_safe_redirect, login_redirect_target,
    login_redirect_url, resolve_redirect_target, sanitize_redirect_target, header_login_href};

#[test]
fn encode_query_value_preserves_slashes_and_plus_encodes_spaces() {
    let encoded = encode_query_value("/dashboard with spaces");

    assert_eq!(encoded, "/dashboard+with+spaces");
}

#[test]
fn encode_query_value_percent_encodes_other_bytes() {
    assert_eq!(encode_query_value("a?b=c&d"), "a%3Fb%3Dc%26d");
    assert_eq!(encode_query_value("é"), "%C3%A9");
    assert_eq!(encode_query_value("A-z_0.9~"), "A-z_0.9~");
}

#[test]
fn login_redirect_url_encodes_target() {
    assert_eq!(
        login_redirect_url("/settings/profile?tab=1"),
        "/login?redirect_to=/settings/profile%3Ftab%3D1"
    );
}

#[test]
fn safe_redirects_stay_on_site() {
    assert!(is_safe_redirect("/dashboard"));
    assert!(!is_safe_redirect("//evil.com"));
    assert!(!is_safe_redirect("https://evil.com"));
    assert!(!is_safe_redirect("/redirect?to=https://evil.com"));
    assert!(!is_safe_redirect(""));
    assert_eq!(sanitize_redirect_target(Some("/a")), Some("/a"));
    assert_eq!(sanitize_redirect_target(Some("a")), None);
    assert_eq!(sanitize_redirect_target(None), None);
}

#[test]
fn resolve_redirect_target_falls_back_to_root() {
    assert_eq!(resolve_redirect_target(Some("/stars")), "/stars");
    assert_eq!(resolve_redirect_target(Some("//x")), "/");
    assert_eq!(resolve_redirect_target(None), "/");
}

#[test]
fn github_auth_href_carries_safe_target() {
    assert_eq!(
        github_auth_href(Some("/dashboard")),
        "/auth/github?redirect_to=/dashboard"
    );
    assert_eq!(github_auth_href(Some("https://evil.com")), "/auth/github");
    assert_eq!(github_auth_href(None), "/auth/github");
}

#[test]
fn login_redirect_target_requires_authentication() {
    assert_eq!(login_redirect_target(false, Some("/dashboard")), None);
}

#[test]
fn login_redirect_target_prefers_safe_target() {
    assert_eq!(
        login_redirect_target(true, Some("/dashboard")),
        Some("/dashboard".to_string())
    );
}

#[test]
fn login_redirect_target_falls_back_to_root_on_unsafe_target() {
    assert_eq!(
        login_redirect_target(true, Some("https://evil.com")),
        Some("/".to_string())
    );
}

#[test]
fn header_login_link_returns_to_the_current_page() {
    assert_eq!(header_login_href("/"), "/login");
    assert_eq!(header_login_href("/modules"), "/login?redirect_to=/modules");
    assert_eq!(header_login_href("https://evil.example"), "/login");
    assert_eq!(header_login_href("//evil.example"), "/login");
}

#[test]
fn query_values_encode_reserved_bytes() {
    assert_eq!(encode_query_value("a+b&c"), "a%2Bb%26c");
    assert_eq!(encode_query_value("a b/é"), "a+b/%C3%A9");
}
