use barforge::routes::{is_github_username, is_module_segment, CollectionId, GithubUsername, ModuleSlug};
use barforge::theme::{theme_label, ThemeMode, ThemePreference};

#[test]
fn theme_cycles_through_three_preferences() {
    let start = ThemePreference::System;
    assert_eq!(start.cycle(), ThemePreference::Light);
    assert_eq!(start.cycle().cycle(), ThemePreference::Dark);
    assert_eq!(start.cycle().cycle().cycle(), start);
}

#[test]
fn theme_storage_round_trips() {
    for preference in [
        ThemePreference::System,
        ThemePreference::Light,
        ThemePreference::Dark,
    ] {
        assert_eq!(
            ThemePreference::from_storage(Some(preference.as_str())),
            preference
        );
    }
    assert_eq!(
        ThemePreference::from_storage(Some("purple")),
        ThemePreference::System
    );
    assert_eq!(ThemePreference::from_storage(None), ThemePreference::System);
}

#[test]
fn effective_theme_follows_system_only_when_asked() {
    assert_eq!(
        ThemePreference::System.effective(ThemeMode::Dark),
        ThemeMode::Dark
    );
    assert_eq!(
        ThemePreference::Light.effective(ThemeMode::Dark),
        ThemeMode::Light
    );
    assert_eq!(
        ThemePreference::Dark.effective(ThemeMode::Light),
        ThemeMode::Dark
    );
}

#[test]
fn module_slug_needs_name_and_owner() {
    let slug: ModuleSlug = "weather-wttr@barforge".parse().expect("valid slug");
    assert_eq!(slug.as_str(), "weather-wttr@barforge");
    assert_eq!(ModuleSlug::parse("weather"), Err("missing owner"));
    assert_eq!(ModuleSlug::parse("-weather@barforge"), Err("invalid module name"));
    assert_eq!(ModuleSlug::parse("weather@bar--forge"), Err("invalid module owner"));
    assert_eq!(ModuleSlug::parse("weather@a@b"), Err("invalid module owner"));
}

#[test]
fn github_usernames() {
    assert!(is_github_username("octo-cat"));
    assert!(!is_github_username("-octo"));
    assert!(!is_github_username("octo-"));
    assert!(!is_github_username("oc--to"));
    assert!(!is_github_username(&"a".repeat(40)));
    assert!(is_github_username(&"a".repeat(39)));
    assert!(!is_github_username(""));
    let name: GithubUsername = "octo".parse().expect("valid name");
    assert_eq!(name.as_str(), "octo");
    assert!("bad name".parse::<GithubUsername>().is_err());
}

#[test]
fn module_segments_and_collection_ids() {
    assert!(is_module_segment("clock_time.v2"));
    assert!(!is_module_segment("clock."));
    assert!(!is_module_segment(""));
    assert!(!is_module_segment("clo ck"));
    let id: CollectionId = "42".parse().expect("valid id");
    assert_eq!(id.as_str(), "42");
    assert_eq!(CollectionId::parse("4 2"), Err("invalid collection id"));
}

#[test]
fn theme_label_names_each_preference() {
    assert_eq!(theme_label(ThemePreference::System), "System");
    assert_eq!(theme_label(ThemePreference::Light), "Light");
    assert_eq!(theme_label(ThemePreference::Dark), "Dark");
}
