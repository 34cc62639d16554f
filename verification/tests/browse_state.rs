use barforge::desktop::{BrowseState, Moment, ViewMode};
use barforge::model::{rating_key, ModuleCategory, RegistryModule};
use barforge::stable_sort::{SortField, SortOrder};

fn make_module(
    name: &str,
    category: ModuleCategory,
    downloads: i64,
    rating: Option<f32>,
    last_updated: Option<&str>,
    verified: bool,
    tags: &[&str],
) -> RegistryModule {
    RegistryModule {
        uuid: format!("{name}-uuid"),
        name: name.to_string(),
        description: format!("Module {name} description"),
        author: "test-author".to_string(),
        category,
        icon: None,
        screenshot: None,
        repo_url: "https://example.test".to_string(),
        downloads,
        version: None,
        last_updated: last_updated.map(str::to_string),
        rating: rating.map(f32::to_bits),
        verified_author: verified,
        tags: tags.iter().map(|tag| tag.to_string()).collect(),
        checksum: None,
        license: None,
    }
}

fn names(state: &BrowseState, modules: &[RegistryModule]) -> Vec<String> {
    state
        .filtered_modules(modules)
        .iter()
        .map(|module| module.name.clone())
        .collect()
}

fn weather_and_clock() -> Vec<RegistryModule> {
    vec![
        make_module(
            "Weather",
            ModuleCategory::Weather,
            1200,
            Some(4.7),
            Some("2024-02-01T00:00:00Z"),
            true,
            &["forecast"],
        ),
        make_module(
            "Clock",
            ModuleCategory::Time,
            800,
            Some(4.2),
            Some("2024-01-01T00:00:00Z"),
            false,
            &["time"],
        ),
    ]
}

fn at(millis: u64) -> Moment {
    Moment {
        nanos: millis * 1_000_000,
    }
}

#[test]
fn filters_by_search_query_case_insensitive() {
    let modules = weather_and_clock();

    let state = BrowseState {
        search_query: "weAtHer".to_string(),
        ..BrowseState::default()
    };

    assert_eq!(names(&state, &modules), vec!["Weather"]);
}

#[test]
fn filters_by_category() {
    let modules = weather_and_clock();

    let state = BrowseState {
        selected_category: Some(ModuleCategory::Time),
        ..BrowseState::default()
    };

    assert_eq!(names(&state, &modules), vec!["Clock"]);
}

#[test]
fn filters_verified_only() {
    let modules = weather_and_clock();

    let state = BrowseState {
        verified_only: true,
        ..BrowseState::default()
    };

    assert_eq!(names(&state, &modules), vec!["Weather"]);
}

#[test]
fn sorts_by_downloads_descending() {
    let modules = vec![
        make_module(
            "Low",
            ModuleCategory::System,
            10,
            Some(3.9),
            Some("2024-01-01T00:00:00Z"),
            false,
            &[],
        ),
        make_module(
            "High",
            ModuleCategory::System,
            500,
            Some(4.9),
            Some("2024-02-01T00:00:00Z"),
            true,
            &[],
        ),
    ];

    let state = BrowseState {
        sort_field: SortField::Downloads,
        sort_order: SortOrder::Descending,
        ..BrowseState::default()
    };

    assert_eq!(names(&state, &modules), vec!["High", "Low"]);
}

#[test]
fn sorts_by_name_ascending_case_insensitive() {
    let modules = vec![
        make_module(
            "clock",
            ModuleCategory::Time,
            10,
            Some(4.1),
            Some("2024-01-01T00:00:00Z"),
            false,
            &[],
        ),
        make_module(
            "Weather",
            ModuleCategory::Weather,
            20,
            Some(4.5),
            Some("2024-02-01T00:00:00Z"),
            true,
            &[],
        ),
    ];

    let state = BrowseState {
        sort_field: SortField::Name,
        sort_order: SortOrder::Ascending,
        ..BrowseState::default()
    };

    assert_eq!(names(&state, &modules), vec!["clock", "Weather"]);
}

#[test]
fn sorts_by_rating_descending() {
    let modules = vec![
        make_module(
            "Low",
            ModuleCategory::System,
            10,
            None,
            Some("2024-01-01T00:00:00Z"),
            false,
            &[],
        ),
        make_module(
            "High",
            ModuleCategory::System,
            10,
            Some(4.8),
            Some("2024-01-02T00:00:00Z"),
            true,
            &[],
        ),
    ];

    let state = BrowseState {
        sort_field: SortField::Rating,
        sort_order: SortOrder::Descending,
        ..BrowseState::default()
    };

    assert_eq!(names(&state, &modules), vec!["High", "Low"]);
}

#[test]
fn sorts_by_recently_updated_descending() {
    let modules = vec![
        make_module(
            "Older",
            ModuleCategory::System,
            10,
            Some(4.2),
            Some("2024-01-01T00:00:00Z"),
            false,
            &[],
        ),
        make_module(
            "Newer",
            ModuleCategory::System,
            10,
            Some(4.2),
            Some("2024-02-01T00:00:00Z"),
            false,
            &[],
        ),
    ];

    let state = BrowseState {
        sort_field: SortField::RecentlyUpdated,
        sort_order: SortOrder::Descending,
        ..BrowseState::default()
    };

    assert_eq!(names(&state, &modules), vec!["Newer", "Older"]);
}

#[test]
fn toggles_sort_order() {
    assert_eq!(SortOrder::Ascending.toggle(), SortOrder::Descending);
    assert_eq!(SortOrder::Descending.toggle(), SortOrder::Ascending);
}

#[test]
fn debounced_search_applies_after_delay() {
    let start = at(1_000);
    let mut state = BrowseState::default();

    state.queue_search("clock".to_string(), start);
    state.apply_debounced_searches_at(at(1_149));

    assert_eq!(state.search_query, "");
    assert_eq!(state.pending_search.as_deref(), Some("clock"));

    state.apply_debounced_searches_at(at(1_150));

    assert_eq!(state.search_query, "clock");
    assert!(state.pending_search.is_none());
    assert!(state.search_debounce_start.is_none());
}

#[test]
fn search_display_prefers_pending_query() {
    let start = at(0);
    let mut state = BrowseState::default();

    state.search_query = "old".to_string();
    state.queue_search("new".to_string(), start);

    assert_eq!(state.search_display(), "new");
}

#[test]
fn refresh_updates_timestamp_on_success() {
    let now = at(10);
    let mut state = BrowseState::default();

    state.start_refresh();
    assert!(state.refreshing);

    state.finish_refresh(true, now);

    assert!(!state.refreshing);
    assert_eq!(state.last_refreshed, Some(now));
}

#[test]
fn refresh_failure_clears_refreshing_without_changing_timestamp() {
    let now = at(10);
    let mut state = BrowseState::default();

    state.last_refreshed = Some(now);
    state.start_refresh();
    state.finish_refresh(false, at(5_010));

    assert!(!state.refreshing);
    assert_eq!(state.last_refreshed, Some(now));
}

#[test]
fn view_mode_changes_track_persistence() {
    let mut state = BrowseState::default();

    assert_eq!(state.view_mode, ViewMode::Cards);
    assert!(!state.view_mode_dirty());

    state.set_view_mode(ViewMode::Table);

    assert_eq!(state.view_mode, ViewMode::Table);
    assert!(state.view_mode_dirty());

    state.mark_view_mode_persisted();

    assert!(!state.view_mode_dirty());
    assert_eq!(state.persisted_view_mode, ViewMode::Table);
}

#[test]
fn equal_keys_keep_list_order_in_both_directions() {
    let modules = vec![
        make_module("A", ModuleCategory::System, 5, None, None, false, &[]),
        make_module("B", ModuleCategory::System, 5, None, None, false, &[]),
        make_module("C", ModuleCategory::System, 9, None, None, false, &[]),
    ];
    let descending = BrowseState {
        sort_field: SortField::Downloads,
        sort_order: SortOrder::Descending,
        ..BrowseState::default()
    };
    assert_eq!(names(&descending, &modules), vec!["C", "A", "B"]);
    let ascending = BrowseState {
        sort_order: SortOrder::Ascending,
        ..descending
    };
    assert_eq!(names(&ascending, &modules), vec!["A", "B", "C"]);
}

#[test]
fn search_matches_tags_and_ignores_surrounding_space() {
    let modules = weather_and_clock();
    let state = BrowseState {
        search_query: "  TIME ".to_string(),
        ..BrowseState::default()
    };
    assert_eq!(names(&state, &modules), vec!["Clock"]);
    let state = BrowseState {
        search_query: "nothing-matches".to_string(),
        ..BrowseState::default()
    };
    assert!(names(&state, &modules).is_empty());
}

#[test]
fn missing_update_dates_sort_first_ascending() {
    let modules = vec![
        make_module("Dated", ModuleCategory::System, 1, None, Some("2024-01-01"), false, &[]),
        make_module("Undated", ModuleCategory::System, 1, None, None, false, &[]),
    ];
    let state = BrowseState {
        sort_field: SortField::RecentlyUpdated,
        sort_order: SortOrder::Ascending,
        ..BrowseState::default()
    };
    assert_eq!(names(&state, &modules), vec!["Undated", "Dated"]);
}

#[test]
fn browse_order_lists_positions() {
    let modules = weather_and_clock();
    let state = BrowseState {
        sort_field: SortField::Downloads,
        sort_order: SortOrder::Ascending,
        ..BrowseState::default()
    };
    assert_eq!(state.browse_order(&modules), vec![1, 0]);
}

#[test]
fn search_before_start_does_not_apply() {
    let mut state = BrowseState::default();
    state.queue_search("x".to_string(), at(500));
    state.apply_debounced_searches_at(at(100));
    assert_eq!(state.pending_search.as_deref(), Some("x"));
    assert_eq!(state.search_query, "");
}

#[test]
fn browse_shell_renders_filtered_list() {
    let modules = vec![
        make_module("Clock", ModuleCategory::Time, 0, None, None, false, &[]),
        make_module("Weather", ModuleCategory::Weather, 0, None, None, false, &[]),
    ];
    let state = BrowseState { search_query: "clock".to_string(), ..BrowseState::default() };
    let shown = names(&state, &modules);
    assert!(shown.contains(&"Clock".to_string()));
    assert!(!shown.contains(&"Weather".to_string()));
}

#[test]
fn sorts_ratings_as_numbers_including_negative_and_zero() {
    let rated = |name: &str, rating: Option<f32>| {
        make_module(name, ModuleCategory::System, 0, rating, None, false, &[])
    };
    let modules = vec![
        rated("High", Some(4.8)),
        rated("Negative", Some(-1.0)),
        rated("MoreNegative", Some(-2.5)),
        rated("NegZero", Some(-0.0)),
        rated("Unrated", None),
        rated("Zero", Some(0.0)),
    ];
    let state = BrowseState {
        sort_field: SortField::Rating,
        sort_order: SortOrder::Ascending,
        ..BrowseState::default()
    };
    assert_eq!(
        names(&state, &modules),
        vec!["MoreNegative", "Negative", "NegZero", "Unrated", "Zero", "High"]
    );
}

#[test]
fn rating_keys_follow_the_numbers() {
    let key = |v: f32| rating_key(Some(v.to_bits()));
    assert_eq!(key(-0.0), key(0.0));
    assert_eq!(rating_key(None), key(0.0));
    assert!(key(-2.5) < key(-1.0));
    assert!(key(-1.0) < key(0.0));
    assert!(key(0.0) < key(4.0));
    assert!(key(4.0) < key(4.8));
    assert!(key(f32::NEG_INFINITY) < key(-1.0e30));
    assert!(key(1.0e30) < key(f32::INFINITY));
}
