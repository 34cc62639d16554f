use barforge::model::{ModuleCategory, RegistryModule, Screenshot};
use barforge::pages::{
    build_screenshot_urls, format_number, next_tab_index, normalize_username, parse_category,
    parse_sort, parse_view, recommended_modules, screenshot_filename, Key, ModuleSort,
    ModuleViewMode,
};
use barforge::recently_viewed::{add_recent, RecentModule, MAX_RECENT};
use barforge::pages::{
    default_install_tab, install_tab, active_filter_count, collapsed_badge_title, copy_shortcut_applies, install_command,
    install_methods, error_page_text, result_pages,
    search_result_count, show_recently_viewed, DEFAULT_SORT, RESULTS_PER_PAGE,
};

fn module(uuid: &str, category: ModuleCategory) -> RegistryModule {
    RegistryModule {
        uuid: uuid.to_string(),
        name: "Module".to_string(),
        description: "Description".to_string(),
        author: "Author".to_string(),
        category,
        icon: None,
        screenshot: None,
        repo_url: "https://example.com".to_string(),
        downloads: 0,
        version: None,
        last_updated: None,
        rating: None,
        verified_author: false,
        tags: Vec::new(),
        checksum: None,
        license: None,
    }
}

fn recent_module(uuid: &str, category: ModuleCategory) -> RecentModule {
    RecentModule {
        uuid: uuid.to_string(),
        name: "Module".to_string(),
        author: "Author".to_string(),
        description: "Description".to_string(),
        category,
        downloads: 0,
        verified_author: false,
        version: None,
        viewed_at: 0,
    }
}

#[test]
fn recommended_modules_empty_without_recently_viewed() {
    let recommended = recommended_modules(&[], &[], &[]);

    assert!(recommended.is_empty());
}

#[test]
fn recommended_modules_filters_by_category_and_excludes_viewed() {
    let recent = vec![recent_module("alpha@barforge", ModuleCategory::System)];
    let popular = vec![
        module("alpha@barforge", ModuleCategory::System),
        module("beta@barforge", ModuleCategory::System),
    ];
    let recent_list = vec![
        module("beta@barforge", ModuleCategory::System),
        module("gamma@barforge", ModuleCategory::Weather),
    ];

    let recommended = recommended_modules(&recent, &popular, &recent_list);
    let uuids = recommended
        .iter()
        .map(|module| module.uuid.as_str())
        .collect::<Vec<_>>();

    assert_eq!(uuids, vec!["beta@barforge"]);
}

#[test]
fn recommended_modules_stop_at_six_and_keep_first_occurrence() {
    let recent = vec![recent_module("seen@barforge", ModuleCategory::Audio)];
    let popular: Vec<RegistryModule> = (0..5)
        .map(|i| module(&format!("p{i}@barforge"), ModuleCategory::Audio))
        .collect();
    let mut recent_list = vec![module("p0@barforge", ModuleCategory::Audio)];
    recent_list.push(module("seen@barforge", ModuleCategory::Audio));
    recent_list.push(module("r0@barforge", ModuleCategory::Audio));
    recent_list.push(module("r1@barforge", ModuleCategory::Audio));

    let recommended = recommended_modules(&recent, &popular, &recent_list);
    let uuids = recommended
        .iter()
        .map(|module| module.uuid.as_str())
        .collect::<Vec<_>>();

    assert_eq!(
        uuids,
        vec![
            "p0@barforge",
            "p1@barforge",
            "p2@barforge",
            "p3@barforge",
            "p4@barforge",
            "r0@barforge"
        ]
    );
}

#[test]
fn next_tab_index_wraps_and_supports_home_end() {
    assert_eq!(next_tab_index(0, 3, &Key::ArrowRight), Some(1));
    assert_eq!(next_tab_index(2, 3, &Key::ArrowRight), Some(0));
    assert_eq!(next_tab_index(0, 3, &Key::ArrowLeft), Some(2));
    assert_eq!(next_tab_index(1, 3, &Key::Home), Some(0));
    assert_eq!(next_tab_index(1, 3, &Key::End), Some(2));
    assert_eq!(next_tab_index(1, 3, &Key::Enter), None);
    assert_eq!(next_tab_index(0, 0, &Key::ArrowRight), None);
}

#[test]
fn next_tab_index_rejects_out_of_range_selection() {
    assert_eq!(next_tab_index(3, 3, &Key::Home), None);
    assert_eq!(next_tab_index(2, 3, &Key::ArrowLeft), Some(1));
    assert_eq!(next_tab_index(0, 1, &Key::ArrowLeft), Some(0));
}

#[test]
fn format_number_groups_by_thousands() {
    assert_eq!(format_number(0), "0");
    assert_eq!(format_number(999), "999");
    assert_eq!(format_number(1000), "1,000");
    assert_eq!(format_number(1234567), "1,234,567");
    assert_eq!(format_number(-1234), "-1,234");
    assert_eq!(format_number(i64::MAX), "9,223,372,036,854,775,807");
}

#[test]
fn parse_sort_reads_known_values() {
    assert_eq!(parse_sort(Some("downloads".to_string())), ModuleSort::Downloads);
    assert_eq!(parse_sort(Some("trending".to_string())), ModuleSort::Trending);
    assert_eq!(parse_sort(Some("recent".to_string())), ModuleSort::Recent);
    assert_eq!(parse_sort(Some("alpha".to_string())), ModuleSort::Alphabetical);
    assert_eq!(parse_sort(Some("other".to_string())), ModuleSort::Popular);
    assert_eq!(parse_sort(None), ModuleSort::Popular);
}

#[test]
fn parse_view_defaults_to_grid() {
    assert_eq!(parse_view(Some("list".to_string())), ModuleViewMode::List);
    assert_eq!(parse_view(Some("grid".to_string())), ModuleViewMode::Grid);
    assert_eq!(parse_view(None), ModuleViewMode::Grid);
}

#[test]
fn parse_category_reads_each_name() {
    assert_eq!(parse_category(Some("system".to_string())), Some(ModuleCategory::System));
    assert_eq!(parse_category(Some("weather".to_string())), Some(ModuleCategory::Weather));
    assert_eq!(parse_category(Some("custom".to_string())), Some(ModuleCategory::Custom));
    assert_eq!(parse_category(Some("System".to_string())), None);
    assert_eq!(parse_category(None), None);
}

#[test]
fn normalize_username_lowercases_and_dashes() {
    assert_eq!(normalize_username(Some("Alice_Smith-1")), "alice-smith-1");
    assert_eq!(normalize_username(Some("Zoë")), "zo-");
    assert_eq!(normalize_username(None), "");
}

#[test]
fn screenshot_filename_takes_last_segment() {
    assert_eq!(screenshot_filename("screenshots/weather/wttr.png"), "wttr.png");
    assert_eq!(screenshot_filename("plain.png"), "plain.png");
    assert_eq!(screenshot_filename("dir/"), "");
}

#[test]
fn build_screenshot_urls_joins_base_uuid_and_filename() {
    let shot = Screenshot {
        id: 1,
        r2_key: "screenshots/weather-wttr@barforge/shot-1.png".to_string(),
        alt_text: None,
        position: 1,
        created_at: "2025-12-12T12:00:00Z".to_string(),
    };
    let urls = build_screenshot_urls("https://api.barforge.dev/", "weather-wttr@barforge", &[shot]);
    assert_eq!(
        urls,
        vec!["https://api.barforge.dev/screenshots/weather-wttr@barforge/shot-1.png".to_string()]
    );
}

#[test]
fn error_page_text_distinguishes_not_found() {
    assert_eq!(error_page_text(404).0, "Page not found");
    assert_eq!(error_page_text(500), ("Something went wrong", "Please try again or return later."));
}

#[test]
fn search_counts_matches_in_name_description_or_author_within_category() {
    let mut clock = module("clock-time@barforge", ModuleCategory::Time);
    clock.name = "Clock".to_string();
    clock.description = "Minimal CLOCK module".to_string();
    clock.author = "Barforge".to_string();
    let mut cpu = module("cpu@ops", ModuleCategory::System);
    cpu.name = "CPU Monitor".to_string();
    cpu.description = "Real-time usage".to_string();
    cpu.author = "OpsLab".to_string();
    let modules = vec![clock, cpu];
    assert_eq!(search_result_count(&modules, "", None), 2);
    assert_eq!(search_result_count(&modules, "  clock ", None), 1);
    assert_eq!(search_result_count(&modules, "OPS", None), 1);
    assert_eq!(search_result_count(&modules, "o", Some(ModuleCategory::System)), 1);
    assert_eq!(search_result_count(&modules, "", Some(ModuleCategory::Weather)), 0);
    assert_eq!(search_result_count(&modules, "zzz", None), 0);
}

#[test]
fn result_pages_round_up() {
    assert_eq!(RESULTS_PER_PAGE, 12);
    assert_eq!(result_pages(0), 0);
    assert_eq!(result_pages(1), 1);
    assert_eq!(result_pages(12), 1);
    assert_eq!(result_pages(13), 2);
}

#[test]
fn active_filters_count_text_category_and_non_default_sort() {
    assert_eq!(active_filter_count(None, None, None), 0);
    assert_eq!(active_filter_count(Some(""), Some(""), Some(DEFAULT_SORT)), 0);
    assert_eq!(active_filter_count(Some("clock"), None, None), 1);
    assert_eq!(active_filter_count(Some("clock"), Some("time"), Some("recent")), 3);
    assert!(show_recently_viewed(2, 0));
    assert!(!show_recently_viewed(2, 1));
    assert!(!show_recently_viewed(0, 0));
    assert_eq!(collapsed_badge_title(1), "Expand to see 1 active filter");
    assert_eq!(collapsed_badge_title(3), "Expand to see 3 active filters");
}

#[test]
fn install_tabs_and_copied_commands() {
    let methods = install_methods();
    let ids: Vec<&str> = methods.iter().map(|m| m.id).collect();
    assert_eq!(ids, vec!["shell", "aur", "source"]);
    assert_eq!(install_command(1), "yay -S barforge");
    assert_eq!(install_command(0), "curl -sSL https://barforge.dev/install | sh");
    assert_eq!(install_command(7), install_command(0));
    assert_eq!(install_command(2), methods[2].command);
}

#[test]
fn copy_shortcut_needs_ctrl_c_over_the_section_without_selection() {
    assert!(copy_shortcut_applies(true, false, true, "c", Some("DIV"), true));
    assert!(copy_shortcut_applies(true, false, true, "C", None, true));
    assert!(!copy_shortcut_applies(false, false, true, "c", None, true));
    assert!(!copy_shortcut_applies(true, true, true, "c", None, true));
    assert!(!copy_shortcut_applies(true, false, false, "c", None, true));
    assert!(!copy_shortcut_applies(true, false, true, "v", None, true));
    assert!(!copy_shortcut_applies(true, false, true, "c", Some("INPUT"), true));
    assert!(!copy_shortcut_applies(true, false, true, "c", Some("TEXTAREA"), true));
    assert!(!copy_shortcut_applies(true, false, true, "c", None, false));
}

#[test]
fn install_tabs_start_on_aur_with_linked_ids() {
    let selected = default_install_tab();
    assert_eq!(selected, 1);
    assert_eq!(install_methods()[selected].id, "aur");
    let tab = install_tab(1, selected, "aur");
    assert_eq!(tab.tab_id, "install-tab-1");
    assert_eq!(tab.panel_id, "install-panel-1");
    assert_eq!(tab.key, "install-aur");
    assert!(tab.selected);
    assert_eq!(tab.tab_index, "0");
    let other = install_tab(0, selected, "shell");
    assert!(!other.selected);
    assert_eq!(other.tab_index, "-1");
    assert_eq!(other.panel_id, "install-panel-0");
}

#[test]
fn recently_viewed_puts_the_module_first_once_and_keeps_ten() {
    let mut items: Vec<RecentModule> = Vec::new();
    for i in 0..12 {
        items = add_recent(&items, recent_module(&format!("m{i}@barforge"), ModuleCategory::Time));
    }
    assert_eq!(items.len(), MAX_RECENT);
    assert_eq!(items[0].uuid, "m11@barforge");
    items = add_recent(&items, recent_module("m5@barforge", ModuleCategory::Time));
    assert_eq!(items.len(), MAX_RECENT);
    assert_eq!(items[0].uuid, "m5@barforge");
    let mut uuids: Vec<&str> = items.iter().map(|m| m.uuid.as_str()).collect();
    uuids.sort();
    uuids.dedup();
    assert_eq!(uuids.len(), MAX_RECENT);
    let unchanged = add_recent(&items, recent_module("not a uuid", ModuleCategory::Time));
    assert_eq!(unchanged, items);
}
