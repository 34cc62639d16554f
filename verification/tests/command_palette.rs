use barforge::command_palette::{
    all_items, filter_palette, match_score, palette_items, palette_score, score_is_defined,
    PaletteIcon, PaletteItemKind, PaletteMode, PaletteState,
};
use barforge::command_palette::{palette_key_command, PaletteCommand, PaletteKey};
use barforge::command_palette::{next_mode, opens_palette, palette_mode_label, palette_target, palette_type_label, PaletteTarget,};

fn ids(items: &[barforge::command_palette::PaletteItem]) -> Vec<&'static str> {
    items.iter().map(|item| item.id).collect()
}

#[test]
fn palette_items_for_guests_hide_signed_in_pages() {
    let items = palette_items(false, false);
    assert_eq!(
        ids(&items),
        vec!["home", "get-started", "docs", "login", "copy-url", "refresh"]
    );
}

#[test]
fn palette_items_for_members_hide_login_and_admin() {
    let items = palette_items(true, false);
    assert_eq!(
        ids(&items),
        vec!["home", "get-started", "docs", "dashboard", "copy-url", "refresh"]
    );
}

#[test]
fn palette_items_for_admins_include_admin_panel() {
    let items = palette_items(true, true);
    assert_eq!(
        ids(&items),
        vec!["home", "get-started", "docs", "dashboard", "admin", "copy-url", "refresh"]
    );
}

#[test]
fn match_score_prefers_whole_matches_by_position() {
    assert_eq!(match_score("Home", "ho"), Some(1000));
    assert_eq!(match_score("Go to homepage", "HOME"), Some(994));
    assert_eq!(match_score("Home", "  "), Some(0));
}

#[test]
fn match_score_counts_gaps_of_scattered_matches() {
    assert_eq!(match_score("Home", "hm"), Some(299));
    assert_eq!(match_score("Refresh Page", "rpg"), Some(292));
    assert_eq!(match_score("Home", "xyz"), None);
    assert_eq!(match_score("Home", "mh"), None);
}

#[test]
fn match_score_is_undefined_when_search_resumes_inside_a_character() {
    assert!(!score_is_defined("é x z", "éz"));
    assert_eq!(match_score("é x z", "éz"), None);
    assert!(score_is_defined("é x z", "xz"));
    assert_eq!(palette_score("é x z", "xz"), Some(296));
}

#[test]
fn filter_palette_with_blank_query_lists_mode_entries_in_order() {
    let items = all_items();
    let results = filter_palette(&items, "", PaletteMode::Commands);
    let listed: Vec<&str> = results.iter().map(|r| r.item.id).collect();
    assert_eq!(listed, vec!["copy-url", "refresh"]);
    assert!(results.iter().all(|r| r.score == 0));
    let pages = filter_palette(&items, " ", PaletteMode::Pages);
    assert!(pages.iter().all(|r| r.item.kind == PaletteItemKind::Page));
    assert_eq!(pages.len(), 6);
}

#[test]
fn filter_palette_ranks_best_match_first() {
    let items = palette_items(true, true);
    let results = filter_palette(&items, "dash", PaletteMode::All);
    assert_eq!(results[0].item.id, "dashboard");
    assert_eq!(results[0].score, 1000);
    for pair in results.windows(2) {
        assert!(pair[0].score >= pair[1].score);
    }
    let none = filter_palette(&items, "zzzz", PaletteMode::All);
    assert!(none.is_empty());
}

#[test]
fn filter_palette_orders_by_score_across_name_and_description() {
    let items = all_items();
    let results = filter_palette(&items, "page", PaletteMode::All);
    let listed: Vec<(&str, i32)> = results.iter().map(|r| (r.item.id, r.score)).collect();
    assert_eq!(
        listed,
        vec![("copy-url", 995), ("refresh", 992), ("home", 990)]
    );
}

#[test]
fn icon_path_returns_svg_data() {
    assert!(PaletteIcon::Home.path().starts_with("M3 12l2-2"));
    assert_eq!(
        PaletteIcon::External.path(),
        "M14 3h7m0 0v7m0-7L10 14m-1 7H5a2 2 0 01-2-2V5a2 2 0 012-2h4"
    );
}

#[test]
fn palette_state_opens_closes_and_remembers_query() {
    let mut state = PaletteState::new(false, PaletteMode::All, String::new());
    assert!(!state.is_open());
    state.toggle();
    assert!(state.is_open());
    state.close();
    assert!(!state.is_open());
    state.open();
    state.set_mode(PaletteMode::Pages);
    state.set_query("dash".to_string());
    assert_eq!(state.mode(), PaletteMode::Pages);
    assert_eq!(state.query(), "dash");
}

#[test]
fn palette_keys_move_selection_and_run_results() {
    assert_eq!(
        palette_key_command(PaletteKey::Escape, 0, 3, PaletteMode::All),
        PaletteCommand::Close
    );
    assert_eq!(
        palette_key_command(PaletteKey::ArrowDown, 0, 3, PaletteMode::All),
        PaletteCommand::Select(1)
    );
    assert_eq!(
        palette_key_command(PaletteKey::ArrowDown, 2, 3, PaletteMode::All),
        PaletteCommand::Select(2)
    );
    assert_eq!(
        palette_key_command(PaletteKey::ArrowDown, 5, 0, PaletteMode::All),
        PaletteCommand::Select(0)
    );
    assert_eq!(
        palette_key_command(PaletteKey::ArrowUp, 0, 3, PaletteMode::All),
        PaletteCommand::Select(0)
    );
    assert_eq!(
        palette_key_command(PaletteKey::ArrowUp, 2, 3, PaletteMode::All),
        PaletteCommand::Select(1)
    );
    assert_eq!(
        palette_key_command(PaletteKey::Enter, 1, 3, PaletteMode::All),
        PaletteCommand::Run(1)
    );
    assert_eq!(
        palette_key_command(PaletteKey::Enter, 3, 3, PaletteMode::All),
        PaletteCommand::Nothing
    );
    assert_eq!(
        palette_key_command(PaletteKey::AltTab, 0, 0, PaletteMode::Commands),
        PaletteCommand::SetMode(PaletteMode::All)
    );
}

#[test]
fn palette_shortcut_and_targets() {
    assert!(opens_palette(true, false, true, "K"));
    assert!(opens_palette(false, true, true, "k"));
    assert!(!opens_palette(true, false, false, "k"));
    assert!(!opens_palette(false, false, true, "k"));
    let items = all_items();
    assert_eq!(palette_target(&items[0]), PaletteTarget::Internal("/"));
    assert_eq!(
        palette_target(&items[1]),
        PaletteTarget::External("https://github.com/jtaw5649/barforge-app")
    );
    assert_eq!(palette_target(&items[6]), PaletteTarget::Nowhere);
    assert_eq!(next_mode(next_mode(next_mode(PaletteMode::Pages))), PaletteMode::Pages);
    assert_eq!(palette_mode_label(PaletteMode::Commands), "Commands");
    assert_eq!(palette_type_label(PaletteItemKind::Page), "Page");
}
