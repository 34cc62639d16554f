use barforge::model::RegistryModule;
use barforge::sample_data::sample_modules;
use barforge::stars::{
    starred_modules,
    auth_follow_up, local_refresh, should_clear_cached_modules, sync_due, toggle_follow_up,
    AuthFollowUp, LocalRefresh, StarredSet, ToggleFollowUp, SYNC_INTERVAL_MS,
};

#[test]
fn skips_clearing_cache_when_starred_and_cache_are_empty() {
    assert!(!should_clear_cached_modules(true, true));
}

#[test]
fn clears_cache_when_starred_is_empty_but_cache_has_entries() {
    assert!(should_clear_cached_modules(true, false));
}

#[test]
fn skips_clearing_cache_when_starred_has_entries() {
    assert!(!should_clear_cached_modules(false, false));
}

fn sorted(mut ids: Vec<String>) -> Vec<String> {
    ids.sort();
    ids
}

#[test]
fn toggle_flips_and_reports_previous_state() {
    let mut stars = StarredSet::new();
    assert!(stars.is_empty());
    assert!(!stars.toggle("alpha@barforge"));
    assert!(stars.contains("alpha@barforge"));
    assert!(stars.toggle("alpha@barforge"));
    assert!(!stars.contains("alpha@barforge"));
    assert!(stars.is_empty());
}

#[test]
fn restoring_previous_state_undoes_toggle() {
    let mut stars = StarredSet::from_ids(&vec!["alpha@barforge".to_string()]);
    let was_starred = stars.toggle("alpha@barforge");
    stars.update_starred("alpha@barforge", was_starred);
    assert!(stars.contains("alpha@barforge"));
}

#[test]
fn from_ids_keeps_each_identifier_once() {
    let stars = StarredSet::from_ids(&vec![
        "a@x".to_string(),
        "b@x".to_string(),
        "a@x".to_string(),
    ]);
    assert_eq!(sorted(stars.ids()), vec!["a@x".to_string(), "b@x".to_string()]);
}

#[test]
fn insert_and_remove_are_idempotent() {
    let mut stars = StarredSet::new();
    stars.insert("a@x");
    stars.insert("a@x");
    assert_eq!(stars.ids(), vec!["a@x".to_string()]);
    stars.remove("a@x");
    stars.remove("a@x");
    assert!(stars.is_empty());
}

#[test]
fn merge_server_unions_and_reports_local_only() {
    let mut stars = StarredSet::from_ids(&vec!["local@x".to_string(), "both@x".to_string()]);
    let local_only = stars.merge_server(&vec!["both@x".to_string(), "server@x".to_string()]);
    assert_eq!(local_only, vec!["local@x".to_string()]);
    assert_eq!(
        sorted(stars.ids()),
        vec!["both@x".to_string(), "local@x".to_string(), "server@x".to_string()]
    );
}

#[test]
fn signing_in_syncs_and_signing_out_refreshes() {
    assert_eq!(auth_follow_up(false, false), AuthFollowUp::Nothing);
    assert_eq!(auth_follow_up(true, true), AuthFollowUp::Nothing);
    assert_eq!(auth_follow_up(false, true), AuthFollowUp::SyncWithServer);
    assert_eq!(auth_follow_up(true, false), AuthFollowUp::RefreshLocal);
}

#[test]
fn toggles_reach_the_server_only_when_signed_in() {
    assert_eq!(toggle_follow_up(false, true), ToggleFollowUp::RefreshLocal);
    assert_eq!(toggle_follow_up(true, false), ToggleFollowUp::StarOnServer);
    assert_eq!(toggle_follow_up(true, true), ToggleFollowUp::UnstarOnServer);
}

#[test]
fn syncs_are_spaced_by_the_interval() {
    assert_eq!(SYNC_INTERVAL_MS, 30_000);
    assert!(sync_due(false, None));
    assert!(!sync_due(true, None));
    assert!(!sync_due(false, Some(29_999)));
    assert!(sync_due(false, Some(30_000)));
}

#[test]
fn local_refresh_fetches_clears_or_skips() {
    assert_eq!(local_refresh(true, false, false), LocalRefresh::Skip);
    assert_eq!(local_refresh(false, false, true), LocalRefresh::Fetch);
    assert_eq!(local_refresh(false, true, false), LocalRefresh::ClearCache);
    assert_eq!(local_refresh(false, true, true), LocalRefresh::Skip);
}

#[test]
fn stars_page_lists_cached_records_of_starred_modules_in_order() {
    let cached: Vec<RegistryModule> = sample_modules();
    let starred = StarredSet::from_ids(&vec![
        "cpu-monitor@barforge".to_string(),
        "weather-wttr@barforge".to_string(),
        "missing@nowhere".to_string(),
    ]);
    let listed = starred_modules(&cached, &starred);
    let uuids: Vec<&str> = listed.iter().map(|m| m.uuid.as_str()).collect();
    assert_eq!(uuids, vec!["weather-wttr@barforge", "cpu-monitor@barforge"]);
    assert_eq!(listed[1], cached[2]);
    assert!(starred_modules(&cached, &StarredSet::new()).is_empty());
}
