use barforge::collections::{
    remove_control,
    collection_contents, collection_page, empty_collection_text, is_collection_owner,
    module_count_label, owner_label, remove_button, without_collection_module, CollectionPage,
};
use barforge::model::{
    AdminStats, Collection, CollectionDetailResponse, CollectionModule, CollectionOwner,
    ModuleCategory, Submission, SubmissionsResponse,
};
use barforge::pages::admin_overview;
use barforge::remote::{admin_submissions_from_state, RemoteState};
use barforge::sample_data::sample_collection_modules;

fn sample_collection() -> Collection {
    Collection {
        id: 1,
        user_id: 7,
        name: "Ops Essentials".to_string(),
        description: Some("Modules for ops".to_string()),
        visibility: "public".to_string(),
        module_count: 2,
        owner: CollectionOwner {
            username: "barforge".to_string(),
            display_name: Some("Barforge".to_string()),
            avatar_url: None,
        },
        created_at: "2024-01-01T00:00:00Z".to_string(),
        updated_at: "2024-01-10T00:00:00Z".to_string(),
    }
}

fn sample_module(uuid: &str, note: Option<&str>) -> CollectionModule {
    CollectionModule {
        uuid: uuid.to_string(),
        name: "Weather".to_string(),
        author: "barforge".to_string(),
        category: ModuleCategory::Weather,
        note: note.map(|value| value.to_string()),
        position: 1,
        added_at: "2024-01-02T00:00:00Z".to_string(),
    }
}

fn sample_admin_stats() -> AdminStats {
    AdminStats {
        total_modules: 1200,
        total_users: 42_000,
        total_downloads: 9001,
        pending_submissions: 1,
    }
}

fn sample_submission() -> Submission {
    Submission {
        id: 1,
        submitter_id: 7,
        uuid: "submission-1".to_string(),
        name: "Weather".to_string(),
        description: "Forecasts".to_string(),
        category: "system".to_string(),
        version: "1.0.0".to_string(),
        repo_url: "https://example.com/repo".to_string(),
        status: "pending".to_string(),
        rejection_reason: None,
        submitted_at: "2024-01-01T00:00:00Z".to_string(),
        reviewed_at: None,
        reviewed_by: None,
        submitter_username: "octo".to_string(),
    }
}

#[test]
fn collection_detail_body_renders_empty_state_for_owner() {
    let modules: Vec<CollectionModule> = Vec::new();
    assert!(modules.is_empty());
    let (title, message) = empty_collection_text(true);
    assert!(title.contains("This collection is empty"));
    assert!(message.contains("Add modules to this collection"));
}

#[test]
fn empty_collection_tells_visitors_it_is_empty() {
    let (title, message) = empty_collection_text(false);
    assert_eq!(title, "This collection is empty");
    assert_eq!(message, "No modules have been added to this collection yet.");
}

#[test]
fn collection_detail_body_renders_remove_button_for_owner() {
    let modules = vec![sample_module("weather-wttr@barforge", Some("Pin for alerts"))];
    let (label, disabled) = remove_button(&None, modules[0].uuid.as_str());
    assert!(label.contains("Remove"));
    assert!(!disabled);
    assert!(modules[0].note.as_deref().unwrap_or_default().contains("Pin for alerts"));
}

#[test]
fn remove_button_is_busy_only_for_the_module_being_removed() {
    let removing = Some("weather-wttr@barforge".to_string());
    assert_eq!(remove_button(&removing, "weather-wttr@barforge"), ("Removing...", true));
    assert_eq!(remove_button(&removing, "clock-time@barforge"), ("Remove", false));
}

#[test]
fn collection_meta_labels() {
    let collection = sample_collection();
    assert_eq!(owner_label(&collection.owner), "Barforge");
    let plain = CollectionOwner {
        username: "octo".to_string(),
        display_name: None,
        avatar_url: None,
    };
    assert_eq!(owner_label(&plain), "octo");
    assert_eq!(module_count_label(1), "module");
    assert_eq!(module_count_label(0), "modules");
    assert_eq!(module_count_label(2), "modules");
}

#[test]
fn removing_a_module_keeps_the_others_in_order() {
    let modules = vec![
        sample_module("a@x", None),
        sample_module("b@x", Some("note")),
        sample_module("a@x", None),
        sample_module("c@x", None),
    ];
    let left = without_collection_module(&modules, "a@x");
    let uuids: Vec<&str> = left.iter().map(|m| m.uuid.as_str()).collect();
    assert_eq!(uuids, vec!["b@x", "c@x"]);
    assert_eq!(left[0].note.as_deref(), Some("note"));
    let again = without_collection_module(&left, "a@x");
    assert_eq!(again, left);
    assert_eq!(without_collection_module(&modules, "zzz"), modules);
}

#[test]
fn collection_page_views() {
    let loading: RemoteState<CollectionDetailResponse> = RemoteState::Loading;
    assert_eq!(collection_page("abc", &loading), CollectionPage::NotFound);
    assert_eq!(collection_page("42", &loading), CollectionPage::Loading);
    let missing: RemoteState<CollectionDetailResponse> =
        RemoteState::Error("request failed: 404".to_string());
    assert_eq!(collection_page("42", &missing), CollectionPage::NotFound);
    let hidden: RemoteState<CollectionDetailResponse> =
        RemoteState::Error("request failed: 403".to_string());
    assert_eq!(collection_page("42", &hidden), CollectionPage::Failed { forbidden: true });
    let broken: RemoteState<CollectionDetailResponse> =
        RemoteState::Error("request failed: 500".to_string());
    assert_eq!(collection_page("42", &broken), CollectionPage::Failed { forbidden: false });
    let off: RemoteState<CollectionDetailResponse> = RemoteState::Unavailable;
    assert_eq!(collection_page("42", &off), CollectionPage::Show);
}

#[test]
fn collection_contents_follow_the_state() {
    let ready = RemoteState::Ready(CollectionDetailResponse {
        collection: sample_collection(),
        modules: vec![sample_module("a@x", None)],
    });
    let (collection, modules) = collection_contents("1", ready);
    assert_eq!(collection, sample_collection());
    assert_eq!(modules, vec![sample_module("a@x", None)]);

    let (collection, modules) = collection_contents("7", RemoteState::Unavailable);
    assert_eq!(collection.id, 7);
    assert_eq!(collection.name, "Community Picks");
    assert_eq!(modules, sample_collection_modules());

    let (collection, modules) = collection_contents("ops-essentials", RemoteState::Loading);
    assert_eq!(collection.name, "Ops Essentials");
    assert!(modules.is_empty());
}

#[test]
fn sample_collection_modules_follow_the_sample_modules() {
    let modules = sample_collection_modules();
    let uuids: Vec<&str> = modules.iter().map(|m| m.uuid.as_str()).collect();
    assert_eq!(uuids, vec!["weather-wttr@barforge", "clock-time@barforge", "cpu-monitor@barforge"]);
    let positions: Vec<i64> = modules.iter().map(|m| m.position).collect();
    assert_eq!(positions, vec![1, 2, 3]);
    assert_eq!(modules[2].author, "OpsLab");
    assert!(modules.iter().all(|m| m.note.is_none() && m.added_at == "2024-01-02T00:00:00Z"));
}

#[test]
fn collection_owner_is_matched_by_normalised_name() {
    assert!(is_collection_owner(Some("Barforge"), "barforge"));
    assert!(!is_collection_owner(Some("octo"), "barforge"));
    assert!(!is_collection_owner(None, "barforge"));
}

#[test]
fn admin_route_body_renders_stats_and_submissions() {
    let stats_state = RemoteState::Ready(sample_admin_stats());
    let submissions_state = RemoteState::Ready(SubmissionsResponse {
        submissions: vec![sample_submission()],
        total: 1,
    });
    let overview = admin_overview(&stats_state, &submissions_state);
    assert!(overview.total_modules.contains("1,200"));
    assert!(overview.total_users.contains("42,000"));
    assert_eq!(overview.pending_submissions, "1");
    assert!(!overview.show_no_pending);
    let listed = admin_submissions_from_state(&submissions_state);
    assert!(listed.submissions[0].name.contains("Weather"));
    assert!(listed.submissions[0].submitter_username.contains("octo"));
}

#[test]
fn admin_route_body_renders_empty_state_when_no_submissions() {
    let stats_state = RemoteState::Ready(sample_admin_stats());
    let submissions_state = RemoteState::Ready(SubmissionsResponse {
        submissions: Vec::new(),
        total: 0,
    });
    let overview = admin_overview(&stats_state, &submissions_state);
    assert!(overview.show_no_pending);
    assert_eq!(overview.pending_submissions, "0");
}

#[test]
fn admin_overview_falls_back_to_stats_count() {
    let stats_state: RemoteState<AdminStats> = RemoteState::Error("stats failed".to_string());
    let submissions_state: RemoteState<SubmissionsResponse> = RemoteState::Unavailable;
    let overview = admin_overview(&stats_state, &submissions_state);
    assert_eq!(overview.total_modules, "0");
    assert_eq!(overview.pending_submissions, "0");
    assert!(overview.show_no_pending);
    let loading: RemoteState<SubmissionsResponse> = RemoteState::Loading;
    let overview = admin_overview(&RemoteState::Ready(sample_admin_stats()), &loading);
    assert_eq!(overview.pending_submissions, "1");
    assert!(!overview.show_no_pending);
}

#[test]
fn only_the_owner_gets_a_remove_control() {
    assert_eq!(remove_control(false, &None, "a@x"), None);
    assert_eq!(remove_control(true, &None, "a@x"), Some(("Remove", false)));
    let removing = Some("a@x".to_string());
    assert_eq!(remove_control(true, &removing, "a@x"), Some(("Removing...", true)));
    assert_eq!(remove_control(false, &removing, "a@x"), None);
}
