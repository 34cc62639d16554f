use barforge::notifications::{
    default_preferences, ingest_notification, map_notification, mark_all_read, mark_read,
    notification_icon, notification_key, notification_label, preferences_from_api,
    preferences_or_default, preferences_to_api, should_connect_stream, should_disconnect_stream,
    stream_status_on_error, stream_status_on_open, unread_count, update_preference, Notification,
    NotificationIcon, NotificationItem, NotificationPreference, NotificationPreferences,
    NotificationStatus, NotificationType, PreferenceField, STREAM_CONNECTION_LOST,
};
use barforge::notifications::{save_status_text, unread_badge, SaveStatus};

fn sample_notification(id: i64, status: NotificationStatus) -> NotificationItem {
    NotificationItem {
        id,
        kind: NotificationType::Updates,
        title: "Update".to_string(),
        body: Some("New release".to_string()),
        action_url: Some("/modules/clock-time@barforge".to_string()),
        created_at: "2025-01-01T00:00:00Z".to_string(),
        status,
    }
}

#[test]
fn unread_count_counts_only_unread() {
    let notifications = vec![
        sample_notification(1, NotificationStatus::Unread),
        sample_notification(2, NotificationStatus::Read),
        sample_notification(3, NotificationStatus::Done),
    ];

    assert_eq!(unread_count(&notifications), 1);
}

#[test]
fn mark_all_read_preserves_done() {
    let notifications = vec![
        sample_notification(1, NotificationStatus::Unread),
        sample_notification(2, NotificationStatus::Done),
    ];
    let updated = mark_all_read(&notifications);

    assert_eq!(updated[0].status, NotificationStatus::Read);
    assert_eq!(updated[1].status, NotificationStatus::Done);
}

#[test]
fn mark_read_touches_only_the_given_id() {
    let notifications = vec![
        sample_notification(1, NotificationStatus::Unread),
        sample_notification(2, NotificationStatus::Unread),
    ];
    let updated = mark_read(&notifications, 2);
    assert_eq!(updated[0].status, NotificationStatus::Unread);
    assert_eq!(updated[1].status, NotificationStatus::Read);
    assert_eq!(unread_count(&updated), 1);
    assert_eq!(unread_count(&mark_all_read(&updated)), 0);
}

#[test]
fn map_notification_sets_status_from_api() {
    let api = Notification {
        id: 99,
        notification_type: NotificationType::Stars,
        title: "New star".to_string(),
        body: None,
        action_url: Some("/modules/clock-time@barforge".to_string()),
        is_read: false,
        created_at: "2025-01-01T00:00:00Z".to_string(),
    };

    let mapped = map_notification(&api);

    assert_eq!(mapped.id, 99);
    assert_eq!(mapped.status, NotificationStatus::Unread);
    assert_eq!(mapped.kind, NotificationType::Stars);
}

#[test]
fn disconnect_stream_noops_when_already_cleared() {
    assert!(!should_disconnect_stream(false, false, false));
}

#[test]
fn disconnect_stream_runs_when_any_state_is_set() {
    assert!(should_disconnect_stream(true, false, false));
    assert!(should_disconnect_stream(false, true, false));
    assert!(should_disconnect_stream(false, false, true));
}

#[test]
fn connect_stream_requires_authentication() {
    assert!(!should_connect_stream(false, false));
}

#[test]
fn connect_stream_skips_when_already_connected() {
    assert!(!should_connect_stream(true, true));
}

#[test]
fn connect_stream_runs_when_authenticated_and_disconnected() {
    assert!(should_connect_stream(false, true));
}

#[test]
fn preferences_or_default_returns_defaults_when_empty() {
    let prefs = preferences_or_default(Vec::new());

    assert_eq!(prefs.len(), default_preferences().len());
}

#[test]
fn preferences_or_default_preserves_non_empty() {
    let prefs = vec![NotificationPreference {
        kind: NotificationType::Downloads,
        email: false,
        in_app: true,
    }];

    let result = preferences_or_default(prefs.clone());

    assert_eq!(result, prefs);
}

#[test]
fn stream_status_on_open_marks_connected_without_error() {
    let status = stream_status_on_open();

    assert!(status.connected);
    assert_eq!(status.error, None);
}

#[test]
fn stream_status_on_error_marks_disconnected_with_message() {
    let status = stream_status_on_error();

    assert!(!status.connected);
    assert_eq!(status.error, Some(STREAM_CONNECTION_LOST));
}

#[test]
fn preferences_round_trip_through_api_record() {
    let api = NotificationPreferences {
        downloads_enabled: true,
        comments_enabled: false,
        stars_enabled: true,
        updates_enabled: false,
        announcements_enabled: true,
        email_downloads: false,
        email_comments: true,
        email_stars: false,
        email_updates: true,
        email_announcements: false,
    };
    let prefs = preferences_from_api(&api);
    assert_eq!(prefs.len(), 5);
    assert_eq!(prefs[1].kind, NotificationType::Comments);
    assert!(prefs[1].email && !prefs[1].in_app);
    assert_eq!(preferences_to_api(&prefs), api);
    let defaults = default_preferences();
    assert_eq!(preferences_from_api(&preferences_to_api(&defaults)), defaults);
}

#[test]
fn update_preference_changes_first_matching_entry() {
    let prefs = default_preferences();
    let updated = update_preference(prefs.clone(), NotificationType::Stars, PreferenceField::Email, true);
    assert!(updated[2].email);
    assert_eq!(updated[0], prefs[0]);
    let off = update_preference(updated, NotificationType::Stars, PreferenceField::InApp, false);
    assert!(!off[2].in_app);
}

#[test]
fn ingest_adds_new_notifications_to_the_front_once() {
    let items = vec![sample_notification(1, NotificationStatus::Read)];
    let added = ingest_notification(items, sample_notification(2, NotificationStatus::Unread));
    assert_eq!(added.len(), 2);
    assert_eq!(added[0].id, 2);
    let again = ingest_notification(added.clone(), sample_notification(2, NotificationStatus::Unread));
    assert_eq!(again, added);
}

#[test]
fn kind_labels_keys_and_icons() {
    assert_eq!(notification_label(NotificationType::Downloads), "Download milestones");
    assert_eq!(notification_key(NotificationType::Announcements), "announcements");
    assert_eq!(notification_icon(NotificationType::Comments), NotificationIcon::Comment);
}

#[test]
fn unread_badge_caps_at_ninety_nine() {
    assert_eq!(unread_badge(0), "0");
    assert_eq!(unread_badge(99), "99");
    assert_eq!(unread_badge(100), "99+");
}

#[test]
fn save_status_text_reports_each_outcome() {
    assert_eq!(save_status_text(None), (None, "idle"));
    assert_eq!(save_status_text(Some(SaveStatus::Saved)), (Some("Preferences saved."), "saved"));
    assert_eq!(
        save_status_text(Some(SaveStatus::Error)),
        (Some("Failed to save preferences."), "error")
    );
}

#[test]
fn notification_center_shows_unread_badge() {
    let items = vec![
        NotificationItem {
            id: 1,
            kind: NotificationType::Stars,
            title: "New star".to_string(),
            body: Some("Someone starred your module".to_string()),
            action_url: Some("/modules/clock-time@barforge".to_string()),
            created_at: "2025-01-01T00:00:00Z".to_string(),
            status: NotificationStatus::Unread,
        },
        NotificationItem {
            id: 2,
            kind: NotificationType::Updates,
            title: "Update shipped".to_string(),
            body: Some("A new version is available".to_string()),
            action_url: None,
            created_at: "2025-01-01T00:10:00Z".to_string(),
            status: NotificationStatus::Read,
        },
    ];
    let unread = unread_count(&items);
    assert_eq!(unread, 1);
    assert_eq!(unread_badge(unread), "1");
}
