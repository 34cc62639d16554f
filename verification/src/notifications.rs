//! Notifications: the list the bell shows, read state, and the per-kind delivery preferences.
use vstd::prelude::*;

verus! {

/// Kinds of notification.
#[derive(Debug, Clone, Copy, PartialEq, Eq, Structural)]
pub enum NotificationType {
    Downloads,
    Comments,
    Stars,
    Updates,
    Announcements,
}

/// Icon shown beside a notification kind.
#[derive(Debug, Clone, Copy, PartialEq, Eq, Structural)]
pub enum NotificationIcon {
    Download,
    Comment,
    Star,
    Update,
    Announce,
}

/// Whether a notification is unread, read, or dealt with.
#[derive(Debug, Clone, Copy, PartialEq, Eq, Structural)]
pub enum NotificationStatus {
    Unread,
    Read,
    Done,
}

/// Outcome of saving the preferences.
#[derive(Debug, Clone, Copy, PartialEq, Eq, Structural)]
pub enum SaveStatus {
    Saved,
    Error,
}

/// Which delivery channel of a preference is edited.
#[derive(Debug, Clone, Copy, PartialEq, Eq, Structural)]
pub enum PreferenceField {
    Email,
    InApp,
}

/// Delivery of one kind of notification.
#[derive(Debug, Clone, Copy, PartialEq, Eq, Structural)]
pub struct NotificationPreference {
    pub kind: NotificationType,
    pub email: bool,
    pub in_app: bool,
}

/// A notification as the bell lists it.
#[derive(Debug, Clone, PartialEq, Eq)]
pub struct NotificationItem {
    pub id: i64,
    pub kind: NotificationType,
    pub title: String,
    pub body: Option<String>,
    pub action_url: Option<String>,
    pub created_at: String,
    pub status: NotificationStatus,
}

/// A notification as the API sends it.
#[derive(Debug, Clone, PartialEq, Eq)]
pub struct Notification {
    pub id: i64,
    pub notification_type: NotificationType,
    pub title: String,
    pub body: Option<String>,
    pub action_url: Option<String>,
    pub is_read: bool,
    pub created_at: String,
}

/// The preferences record of the API: in-app and e-mail switches per kind.
#[derive(Debug, Clone, Copy, PartialEq, Eq, Structural)]
pub struct NotificationPreferences {
    pub downloads_enabled: bool,
    pub comments_enabled: bool,
    pub stars_enabled: bool,
    pub updates_enabled: bool,
    pub announcements_enabled: bool,
    pub email_downloads: bool,
    pub email_comments: bool,
    pub email_stars: bool,
    pub email_updates: bool,
    pub email_announcements: bool,
}

/// What the event stream's state becomes after an event.
#[derive(Debug, Clone, Copy, PartialEq, Eq)]
pub struct StreamStatusUpdate {
    pub connected: bool,
    pub error: Option<&'static str>,
}

/// Error shown when a streamed notification cannot be read.
pub const STREAM_INVALID_PAYLOAD: &'static str = "Invalid notification payload";

/// Error shown when the stream drops.
pub const STREAM_CONNECTION_LOST: &'static str = "Connection lost";

/// The kinds in the order the settings page lists them.
pub open spec fn kind_order() -> Seq<NotificationType> {
    seq![
        NotificationType::Downloads,
        NotificationType::Comments,
        NotificationType::Stars,
        NotificationType::Updates,
        NotificationType::Announcements,
    ]
}

/// Label of a kind.
pub fn notification_label(kind: NotificationType) -> (r: &'static str)
    ensures
        r@ == (match kind {
            NotificationType::Downloads => "Download milestones"@,
            NotificationType::Comments => "New comments"@,
            NotificationType::Stars => "New stars"@,
            NotificationType::Updates => "Module updates"@,
            NotificationType::Announcements => "Platform announcements"@,
        }),
{
    match kind {
        NotificationType::Downloads => "Download milestones",
        NotificationType::Comments => "New comments",
        NotificationType::Stars => "New stars",
        NotificationType::Updates => "Module updates",
        NotificationType::Announcements => "Platform announcements",
    }
}

/// Form key of a kind.
pub fn notification_key(kind: NotificationType) -> (r: &'static str)
    ensures
        r@ == (match kind {
            NotificationType::Downloads => "downloads"@,
            NotificationType::Comments => "comments"@,
            NotificationType::Stars => "stars"@,
            NotificationType::Updates => "updates"@,
            NotificationType::Announcements => "announcements"@,
        }),
{
    match kind {
        NotificationType::Downloads => "downloads",
        NotificationType::Comments => "comments",
        NotificationType::Stars => "stars",
        NotificationType::Updates => "updates",
        NotificationType::Announcements => "announcements",
    }
}

/// Explanation of a kind.
pub fn notification_description(kind: NotificationType) -> (r: &'static str)
    ensures
        r@ == (match kind {
            NotificationType::Downloads => "Get notified when your modules reach download milestones (100, 1k, 10k, etc.)"@,
            NotificationType::Comments => "When someone comments on your modules"@,
            NotificationType::Stars => "When someone stars your modules"@,
            NotificationType::Updates => "When modules you starred release new versions"@,
            NotificationType::Announcements => "Important updates about Barforge"@,
        }),
{
    match kind {
        NotificationType::Downloads => "Get notified when your modules reach download milestones (100, 1k, 10k, etc.)",
        NotificationType::Comments => "When someone comments on your modules",
        NotificationType::Stars => "When someone stars your modules",
        NotificationType::Updates => "When modules you starred release new versions",
        NotificationType::Announcements => "Important updates about Barforge",
    }
}

/// Icon of a kind.
pub fn notification_icon(kind: NotificationType) -> (r: NotificationIcon)
    ensures
        r == (match kind {
            NotificationType::Downloads => NotificationIcon::Download,
            NotificationType::Comments => NotificationIcon::Comment,
            NotificationType::Stars => NotificationIcon::Star,
            NotificationType::Updates => NotificationIcon::Update,
            NotificationType::Announcements => NotificationIcon::Announce,
        }),
{
    match kind {
        NotificationType::Downloads => NotificationIcon::Download,
        NotificationType::Comments => NotificationIcon::Comment,
        NotificationType::Stars => NotificationIcon::Star,
        NotificationType::Updates => NotificationIcon::Update,
        NotificationType::Announcements => NotificationIcon::Announce,
    }
}

/// Number of unread notifications in `items`.
pub open spec fn unread_in(items: Seq<NotificationItem>) -> nat
    decreases items.len(),
{
    if items.len() == 0 {
        0
    } else {
        unread_in(items.drop_last()) + if items.last().status == NotificationStatus::Unread {
            1nat
        } else {
            0nat
        }
    }
}

/// A notification with its status set to `status`.
pub open spec fn with_status(item: NotificationItem, status: NotificationStatus) -> NotificationItem {
    NotificationItem { status, ..item }
}

/// `item` after "mark read" for `target` (all unread items when `target` is none): unread becomes
/// read, everything else stays.
pub open spec fn read_item(item: NotificationItem, target: Option<i64>) -> NotificationItem {
    if item.status == NotificationStatus::Unread && (match target {
        Some(id) => item.id == id,
        None => true,
    }) {
        with_status(item, NotificationStatus::Read)
    } else {
        item
    }
}

/// Every notification of `items` after "mark read" for `target`.
pub open spec fn marked(items: Seq<NotificationItem>, target: Option<i64>) -> Seq<NotificationItem> {
    items.map_values(|item: NotificationItem| read_item(item, target))
}

/// How many notifications are unread.
pub fn unread_count(notifications: &Vec<NotificationItem>) -> (r: usize)
    ensures
        r == unread_in(notifications@),
{
    let mut count: usize = 0;
    let mut i: usize = 0;
    while i < notifications.len()
        invariant
            i <= notifications.len(),
            count == unread_in(notifications@.take(i as int)),
            count <= i,
        decreases notifications.len() - i,
    {
        assert(notifications@.take(i + 1).drop_last() == notifications@.take(i as int));
        if notifications[i].status == NotificationStatus::Unread {
            count = count + 1;
        }
        i = i + 1;
    }
    assert(notifications@.take(notifications.len() as int) == notifications@);
    count
}

fn copy_item(item: &NotificationItem) -> (r: NotificationItem)
    ensures
        r == *item,
{
    NotificationItem {
        id: item.id,
        kind: item.kind,
        title: item.title.clone(),
        body: item.body.clone(),
        action_url: item.action_url.clone(),
        created_at: item.created_at.clone(),
        status: item.status,
    }
}

fn mark_items(notifications: &Vec<NotificationItem>, target: Option<i64>) -> (r: Vec<NotificationItem>)
    ensures
        r@ == marked(notifications@, target),
{
    let mut out: Vec<NotificationItem> = Vec::new();
    let mut i: usize = 0;
    while i < notifications.len()
        invariant
            i <= notifications.len(),
            out@ == marked(notifications@.take(i as int), target),
        decreases notifications.len() - i,
    {
        let mut next = copy_item(&notifications[i]);
        let hit = match target {
            Some(id) => next.id == id,
            None => true,
        };
        if next.status == NotificationStatus::Unread && hit {
            next.status = NotificationStatus::Read;
        }
        let ghost before = out@;
        out.push(next);
        assert(notifications@.take(i + 1) == notifications@.take(i as int).push(notifications@[i as int]));
        assert(out@ =~= marked(notifications@.take(i + 1), target));
        i = i + 1;
    }
    assert(notifications@.take(notifications.len() as int) == notifications@);
    out
}

/// Every unread notification becomes read; read and done ones stay as they are.
pub fn mark_all_read(notifications: &Vec<NotificationItem>) -> (r: Vec<NotificationItem>)
    ensures
        r@ == marked(notifications@, None),
{
    mark_items(notifications, None)
}

/// The unread notifications with id `id` become read; everything else stays.
pub fn mark_read(notifications: &Vec<NotificationItem>, id: i64) -> (r: Vec<NotificationItem>)
    ensures
        r@ == marked(notifications@, Some(id)),
{
    mark_items(notifications, Some(id))
}

/// The bell's entry for an API notification: unread unless the API says it was read.
pub open spec fn spec_map_notification(n: Notification) -> NotificationItem {
    NotificationItem {
        id: n.id,
        kind: n.notification_type,
        title: n.title,
        body: n.body,
        action_url: n.action_url,
        created_at: n.created_at,
        status: if n.is_read {
            NotificationStatus::Read
        } else {
            NotificationStatus::Unread
        },
    }
}

/// Converts an API notification into the bell's entry.
pub fn map_notification(notification: &Notification) -> (r: NotificationItem)
    ensures
        r == spec_map_notification(*notification),
{
    let status = if notification.is_read {
        NotificationStatus::Read
    } else {
        NotificationStatus::Unread
    };
    NotificationItem {
        id: notification.id,
        kind: notification.notification_type,
        title: notification.title.clone(),
        body: notification.body.clone(),
        action_url: notification.action_url.clone(),
        created_at: notification.created_at.clone(),
        status,
    }
}

/// The API record's switches for one kind, as (e-mail, in-app).
pub open spec fn switches(api: NotificationPreferences, kind: NotificationType) -> (bool, bool) {
    match kind {
        NotificationType::Downloads => (api.email_downloads, api.downloads_enabled),
        NotificationType::Comments => (api.email_comments, api.comments_enabled),
        NotificationType::Stars => (api.email_stars, api.stars_enabled),
        NotificationType::Updates => (api.email_updates, api.updates_enabled),
        NotificationType::Announcements => (api.email_announcements, api.announcements_enabled),
    }
}

/// The preference list the settings page shows for an API record: one entry per kind, in order.
pub open spec fn spec_preferences_from_api(api: NotificationPreferences) -> Seq<NotificationPreference> {
    kind_order().map_values(
        |kind: NotificationType|
            NotificationPreference {
                kind,
                email: switches(api, kind).0,
                in_app: switches(api, kind).1,
            },
    )
}

fn preference_for(api: &NotificationPreferences, kind: NotificationType) -> (r: NotificationPreference)
    ensures
        r == (NotificationPreference {
            kind,
            email: switches(*api, kind).0,
            in_app: switches(*api, kind).1,
        }),
{
    let (email, in_app) = match kind {
        NotificationType::Downloads => (api.email_downloads, api.downloads_enabled),
        NotificationType::Comments => (api.email_comments, api.comments_enabled),
        NotificationType::Stars => (api.email_stars, api.stars_enabled),
        NotificationType::Updates => (api.email_updates, api.updates_enabled),
        NotificationType::Announcements => (api.email_announcements, api.announcements_enabled),
    };
    NotificationPreference { kind, email, in_app }
}

/// Reads the API record into the settings page's list.
pub fn preferences_from_api(api: &NotificationPreferences) -> (r: Vec<NotificationPreference>)
    ensures
        r@ == spec_preferences_from_api(*api),
{
    let mut out: Vec<NotificationPreference> = Vec::new();
    out.push(preference_for(api, NotificationType::Downloads));
    out.push(preference_for(api, NotificationType::Comments));
    out.push(preference_for(api, NotificationType::Stars));
    out.push(preference_for(api, NotificationType::Updates));
    out.push(preference_for(api, NotificationType::Announcements));
    assert(out@ =~= spec_preferences_from_api(*api));
    out
}

/// The API record with one preference written in.
pub open spec fn apply_preference(api: NotificationPreferences, pref: NotificationPreference) -> NotificationPreferences {
    match pref.kind {
        NotificationType::Downloads => NotificationPreferences {
            downloads_enabled: pref.in_app,
            email_downloads: pref.email,
            ..api
        },
        NotificationType::Comments => NotificationPreferences {
            comments_enabled: pref.in_app,
            email_comments: pref.email,
            ..api
        },
        NotificationType::Stars => NotificationPreferences {
            stars_enabled: pref.in_app,
            email_stars: pref.email,
            ..api
        },
        NotificationType::Updates => NotificationPreferences {
            updates_enabled: pref.in_app,
            email_updates: pref.email,
            ..api
        },
        NotificationType::Announcements => NotificationPreferences {
            announcements_enabled: pref.in_app,
            email_announcements: pref.email,
            ..api
        },
    }
}

/// All switches off.
pub open spec fn all_off() -> NotificationPreferences {
    NotificationPreferences {
        downloads_enabled: false,
        comments_enabled: false,
        stars_enabled: false,
        updates_enabled: false,
        announcements_enabled: false,
        email_downloads: false,
        email_comments: false,
        email_stars: false,
        email_updates: false,
        email_announcements: false,
    }
}

/// The preferences written into the API record one after another, starting from all switches
/// off; a later entry for the same kind wins.
pub open spec fn spec_preferences_to_api(prefs: Seq<NotificationPreference>) -> NotificationPreferences
    decreases prefs.len(),
{
    if prefs.len() == 0 {
        all_off()
    } else {
        apply_preference(spec_preferences_to_api(prefs.drop_last()), prefs.last())
    }
}

/// Writes the settings page's list into an API record.
pub fn preferences_to_api(preferences: &Vec<NotificationPreference>) -> (r: NotificationPreferences)
    ensures
        r == spec_preferences_to_api(preferences@),
{
    let mut api = NotificationPreferences {
        downloads_enabled: false,
        comments_enabled: false,
        stars_enabled: false,
        updates_enabled: false,
        announcements_enabled: false,
        email_downloads: false,
        email_comments: false,
        email_stars: false,
        email_updates: false,
        email_announcements: false,
    };
    let mut i: usize = 0;
    while i < preferences.len()
        invariant
            i <= preferences.len(),
            api == spec_preferences_to_api(preferences@.take(i as int)),
        decreases preferences.len() - i,
    {
        let pref = preferences[i];
        assert(preferences@.take(i + 1).drop_last() == preferences@.take(i as int));
        match pref.kind {
            NotificationType::Downloads => {
                api.downloads_enabled = pref.in_app;
                api.email_downloads = pref.email;
            },
            NotificationType::Comments => {
                api.comments_enabled = pref.in_app;
                api.email_comments = pref.email;
            },
            NotificationType::Stars => {
                api.stars_enabled = pref.in_app;
                api.email_stars = pref.email;
            },
            NotificationType::Updates => {
                api.updates_enabled = pref.in_app;
                api.email_updates = pref.email;
            },
            NotificationType::Announcements => {
                api.announcements_enabled = pref.in_app;
                api.email_announcements = pref.email;
            },
        }
        i = i + 1;
    }
    assert(preferences@.take(preferences.len() as int) == preferences@);
    api
}

/// The preferences a new visitor starts with: every kind in the app, only announcements by e-mail.
pub open spec fn spec_default_preferences() -> Seq<NotificationPreference> {
    kind_order().map_values(
        |kind: NotificationType|
            NotificationPreference {
                kind,
                email: kind == NotificationType::Announcements,
                in_app: true,
            },
    )
}

/// The preferences a new visitor starts with.
pub fn default_preferences() -> (r: Vec<NotificationPreference>)
    ensures
        r@ == spec_default_preferences(),
{
    let mut out: Vec<NotificationPreference> = Vec::new();
    out.push(NotificationPreference { kind: NotificationType::Downloads, email: false, in_app: true });
    out.push(NotificationPreference { kind: NotificationType::Comments, email: false, in_app: true });
    out.push(NotificationPreference { kind: NotificationType::Stars, email: false, in_app: true });
    out.push(NotificationPreference { kind: NotificationType::Updates, email: false, in_app: true });
    out.push(
        NotificationPreference { kind: NotificationType::Announcements, email: true, in_app: true },
    );
    assert(out@ =~= spec_default_preferences());
    out
}

/// The stored preferences, or the defaults when none are stored.
pub fn preferences_or_default(preferences: Vec<NotificationPreference>) -> (r: Vec<NotificationPreference>)
    ensures
        r@ == (if preferences@.len() == 0 {
            spec_default_preferences()
        } else {
            preferences@
        }),
{
    if preferences.len() == 0 {
        default_preferences()
    } else {
        preferences
    }
}

/// The first entry of `prefs` for `kind` with `field` set to `value`; the list is otherwise kept.
pub open spec fn spec_update_preference(
    prefs: Seq<NotificationPreference>,
    kind: NotificationType,
    field: PreferenceField,
    value: bool,
) -> Seq<NotificationPreference> {
    if exists|i: int| 0 <= i < prefs.len() && prefs[i].kind == kind {
        let i = choose|i: int|
            0 <= i < prefs.len() && prefs[i].kind == kind && forall|j: int|
                0 <= j < i ==> prefs[j].kind != kind;
        prefs.update(
            i,
            match field {
                PreferenceField::Email => NotificationPreference { email: value, ..prefs[i] },
                PreferenceField::InApp => NotificationPreference { in_app: value, ..prefs[i] },
            },
        )
    } else {
        prefs
    }
}

/// Changes one switch of the first preference for `kind`.
pub fn update_preference(
    preferences: Vec<NotificationPreference>,
    kind: NotificationType,
    field: PreferenceField,
    value: bool,
) -> (r: Vec<NotificationPreference>)
    ensures
        r@ == spec_update_preference(preferences@, kind, field, value),
{
    let mut i: usize = 0;
    while i < preferences.len() && preferences[i].kind != kind
        invariant
            i <= preferences.len(),
            forall|j: int| 0 <= j < i ==> preferences@[j].kind != kind,
        decreases preferences.len() - i,
    {
        i = i + 1;
    }
    if i == preferences.len() {
        return preferences;
    }
    let old = preferences[i];
    let updated = match field {
        PreferenceField::Email => NotificationPreference { email: value, ..old },
        PreferenceField::InApp => NotificationPreference { in_app: value, ..old },
    };
    proof {
        assert(preferences@[i as int].kind == kind);
        let w = choose|w: int|
            0 <= w < preferences@.len() && preferences@[w].kind == kind && forall|j: int|
                0 <= j < w ==> preferences@[j].kind != kind;
        if w < i {
        } else if w > i {
        }
        assert(w == i);
    }
    let mut next = preferences;
    next.set(i, updated);
    next
}

/// A streamed notification joins the front of the list unless one with its id is already there.
pub open spec fn spec_ingest(items: Seq<NotificationItem>, incoming: NotificationItem) -> Seq<NotificationItem> {
    if exists|i: int| 0 <= i < items.len() && items[i].id == incoming.id {
        items
    } else {
        seq![incoming] + items
    }
}

/// Adds a streamed notification to the front of the list, once.
pub fn ingest_notification(items: Vec<NotificationItem>, incoming: NotificationItem) -> (r: Vec<NotificationItem>)
    ensures
        r@ == spec_ingest(items@, incoming),
{
    let mut i: usize = 0;
    while i < items.len()
        invariant
            i <= items.len(),
            forall|j: int| 0 <= j < i ==> items@[j].id != incoming.id,
        decreases items.len() - i,
    {
        if items[i].id == incoming.id {
            return items;
        }
        i = i + 1;
    }
    let mut next = items;
    let ghost before = next@;
    next.insert(0, incoming);
    assert(next@ =~= seq![incoming] + before);
    next
}

/// The stream opened: connected, no error.
pub fn stream_status_on_open() -> (r: StreamStatusUpdate)
    ensures
        r.connected && r.error is None,
{
    StreamStatusUpdate { connected: true, error: None }
}

/// The stream failed: disconnected, with the connection-lost message.
pub fn stream_status_on_error() -> (r: StreamStatusUpdate)
    ensures
        !r.connected,
        r.error matches Some(e) && e@ == STREAM_CONNECTION_LOST@,
{
    StreamStatusUpdate { connected: false, error: Some(STREAM_CONNECTION_LOST) }
}

/// Tearing the stream down is needed when anything of it is left.
pub fn should_disconnect_stream(has_stream: bool, connected: bool, has_error: bool) -> (r: bool)
    ensures
        r == (has_stream || connected || has_error),
{
    has_stream || connected || has_error
}

/// A stream is opened for a signed-in visitor who has none.
pub fn should_connect_stream(connected: bool, authenticated: bool) -> (r: bool)
    ensures
        r == (!connected && authenticated),
{
    !connected && authenticated
}

/// After "mark all read" no notification is unread.
pub proof fn lemma_mark_all_read_clears_unread(items: Seq<NotificationItem>)
    ensures
        unread_in(marked(items, None)) == 0,
    decreases items.len(),
{
    if items.len() > 0 {
        lemma_mark_all_read_clears_unread(items.drop_last());
        assert(marked(items, None).drop_last()
            =~= marked(items.drop_last(), None));
    }
}

/// Marking read twice is the same as marking read once, for one id or for all.
pub proof fn lemma_mark_read_idempotent(items: Seq<NotificationItem>, target: Option<i64>)
    ensures
        marked(marked(items, target), target) == marked(items, target),
{
    assert(marked(marked(items, target), target) =~= marked(items, target));
}

/// Marking read never adds unread notifications, and keeps the list's length, order and contents
/// apart from the status.
pub proof fn lemma_mark_read_only_lowers_unread(items: Seq<NotificationItem>, target: Option<i64>)
    ensures
        unread_in(marked(items, target)) <= unread_in(
            items,
        ),
        marked(items, target).len() == items.len(),
        forall|i: int|
            0 <= i < items.len() ==> #[trigger] marked(items, target)[i] == with_status(items[i], marked(items, target)[i].status),
    decreases items.len(),
{
    if items.len() > 0 {
        lemma_mark_read_only_lowers_unread(items.drop_last(), target);
        assert(marked(items, target).drop_last()
            =~= marked(items.drop_last(), target));
    }
}

proof fn lemma_to_api_of_five(prefs: Seq<NotificationPreference>)
    requires
        prefs.len() == 5,
    ensures
        spec_preferences_to_api(prefs) == apply_preference(
            apply_preference(
                apply_preference(
                    apply_preference(apply_preference(all_off(), prefs[0]), prefs[1]),
                    prefs[2],
                ),
                prefs[3],
            ),
            prefs[4],
        ),
{
    let p4 = prefs.drop_last();
    let p3 = p4.drop_last();
    let p2 = p3.drop_last();
    let p1 = p2.drop_last();
    let p0 = p1.drop_last();
    assert(p0.len() == 0);
    assert(spec_preferences_to_api(p0) == all_off());
    assert(p1.last() == prefs[0]);
    assert(p2.last() == prefs[1]);
    assert(p3.last() == prefs[2]);
    assert(p4.last() == prefs[3]);
    assert(spec_preferences_to_api(p1) == apply_preference(all_off(), prefs[0]));
    assert(spec_preferences_to_api(p2) == apply_preference(spec_preferences_to_api(p1), prefs[1]));
    assert(spec_preferences_to_api(p3) == apply_preference(spec_preferences_to_api(p2), prefs[2]));
    assert(spec_preferences_to_api(p4) == apply_preference(spec_preferences_to_api(p3), prefs[3]));
}

/// Reading the API record into the settings list and writing the list back gives the record.
pub proof fn lemma_preferences_round_trip(api: NotificationPreferences)
    ensures
        spec_preferences_to_api(spec_preferences_from_api(api)) == api,
{
    let prefs = spec_preferences_from_api(api);
    lemma_to_api_of_five(prefs);
}

/// Writing a settings list that has one entry per kind, in the settings page's order, into an
/// API record and reading it back gives the list.
pub proof fn lemma_settings_round_trip(prefs: Seq<NotificationPreference>)
    requires
        prefs.len() == 5,
        forall|i: int| 0 <= i < 5 ==> #[trigger] prefs[i].kind == kind_order()[i],
    ensures
        spec_preferences_from_api(spec_preferences_to_api(prefs)) == prefs,
{
    lemma_to_api_of_five(prefs);
    assert(spec_preferences_from_api(spec_preferences_to_api(prefs)) =~= prefs);
}

/// Ingesting a streamed notification never creates two entries with one id.
pub proof fn lemma_ingest_keeps_ids_unique(items: Seq<NotificationItem>, incoming: NotificationItem)
    requires
        forall|i: int, j: int| 0 <= i < j < items.len() ==> items[i].id != items[j].id,
    ensures
        forall|i: int, j: int|
            0 <= i < j < spec_ingest(items, incoming).len() ==> spec_ingest(items, incoming)[i].id
                != spec_ingest(items, incoming)[j].id,
        exists|i: int|
            0 <= i < spec_ingest(items, incoming).len() && spec_ingest(items, incoming)[i].id
                == incoming.id,
{
    if !(exists|i: int| 0 <= i < items.len() && items[i].id == incoming.id) {
        let r = seq![incoming] + items;
        assert forall|i: int, j: int| 0 <= i < j < r.len() implies r[i].id != r[j].id by {
            if i == 0 {
                assert(r[j] == items[j - 1]);
            } else {
                assert(r[i] == items[i - 1]);
                assert(r[j] == items[j - 1]);
            }
        }
        assert(r[0].id == incoming.id);
    }
}

/// The unread badge: the count, or `99+` above 99.
pub fn unread_badge(unread: usize) -> (r: String)
    ensures
        r@ == (if unread > 99 {
            "99+"@
        } else {
            crate::text::nat_decimal(unread as nat)
        }),
{
    if unread > 99 {
        "99+".to_string()
    } else {
        let mut r = String::new();
        crate::text::push_decimal(&mut r, unread as u64);
        proof {
            reveal_strlit("");
        }
        assert(r@ =~= crate::text::nat_decimal(unread as nat));
        r
    }
}

/// What the notification settings say after a save: a message (none before any save) and the
/// state named on the panel.
pub fn save_status_text(status: Option<SaveStatus>) -> (r: (Option<&'static str>, &'static str))
    ensures
        match status {
            Some(SaveStatus::Saved) => r.0 matches Some(m) && m@ == "Preferences saved."@
                && r.1@ == "saved"@,
            Some(SaveStatus::Error) => r.0 matches Some(m) && m@ == "Failed to save preferences."@
                && r.1@ == "error"@,
            None => r.0 is None && r.1@ == "idle"@,
        },
{
    match status {
        Some(SaveStatus::Saved) => (Some("Preferences saved."), "saved"),
        Some(SaveStatus::Error) => (Some("Failed to save preferences."), "error"),
        None => (None, "idle"),
    }
}

/// Marking notification `id` read keeps the list's length and order; every notification with
/// another id is left exactly as it was; an unread one with that id becomes read with nothing
/// else about it changed; one with that id that is not unread stays as it was.
pub proof fn lemma_mark_read_touches_only_its_id(items: Seq<NotificationItem>, id: i64)
    ensures
        marked(items, Some(id)).len() == items.len(),
        forall|i: int|
            0 <= i < items.len() && items[i].id != id ==> #[trigger] marked(items, Some(id))[i]
                == items[i],
        forall|i: int|
            0 <= i < items.len() && items[i].id == id && items[i].status
                == NotificationStatus::Unread ==> {
                let after = #[trigger] marked(items, Some(id))[i];
                &&& after.status == NotificationStatus::Read
                &&& after.id == items[i].id
                &&& after.kind == items[i].kind
                &&& after.title == items[i].title
                &&& after.body == items[i].body
                &&& after.action_url == items[i].action_url
                &&& after.created_at == items[i].created_at
            },
        forall|i: int|
            0 <= i < items.len() && items[i].status != NotificationStatus::Unread
                ==> #[trigger] marked(items, Some(id))[i] == items[i],
{
}

} // verus!
