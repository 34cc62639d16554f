//! The records the web site shows when the registry is not reachable.
use vstd::prelude::*;

use crate::model::{
    Collection, CollectionModule, CollectionOwner, LandingData, LandingInstallMethod, ModuleCategory, PublicStats,
    RegistryModule, UserProfile, UserRole, VersionHistoryEntry, copy_module, same_module,
    same_modules,
};
use crate::server_config::{parse_i64, parsed_i64};
use crate::text::{opt_view, str_eq, string_views};

verus! {

broadcast use vstd::string::group_string_axioms;

/// `m` has the given fields; its icon, screenshot and checksum are unset.
pub open spec fn module_is(
    m: RegistryModule,
    uuid: Seq<char>,
    name: Seq<char>,
    description: Seq<char>,
    author: Seq<char>,
    category: ModuleCategory,
    repo_url: Seq<char>,
    downloads: i64,
    version: Option<Seq<char>>,
    last_updated: Option<Seq<char>>,
    rating: Option<u32>,
    verified_author: bool,
    tags: Seq<Seq<char>>,
    license: Option<Seq<char>>,
) -> bool {
    &&& m.uuid@ == uuid
    &&& m.name@ == name
    &&& m.description@ == description
    &&& m.author@ == author
    &&& m.category == category
    &&& m.icon is None
    &&& m.screenshot is None
    &&& m.repo_url@ == repo_url
    &&& m.downloads == downloads
    &&& opt_view(m.version) == version
    &&& opt_view(m.last_updated) == last_updated
    &&& m.rating == rating
    &&& m.verified_author == verified_author
    &&& string_views(m.tags@) == tags
    &&& m.checksum is None
    &&& opt_view(m.license) == license
}

/// The sample modules: a weather module, a clock and a CPU monitor (ratings 4.1, 4.8 and 4.0,
/// as `f32` bit patterns).
pub open spec fn is_sample_modules(s: Seq<RegistryModule>) -> bool {
    &&& s.len() == 3
    &&& module_is(
        s[0],
        "weather-wttr@barforge"@,
        "Weather"@,
        "Weather forecast module"@,
        "Barforge"@,
        ModuleCategory::Weather,
        "https://github.com/barforge/weather-wttr"@,
        3200,
        Some("1.3.2"@),
        Some("2025-11-05T12:00:00Z"@),
        Some(0x40833333u32),
        true,
        seq!["weather"@, "status"@],
        Some("MIT"@),
    )
    &&& module_is(
        s[1],
        "clock-time@barforge"@,
        "Clock"@,
        "Minimal clock and timezone module"@,
        "Barforge"@,
        ModuleCategory::Time,
        "https://github.com/barforge/clock-time"@,
        1800,
        Some("2.0.1"@),
        Some("2025-12-20T12:00:00Z"@),
        Some(0x4099999Au32),
        true,
        seq!["clock"@, "time"@],
        Some("GPL-3.0"@),
    )
    &&& module_is(
        s[2],
        "cpu-monitor@barforge"@,
        "CPU Monitor"@,
        "Real-time CPU usage module"@,
        "OpsLab"@,
        ModuleCategory::System,
        "https://github.com/barforge/cpu-monitor"@,
        900,
        Some("0.9.4"@),
        Some("2025-10-12T08:30:00Z"@),
        Some(0x40800000u32),
        false,
        seq!["system"@, "cpu"@],
        Some("MIT"@),
    )
}

fn tags_of(a: &str, b: &str) -> (r: Vec<String>)
    ensures
        string_views(r@) == seq![a@, b@],
{
    let mut r: Vec<String> = Vec::new();
    r.push(a.to_string());
    r.push(b.to_string());
    assert(string_views(r@) =~= seq![a@, b@]);
    r
}

/// The sample modules (see [`is_sample_modules`]).
pub fn sample_modules() -> (r: Vec<RegistryModule>)
    ensures
        is_sample_modules(r@),
{
    let mut r: Vec<RegistryModule> = Vec::new();
    r.push(
        RegistryModule {
            uuid: "weather-wttr@barforge".to_string(),
            name: "Weather".to_string(),
            description: "Weather forecast module".to_string(),
            author: "Barforge".to_string(),
            category: ModuleCategory::Weather,
            icon: None,
            screenshot: None,
            repo_url: "https://github.com/barforge/weather-wttr".to_string(),
            downloads: 3200,
            version: Some("1.3.2".to_string()),
            last_updated: Some("2025-11-05T12:00:00Z".to_string()),
            rating: Some(0x40833333u32),
            verified_author: true,
            tags: tags_of("weather", "status"),
            checksum: None,
            license: Some("MIT".to_string()),
        },
    );
    r.push(
        RegistryModule {
            uuid: "clock-time@barforge".to_string(),
            name: "Clock".to_string(),
            description: "Minimal clock and timezone module".to_string(),
            author: "Barforge".to_string(),
            category: ModuleCategory::Time,
            icon: None,
            screenshot: None,
            repo_url: "https://github.com/barforge/clock-time".to_string(),
            downloads: 1800,
            version: Some("2.0.1".to_string()),
            last_updated: Some("2025-12-20T12:00:00Z".to_string()),
            rating: Some(0x4099999Au32),
            verified_author: true,
            tags: tags_of("clock", "time"),
            checksum: None,
            license: Some("GPL-3.0".to_string()),
        },
    );
    r.push(
        RegistryModule {
            uuid: "cpu-monitor@barforge".to_string(),
            name: "CPU Monitor".to_string(),
            description: "Real-time CPU usage module".to_string(),
            author: "OpsLab".to_string(),
            category: ModuleCategory::System,
            icon: None,
            screenshot: None,
            repo_url: "https://github.com/barforge/cpu-monitor".to_string(),
            downloads: 900,
            version: Some("0.9.4".to_string()),
            last_updated: Some("2025-10-12T08:30:00Z".to_string()),
            rating: Some(0x40800000u32),
            verified_author: false,
            tags: tags_of("system", "cpu"),
            checksum: None,
            license: Some("MIT".to_string()),
        },
    );
    r
}

/// The module shown when no sample matches.
pub open spec fn is_fallback_module(m: RegistryModule) -> bool {
    module_is(
        m,
        "module-fallback@barforge"@,
        "Module"@,
        "Fallback module"@,
        "Barforge"@,
        ModuleCategory::Custom,
        "https://github.com/barforge"@,
        0,
        None,
        None,
        None,
        false,
        Seq::empty(),
        None,
    )
}

/// `e` lists the module `uuid` (named `name`, by `author`, in `category`) at `position`, with no
/// note, added on 2024-01-02.
pub open spec fn collection_entry_is(
    e: CollectionModule,
    uuid: Seq<char>,
    name: Seq<char>,
    author: Seq<char>,
    category: ModuleCategory,
    position: i64,
) -> bool {
    &&& e.uuid@ == uuid
    &&& e.name@ == name
    &&& e.author@ == author
    &&& e.category == category
    &&& e.note is None
    &&& e.position == position
    &&& e.added_at@ == "2024-01-02T00:00:00Z"@
}

/// The modules of a sample collection: the sample modules in their order, at positions 1, 2
/// and 3.
pub open spec fn is_sample_collection_modules(s: Seq<CollectionModule>) -> bool {
    &&& s.len() == 3
    &&& collection_entry_is(s[0], "weather-wttr@barforge"@, "Weather"@, "Barforge"@, ModuleCategory::Weather, 1)
    &&& collection_entry_is(s[1], "clock-time@barforge"@, "Clock"@, "Barforge"@, ModuleCategory::Time, 2)
    &&& collection_entry_is(s[2], "cpu-monitor@barforge"@, "CPU Monitor"@, "OpsLab"@, ModuleCategory::System, 3)
}

/// The modules of a sample collection (see [`is_sample_collection_modules`]).
pub fn sample_collection_modules() -> (r: Vec<CollectionModule>)
    ensures
        is_sample_collection_modules(r@),
{
    let modules = sample_modules();
    let mut r: Vec<CollectionModule> = Vec::new();
    let mut i: usize = 0;
    while i < modules.len()
        invariant
            is_sample_modules(modules@),
            i <= modules@.len(),
            r@.len() == i,
            forall|k: int|
                0 <= k < i ==> {
                    &&& (#[trigger] r@[k]).uuid@ == modules@[k].uuid@
                    &&& r@[k].name@ == modules@[k].name@
                    &&& r@[k].author@ == modules@[k].author@
                    &&& r@[k].category == modules@[k].category
                    &&& r@[k].note is None
                    &&& r@[k].position == k + 1
                    &&& r@[k].added_at@ == "2024-01-02T00:00:00Z"@
                },
        decreases modules@.len() - i,
    {
        let m = &modules[i];
        r.push(
            CollectionModule {
                uuid: m.uuid.clone(),
                name: m.name.clone(),
                author: m.author.clone(),
                category: m.category,
                note: None,
                position: (i + 1) as i64,
                added_at: "2024-01-02T00:00:00Z".to_string(),
            },
        );
        i = i + 1;
    }
    r
}

/// The module shown when nothing else is known.
pub fn sample_fallback_module() -> (r: RegistryModule)
    ensures
        is_fallback_module(r),
{
    let r = RegistryModule {
        uuid: "module-fallback@barforge".to_string(),
        name: "Module".to_string(),
        description: "Fallback module".to_string(),
        author: "Barforge".to_string(),
        category: ModuleCategory::Custom,
        icon: None,
        screenshot: None,
        repo_url: "https://github.com/barforge".to_string(),
        downloads: 0,
        version: None,
        last_updated: None,
        rating: None,
        verified_author: false,
        tags: Vec::new(),
        checksum: None,
        license: None,
    };
    assert(string_views(r.tags@) =~= Seq::<Seq<char>>::empty());
    r
}

/// Of three sample modules `s`, the one with identifier `uuid`, else the last.
pub open spec fn sample_pick(s: Seq<RegistryModule>, uuid: Seq<char>) -> RegistryModule {
    if s[0].uuid@ == uuid {
        s[0]
    } else if s[1].uuid@ == uuid {
        s[1]
    } else {
        s[2]
    }
}

/// The sample module with identifier `uuid`, else the last sample module.
pub fn sample_module_by_uuid(uuid: &str) -> (r: RegistryModule)
    ensures
        exists|s: Seq<RegistryModule>| is_sample_modules(s) && same_module(r, sample_pick(s, uuid@)),
{
    let modules = sample_modules();
    let mut i: usize = 0;
    while i < modules.len()
        invariant
            is_sample_modules(modules@),
            i <= 3,
            forall|j: int| 0 <= j < i ==> #[trigger] modules@[j].uuid@ != uuid@,
        decreases 3 - i,
    {
        if str_eq(modules[i].uuid.as_str(), uuid) {
            return copy_module(&modules[i]);
        }
        i = i + 1;
    }
    copy_module(&modules[2])
}

/// The modules of `s` without identifier `u`, in order.
pub open spec fn without_module(s: Seq<RegistryModule>, u: Seq<char>) -> Seq<RegistryModule>
    decreases s.len(),
{
    if s.len() == 0 {
        s
    } else {
        let rest = without_module(s.drop_last(), u);
        if s.last().uuid@ != u {
            rest.push(s.last())
        } else {
            rest
        }
    }
}

/// The sample modules other than `exclude_uuid`, in order.
pub fn sample_related_modules(exclude_uuid: &str) -> (r: Vec<RegistryModule>)
    ensures
        exists|s: Seq<RegistryModule>|
            is_sample_modules(s) && same_modules(r@, without_module(s, exclude_uuid@)),
{
    let modules = sample_modules();
    let mut r: Vec<RegistryModule> = Vec::new();
    let mut i: usize = 0;
    while i < modules.len()
        invariant
            is_sample_modules(modules@),
            i <= 3,
            same_modules(r@, without_module(modules@.take(i as int), exclude_uuid@)),
        decreases 3 - i,
    {
        assert(modules@.take(i + 1).drop_last() =~= modules@.take(i as int));
        if !str_eq(modules[i].uuid.as_str(), exclude_uuid) {
            r.push(copy_module(&modules[i]));
        }
        i = i + 1;
    }
    assert(modules@.take(3) =~= modules@);
    r
}

/// `e` has the given fields.
pub open spec fn version_is(
    e: VersionHistoryEntry,
    version: Seq<char>,
    changelog: Seq<char>,
    downloads: i64,
    published_at: Seq<char>,
) -> bool {
    &&& e.version@ == version
    &&& opt_view(e.changelog) == Some(changelog)
    &&& e.downloads == downloads
    &&& e.published_at@ == published_at
}

/// The sample version history: 1.3.2, then 1.3.1.
pub fn sample_versions() -> (r: Vec<VersionHistoryEntry>)
    ensures
        r@.len() == 2,
        version_is(r@[0], "1.3.2"@, "Added Mocha theme support."@, 1200, "2025-12-01T12:00:00Z"@),
        version_is(
            r@[1],
            "1.3.1"@,
            "Improved forecast refresh cadence."@,
            980,
            "2025-10-20T12:00:00Z"@,
        ),
{
    let mut r: Vec<VersionHistoryEntry> = Vec::new();
    r.push(
        VersionHistoryEntry {
            version: "1.3.2".to_string(),
            changelog: Some("Added Mocha theme support.".to_string()),
            downloads: 1200,
            published_at: "2025-12-01T12:00:00Z".to_string(),
        },
    );
    r.push(
        VersionHistoryEntry {
            version: "1.3.1".to_string(),
            changelog: Some("Improved forecast refresh cadence.".to_string()),
            downloads: 980,
            published_at: "2025-10-20T12:00:00Z".to_string(),
        },
    );
    r
}

/// The sample landing-page counts.
pub open spec fn sample_stats() -> PublicStats {
    PublicStats { total_modules: 128, total_downloads: 24800, total_authors: 42 }
}

fn one_command(c: &str) -> (r: Vec<String>)
    ensures
        string_views(r@) == seq![c@],
{
    let mut r: Vec<String> = Vec::new();
    r.push(c.to_string());
    assert(string_views(r@) =~= seq![c@]);
    r
}

/// `m` is an install method with the given fields and the one command `command`.
pub open spec fn install_method_is(
    m: LandingInstallMethod,
    id: Seq<char>,
    label: Seq<char>,
    description: Seq<char>,
    command: Seq<char>,
) -> bool {
    &&& m.id@ == id
    &&& m.label@ == label
    &&& m.description@ == description
    &&& string_views(m.commands@) == seq![command]
}

/// The sample landing data: the sample counts and three ways to install.
pub fn sample_landing_data() -> (r: LandingData)
    ensures
        r.stats == sample_stats(),
        r.install_methods@.len() == 3,
        install_method_is(
            r.install_methods@[0],
            "shell"@,
            "Shell"@,
            "Install via a one-liner shell script."@,
            "curl -sSL https://barforge.dev/install | sh"@,
        ),
        install_method_is(
            r.install_methods@[1],
            "aur"@,
            "AUR"@,
            "Install from the Arch User Repository."@,
            "yay -S barforge"@,
        ),
        install_method_is(
            r.install_methods@[2],
            "source"@,
            "Source"@,
            "Build from source with Cargo."@,
            "git clone https://github.com/jtaw5649/barforge-app && cd barforge-app && cargo build --release"@,
        ),
{
    let mut methods: Vec<LandingInstallMethod> = Vec::new();
    methods.push(
        LandingInstallMethod {
            id: "shell".to_string(),
            label: "Shell".to_string(),
            description: "Install via a one-liner shell script.".to_string(),
            commands: one_command("curl -sSL https://barforge.dev/install | sh"),
        },
    );
    methods.push(
        LandingInstallMethod {
            id: "aur".to_string(),
            label: "AUR".to_string(),
            description: "Install from the Arch User Repository.".to_string(),
            commands: one_command("yay -S barforge"),
        },
    );
    methods.push(
        LandingInstallMethod {
            id: "source".to_string(),
            label: "Source".to_string(),
            description: "Build from source with Cargo.".to_string(),
            commands: one_command(
                "git clone https://github.com/jtaw5649/barforge-app && cd barforge-app && cargo build --release",
            ),
        },
    );
    LandingData {
        stats: PublicStats { total_modules: 128, total_downloads: 24800, total_authors: 42 },
        install_methods: methods,
    }
}

/// The owner of the sample collections.
pub open spec fn is_sample_owner(o: CollectionOwner) -> bool {
    &&& o.username@ == "barforge"@
    &&& opt_view(o.display_name) == Some("Barforge"@)
    &&& o.avatar_url is None
}

/// `c` is a public sample collection of the sample owner with the given fields.
pub open spec fn collection_is(
    c: Collection,
    id: i64,
    name: Seq<char>,
    description: Seq<char>,
    module_count: i64,
) -> bool {
    &&& c.id == id
    &&& c.user_id == 1
    &&& c.name@ == name
    &&& opt_view(c.description) == Some(description)
    &&& c.visibility@ == "public"@
    &&& c.module_count == module_count
    &&& is_sample_owner(c.owner)
    &&& c.created_at@ == "2024-01-01T00:00:00Z"@
    &&& c.updated_at@ == "2024-01-10T00:00:00Z"@
}

fn sample_owner() -> (r: CollectionOwner)
    ensures
        is_sample_owner(r),
{
    CollectionOwner {
        username: "barforge".to_string(),
        display_name: Some("Barforge".to_string()),
        avatar_url: None,
    }
}

/// The sample collections of a user: one, "Ops Essentials", whoever the user is.
pub fn sample_collections(_username: &str) -> (r: Vec<Collection>)
    ensures
        r@.len() == 1,
        collection_is(
            r@[0],
            1,
            "Ops Essentials"@,
            "Modules for steady-state ops dashboards."@,
            4,
        ),
{
    let mut r: Vec<Collection> = Vec::new();
    r.push(
        Collection {
            id: 1,
            user_id: 1,
            name: "Ops Essentials".to_string(),
            description: Some("Modules for steady-state ops dashboards.".to_string()),
            visibility: "public".to_string(),
            module_count: 4,
            owner: sample_owner(),
            created_at: "2024-01-01T00:00:00Z".to_string(),
            updated_at: "2024-01-10T00:00:00Z".to_string(),
        },
    );
    r
}

/// The sample collection shown for `id`: its number is `id` read as an `i64` (0 when it is not
/// one); `ops-essentials` is "Ops Essentials", anything else "Community Picks".
pub open spec fn is_sample_collection(id: Seq<char>, c: Collection) -> bool {
    let number = match parsed_i64(id) {
        Some(n) => n,
        None => 0,
    };
    if id == "ops-essentials"@ {
        collection_is(
            c,
            number,
            "Ops Essentials"@,
            "Modules for steady-state ops dashboards."@,
            4,
        )
    } else {
        collection_is(c, number, "Community Picks"@, "Curated community favorites."@, 2)
    }
}

/// The sample collection shown for `id` (see [`is_sample_collection`]).
pub fn sample_collection(id: &str) -> (r: Collection)
    ensures
        is_sample_collection(id@, r),
{
    let id_value = match parse_i64(id) {
        Some(n) => n,
        None => 0,
    };
    if str_eq(id, "ops-essentials") {
        Collection {
            id: id_value,
            user_id: 1,
            name: "Ops Essentials".to_string(),
            description: Some("Modules for steady-state ops dashboards.".to_string()),
            visibility: "public".to_string(),
            module_count: 4,
            owner: sample_owner(),
            created_at: "2024-01-01T00:00:00Z".to_string(),
            updated_at: "2024-01-10T00:00:00Z".to_string(),
        }
    } else {
        Collection {
            id: id_value,
            user_id: 1,
            name: "Community Picks".to_string(),
            description: Some("Curated community favorites.".to_string()),
            visibility: "public".to_string(),
            module_count: 2,
            owner: sample_owner(),
            created_at: "2024-01-01T00:00:00Z".to_string(),
            updated_at: "2024-01-10T00:00:00Z".to_string(),
        }
    }
}

/// The sample profile of `username` with `module_count` modules (the count taken as an `i64`).
pub open spec fn is_sample_profile(p: UserProfile, username: Seq<char>, module_count: i64) -> bool {
    &&& p.id == 1
    &&& p.username@ == username
    &&& opt_view(p.display_name) == Some("Barforge"@)
    &&& p.avatar_url is None
    &&& opt_view(p.bio) == Some("Building the Barforge ecosystem."@)
    &&& opt_view(p.website_url) == Some("https://barforge.dev"@)
    &&& opt_view(p.github_url) == Some("https://github.com/barforge"@)
    &&& opt_view(p.twitter_url) == Some("https://x.com/barforge"@)
    &&& opt_view(p.bluesky_url) == Some("https://bsky.app/profile/barforge.dev"@)
    &&& opt_view(p.discord_url) == Some("https://discord.gg/barforge"@)
    &&& p.sponsor_url is None
    &&& p.verified_author
    &&& p.role == UserRole::User
    &&& p.module_count == module_count
    &&& p.created_at@ == "2024-01-01T00:00:00Z"@
}

/// The sample profile shown for `username`.
pub fn sample_user_profile(username: &str, module_count: usize) -> (r: UserProfile)
    ensures
        is_sample_profile(r, username@, module_count as i64),
{
    UserProfile {
        id: 1,
        username: username.to_string(),
        display_name: Some("Barforge".to_string()),
        avatar_url: None,
        bio: Some("Building the Barforge ecosystem.".to_string()),
        website_url: Some("https://barforge.dev".to_string()),
        github_url: Some("https://github.com/barforge".to_string()),
        twitter_url: Some("https://x.com/barforge".to_string()),
        bluesky_url: Some("https://bsky.app/profile/barforge.dev".to_string()),
        discord_url: Some("https://discord.gg/barforge".to_string()),
        sponsor_url: None,
        verified_author: true,
        role: UserRole::User,
        module_count: module_count as i64,
        created_at: "2024-01-01T00:00:00Z".to_string(),
    }
}

} // verus!
