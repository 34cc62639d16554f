//! The registry's records as the web site and the desktop app read them.
use vstd::prelude::*;

verus! {

/// Category of a Waybar module.
#[derive(Debug, Clone, Copy, PartialEq, Eq, Structural)]
pub enum ModuleCategory {
    System,
    Hardware,
    Network,
    Audio,
    Power,
    Time,
    Workspace,
    Window,
    Tray,
    Weather,
    Productivity,
    Media,
    Custom,
}

/// A module as the registry lists it.
///
/// `rating` holds the bit pattern of the registry's `f32` rating (`f32::to_bits`); lists are
/// ordered by it through [`rating_key`], which orders patterns as their numbers are ordered.
#[derive(Debug, Clone, PartialEq, Eq)]
pub struct RegistryModule {
    pub uuid: String,
    pub name: String,
    pub description: String,
    pub author: String,
    pub category: ModuleCategory,
    pub icon: Option<String>,
    pub screenshot: Option<String>,
    pub repo_url: String,
    pub downloads: i64,
    pub version: Option<String>,
    pub last_updated: Option<String>,
    pub rating: Option<u32>,
    pub verified_author: bool,
    pub tags: Vec<String>,
    pub checksum: Option<String>,
    pub license: Option<String>,
}

/// The sign bit of an `f32` bit pattern.
pub open spec fn sign_bit() -> int {
    0x8000_0000
}

/// The magnitude bits of an `f32` bit pattern (all but the sign).
pub open spec fn magnitude(bits: u32) -> int {
    if bits >= sign_bit() {
        bits - sign_bit()
    } else {
        bits as int
    }
}

/// The pattern stands for a number below zero (a set sign bit with a non-zero magnitude;
/// `-0.0` is zero).
pub open spec fn below_zero(bits: u32) -> bool {
    bits >= sign_bit() && magnitude(bits) > 0
}

/// The number of pattern `a` is below that of `b`, as IEEE 754 orders numbers that are not NaN:
/// anything below zero is below anything else; two numbers below zero are ordered by reversed
/// magnitude, the others by magnitude (`0.0` and `-0.0` are equal).
pub open spec fn rating_below(a: u32, b: u32) -> bool {
    if below_zero(a) != below_zero(b) {
        below_zero(a)
    } else if below_zero(a) {
        magnitude(a) > magnitude(b)
    } else {
        magnitude(a) < magnitude(b)
    }
}

/// The integer a rating pattern is ordered by: below-zero patterns have all bits flipped, the
/// others (`-0.0` taken as `0.0`) have the sign bit set. A NaN pattern, which the number order
/// does not place, lands beyond the infinity of its sign.
pub open spec fn spec_rating_key(bits: u32) -> int {
    if below_zero(bits) {
        0xFFFF_FFFF - bits
    } else {
        magnitude(bits) + sign_bit()
    }
}

/// The integer a rating pattern is ordered by (see [`spec_rating_key`]); a missing rating is
/// ordered as `0.0`.
pub fn rating_key(rating: Option<u32>) -> (r: u32)
    ensures
        r == spec_rating_key(
            match rating {
                Some(b) => b,
                None => 0,
            },
        ),
{
    let bits: u32 = match rating {
        Some(b) => b,
        None => 0,
    };
    if bits > 0x8000_0000 {
        0xFFFF_FFFF - bits
    } else if bits == 0x8000_0000 {
        0x8000_0000
    } else {
        bits + 0x8000_0000
    }
}

/// Rating keys order ratings as numbers: one key is below another exactly when its rating is
/// below the other's, and keys are equal exactly when neither rating is below the other (so
/// `0.0` and `-0.0` share a key).
pub proof fn lemma_rating_key_orders_ratings(a: u32, b: u32)
    ensures
        spec_rating_key(a) < spec_rating_key(b) <==> rating_below(a, b),
        spec_rating_key(a) == spec_rating_key(b) <==> !rating_below(a, b) && !rating_below(b, a),
{
}

/// `a` and `b` hold the same record (field by field; the tags by their text).
pub open spec fn same_module(a: RegistryModule, b: RegistryModule) -> bool {
    &&& a.uuid == b.uuid
    &&& a.name == b.name
    &&& a.description == b.description
    &&& a.author == b.author
    &&& a.category == b.category
    &&& a.icon == b.icon
    &&& a.screenshot == b.screenshot
    &&& a.repo_url == b.repo_url
    &&& a.downloads == b.downloads
    &&& a.version == b.version
    &&& a.last_updated == b.last_updated
    &&& a.rating == b.rating
    &&& a.verified_author == b.verified_author
    &&& a.tags@ == b.tags@
    &&& a.checksum == b.checksum
    &&& a.license == b.license
}

/// A copy of a registry record.
pub fn copy_module(m: &RegistryModule) -> (r: RegistryModule)
    ensures
        same_module(r, *m),
{
    let tags = m.tags.clone();
    assert(tags@ =~= m.tags@);
    RegistryModule {
        uuid: m.uuid.clone(),
        name: m.name.clone(),
        description: m.description.clone(),
        author: m.author.clone(),
        category: m.category,
        icon: m.icon.clone(),
        screenshot: m.screenshot.clone(),
        repo_url: m.repo_url.clone(),
        downloads: m.downloads,
        version: m.version.clone(),
        last_updated: m.last_updated.clone(),
        rating: m.rating,
        verified_author: m.verified_author,
        tags,
        checksum: m.checksum.clone(),
        license: m.license.clone(),
    }
}

/// `a` and `b` hold the same records, in the same order.
pub open spec fn same_modules(a: Seq<RegistryModule>, b: Seq<RegistryModule>) -> bool {
    a.len() == b.len() && forall|i: int| 0 <= i < a.len() ==> same_module(#[trigger] a[i], b[i])
}

/// A copy of a list of registry records.
pub fn copy_modules(v: &[RegistryModule]) -> (r: Vec<RegistryModule>)
    ensures
        same_modules(r@, v@),
{
    let mut r: Vec<RegistryModule> = Vec::new();
    let mut i: usize = 0;
    while i < v.len()
        invariant
            i <= v@.len(),
            r@.len() == i,
            forall|k: int| 0 <= k < i ==> same_module(#[trigger] r@[k], v@[k]),
        decreases v@.len() - i,
    {
        r.push(copy_module(&v[i]));
        i = i + 1;
    }
    r
}

/// The author of a review.
#[derive(Debug, Clone, PartialEq, Eq)]
pub struct ReviewUser {
    pub username: String,
    pub avatar_url: Option<String>,
}

/// A review of a module.
#[derive(Debug, Clone, PartialEq, Eq)]
pub struct Review {
    pub id: i64,
    pub rating: i64,
    pub title: Option<String>,
    pub body: Option<String>,
    pub helpful_count: i64,
    pub user: ReviewUser,
    pub created_at: String,
    pub updated_at: Option<String>,
}

/// A page of reviews.
#[derive(Debug, Clone, PartialEq, Eq)]
pub struct ReviewsResponse {
    pub reviews: Vec<Review>,
    pub total: i64,
}

/// A screenshot of a module as the registry stores it.
#[derive(Debug, Clone, PartialEq, Eq)]
pub struct Screenshot {
    pub id: i64,
    pub r2_key: String,
    pub alt_text: Option<String>,
    pub position: i64,
    pub created_at: String,
}

/// Public counts shown on the landing page.
#[derive(Debug, Clone, Copy, PartialEq, Eq, Structural)]
pub struct PublicStats {
    pub total_modules: i64,
    pub total_downloads: i64,
    pub total_authors: i64,
}

/// One way to install the desktop app.
#[derive(Debug, Clone, PartialEq, Eq)]
pub struct LandingInstallMethod {
    pub id: String,
    pub label: String,
    pub description: String,
    pub commands: Vec<String>,
}

/// What the landing page shows.
#[derive(Debug, Clone, PartialEq, Eq)]
pub struct LandingData {
    pub stats: PublicStats,
    pub install_methods: Vec<LandingInstallMethod>,
}

/// Counts shown to administrators.
#[derive(Debug, Clone, Copy, PartialEq, Eq, Structural)]
pub struct AdminStats {
    pub total_modules: i64,
    pub total_users: i64,
    pub total_downloads: i64,
    pub pending_submissions: i64,
}

/// A module submitted for review.
#[derive(Debug, Clone, PartialEq, Eq)]
pub struct Submission {
    pub id: i64,
    pub submitter_id: i64,
    pub uuid: String,
    pub name: String,
    pub description: String,
    pub category: String,
    pub version: String,
    pub repo_url: String,
    pub status: String,
    pub rejection_reason: Option<String>,
    pub submitted_at: String,
    pub reviewed_at: Option<String>,
    pub reviewed_by: Option<i64>,
    pub submitter_username: String,
}

/// A page of submissions.
#[derive(Debug, Clone, PartialEq, Eq)]
pub struct SubmissionsResponse {
    pub submissions: Vec<Submission>,
    pub total: i64,
}

/// A payload with the version of the data it was cut from.
#[derive(Debug, Clone, PartialEq, Eq)]
pub struct Versioned<T> {
    pub version: i64,
    pub payload: T,
}

/// What the registry says of a category.
#[derive(Debug, Clone, PartialEq, Eq)]
pub struct CategoryInfo {
    pub id: Option<String>,
    pub name: String,
    pub icon: String,
}

/// The registry index: every module, and the categories by name (in name order, each once).
#[derive(Debug, Clone, PartialEq, Eq)]
pub struct RegistryIndex {
    pub version: i64,
    pub modules: Vec<RegistryModule>,
    pub categories: Vec<(String, CategoryInfo)>,
}

/// The modules the home page features.
#[derive(Debug, Clone, PartialEq, Eq)]
pub struct FeaturedModulesResponse {
    pub version: i64,
    pub featured: Vec<RegistryModule>,
    pub popular: Vec<RegistryModule>,
    pub recent: Vec<RegistryModule>,
}

/// A user's role on the site.
#[derive(Debug, Clone, Copy, PartialEq, Eq, Structural)]
pub enum UserRole {
    User,
    Moderator,
    Admin,
}

/// A public user profile.
#[derive(Debug, Clone, PartialEq, Eq)]
pub struct UserProfile {
    pub id: i64,
    pub username: String,
    pub display_name: Option<String>,
    pub avatar_url: Option<String>,
    pub bio: Option<String>,
    pub website_url: Option<String>,
    pub github_url: Option<String>,
    pub twitter_url: Option<String>,
    pub bluesky_url: Option<String>,
    pub discord_url: Option<String>,
    pub sponsor_url: Option<String>,
    pub verified_author: bool,
    pub role: UserRole,
    pub module_count: i64,
    pub created_at: String,
}

/// Who owns a collection.
#[derive(Debug, Clone, PartialEq, Eq)]
pub struct CollectionOwner {
    pub username: String,
    pub display_name: Option<String>,
    pub avatar_url: Option<String>,
}

/// A named collection of modules.
#[derive(Debug, Clone, PartialEq, Eq)]
pub struct Collection {
    pub id: i64,
    pub user_id: i64,
    pub name: String,
    pub description: Option<String>,
    pub visibility: String,
    pub module_count: i64,
    pub owner: CollectionOwner,
    pub created_at: String,
    pub updated_at: String,
}

/// A module as a collection lists it: where it stands in the collection, and the owner's note.
#[derive(Debug, Clone, PartialEq, Eq)]
pub struct CollectionModule {
    pub uuid: String,
    pub name: String,
    pub author: String,
    pub category: ModuleCategory,
    pub note: Option<String>,
    pub position: i64,
    pub added_at: String,
}

/// A collection with the modules in it.
#[derive(Debug, Clone, PartialEq, Eq)]
pub struct CollectionDetailResponse {
    pub collection: Collection,
    pub modules: Vec<CollectionModule>,
}

/// One published version of a module.
#[derive(Debug, Clone, PartialEq, Eq)]
pub struct VersionHistoryEntry {
    pub version: String,
    pub changelog: Option<String>,
    pub downloads: i64,
    pub published_at: String,
}

/// A copy of a user profile.
pub fn copy_profile(p: &UserProfile) -> (r: UserProfile)
    ensures
        r == *p,
{
    UserProfile {
        id: p.id,
        username: p.username.clone(),
        display_name: p.display_name.clone(),
        avatar_url: p.avatar_url.clone(),
        bio: p.bio.clone(),
        website_url: p.website_url.clone(),
        github_url: p.github_url.clone(),
        twitter_url: p.twitter_url.clone(),
        bluesky_url: p.bluesky_url.clone(),
        discord_url: p.discord_url.clone(),
        sponsor_url: p.sponsor_url.clone(),
        verified_author: p.verified_author,
        role: p.role,
        module_count: p.module_count,
        created_at: p.created_at.clone(),
    }
}

/// A copy of a collection.
pub fn copy_collection(c: &Collection) -> (r: Collection)
    ensures
        r == *c,
{
    Collection {
        id: c.id,
        user_id: c.user_id,
        name: c.name.clone(),
        description: c.description.clone(),
        visibility: c.visibility.clone(),
        module_count: c.module_count,
        owner: CollectionOwner {
            username: c.owner.username.clone(),
            display_name: c.owner.display_name.clone(),
            avatar_url: c.owner.avatar_url.clone(),
        },
        created_at: c.created_at.clone(),
        updated_at: c.updated_at.clone(),
    }
}

/// A copy of a list of collections.
pub fn copy_collections(v: &[Collection]) -> (r: Vec<Collection>)
    ensures
        r@ == v@,
{
    let mut r: Vec<Collection> = Vec::new();
    let mut i: usize = 0;
    while i < v.len()
        invariant
            i <= v@.len(),
            r@ == v@.take(i as int),
        decreases v@.len() - i,
    {
        r.push(copy_collection(&v[i]));
        i = i + 1;
        assert(r@ =~= v@.take(i as int));
    }
    assert(v@.take(v@.len() as int) =~= v@);
    r
}

/// A copy of a version entry.
pub fn copy_version(e: &VersionHistoryEntry) -> (r: VersionHistoryEntry)
    ensures
        r == *e,
{
    VersionHistoryEntry {
        version: e.version.clone(),
        changelog: e.changelog.clone(),
        downloads: e.downloads,
        published_at: e.published_at.clone(),
    }
}

/// A copy of a list of version entries.
pub fn copy_versions(v: &[VersionHistoryEntry]) -> (r: Vec<VersionHistoryEntry>)
    ensures
        r@ == v@,
{
    let mut r: Vec<VersionHistoryEntry> = Vec::new();
    let mut i: usize = 0;
    while i < v.len()
        invariant
            i <= v@.len(),
            r@ == v@.take(i as int),
        decreases v@.len() - i,
    {
        r.push(copy_version(&v[i]));
        i = i + 1;
        assert(r@ =~= v@.take(i as int));
    }
    assert(v@.take(v@.len() as int) =~= v@);
    r
}

/// A copy of a review.
pub fn copy_review(e: &Review) -> (r: Review)
    ensures
        r == *e,
{
    Review {
        id: e.id,
        rating: e.rating,
        title: e.title.clone(),
        body: e.body.clone(),
        helpful_count: e.helpful_count,
        user: ReviewUser { username: e.user.username.clone(), avatar_url: e.user.avatar_url.clone() },
        created_at: e.created_at.clone(),
        updated_at: e.updated_at.clone(),
    }
}

/// A copy of a list of reviews.
pub fn copy_reviews(v: &[Review]) -> (r: Vec<Review>)
    ensures
        r@ == v@,
{
    let mut r: Vec<Review> = Vec::new();
    let mut i: usize = 0;
    while i < v.len()
        invariant
            i <= v@.len(),
            r@ == v@.take(i as int),
        decreases v@.len() - i,
    {
        r.push(copy_review(&v[i]));
        i = i + 1;
        assert(r@ =~= v@.take(i as int));
    }
    assert(v@.take(v@.len() as int) =~= v@);
    r
}

} // verus!
