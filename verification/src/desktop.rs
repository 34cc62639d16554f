//! State of the desktop app: browsing the registry, a module's detail page, installed modules.
use vstd::prelude::*;

use crate::model::{rating_key, spec_rating_key, ModuleCategory, RegistryModule, ReviewsResponse};
use crate::stable_sort::{
    arranged, key_views, stable_arrange, SortField, SortKey, SortKeyView, SortOrder,
};
use crate::text::{
    chars_of, contains_text, find_chars, lowercased, string_views, to_lowercase, trim, trimmed,
};

verus! {

/// A point in time, in nanoseconds from an arbitrary origin that only increases.
#[derive(Debug, Clone, Copy, PartialEq, Eq, Structural)]
pub struct Moment {
    pub nanos: u64,
}

/// How the module list is shown.
#[derive(Debug, Clone, Copy, PartialEq, Eq, Structural)]
pub enum ViewMode {
    Cards,
    Table,
}

/// Time a typed search waits before it applies, in nanoseconds (150 ms).
pub const DEBOUNCE_NANOS: u64 = 150_000_000;

/// What the browse screen remembers.
#[derive(Debug, Clone)]
pub struct BrowseState {
    pub search_query: String,
    pub pending_search: Option<String>,
    pub search_debounce_start: Option<Moment>,
    pub selected_category: Option<ModuleCategory>,
    pub verified_only: bool,
    pub sort_field: SortField,
    pub sort_order: SortOrder,
    pub view_mode: ViewMode,
    pub persisted_view_mode: ViewMode,
    pub refreshing: bool,
    pub last_refreshed: Option<Moment>,
}

impl Default for BrowseState {
    fn default() -> (r: Self)
        ensures
            r.search_query@ == Seq::<char>::empty(),
            r.pending_search is None,
            r.search_debounce_start is None,
            r.selected_category is None,
            !r.verified_only,
            r.sort_field == SortField::Name,
            r.sort_order == SortOrder::Descending,
            r.view_mode == ViewMode::Cards,
            r.persisted_view_mode == ViewMode::Cards,
            !r.refreshing,
            r.last_refreshed is None,
    {
        BrowseState {
            search_query: String::new(),
            pending_search: None,
            search_debounce_start: None,
            selected_category: None,
            verified_only: false,
            sort_field: SortField::Name,
            sort_order: SortOrder::Descending,
            view_mode: ViewMode::Cards,
            persisted_view_mode: ViewMode::Cards,
            refreshing: false,
            last_refreshed: None,
        }
    }
}

/// A module matches a (trimmed) search text: an empty text matches everything; otherwise the
/// lower-cased text occurs in the lower-cased name, description, author or one of the tags.
pub open spec fn spec_matches_search(module: RegistryModule, query: Seq<char>) -> bool {
    query.len() == 0 || {
        let q = lowercased(query);
        contains_text(lowercased(module.name@), q) || contains_text(lowercased(module.description@), q)
            || contains_text(lowercased(module.author@), q) || exists|i: int|
            0 <= i < module.tags.len() && contains_text(lowercased(#[trigger] module.tags@[i]@), q)
    }
}

/// The sort key of a module.
pub open spec fn module_key(m: RegistryModule) -> SortKeyView {
    SortKeyView {
        name: lowercased(m.name@),
        downloads: m.downloads as int,
        updated: match m.last_updated {
            Some(u) => Some(u@),
            None => None,
        },
        rating: spec_rating_key(
            match m.rating {
                Some(b) => b,
                None => 0,
            },
        ),
    }
}

/// Sort keys of a list of modules.
pub open spec fn module_keys(ms: Seq<RegistryModule>) -> Seq<SortKeyView> {
    ms.map_values(|m: RegistryModule| module_key(m))
}

fn contains_lowered(text: &str, q: &Vec<char>) -> (r: bool)
    ensures
        r == contains_text(lowercased(text@), q@),
{
    let lower = to_lowercase(text);
    let hay = chars_of(lower.as_str());
    find_chars(&hay, q).is_some()
}

fn matches_search(module: &RegistryModule, query: &str) -> (r: bool)
    ensures
        r == spec_matches_search(*module, query@),
{
    if query.unicode_len() == 0 {
        return true;
    }
    let q_lower = to_lowercase(query);
    let q = chars_of(q_lower.as_str());
    if contains_lowered(module.name.as_str(), &q) || contains_lowered(
        module.description.as_str(),
        &q,
    ) || contains_lowered(module.author.as_str(), &q) {
        return true;
    }
    let mut i: usize = 0;
    while i < module.tags.len()
        invariant
            i <= module.tags.len(),
            q@ == lowercased(query@),
            forall|j: int| 0 <= j < i ==> !contains_text(lowercased(#[trigger] module.tags@[j]@), q@),
        decreases module.tags.len() - i,
    {
        if contains_lowered(module.tags[i].as_str(), &q) {
            return true;
        }
        i = i + 1;
    }
    false
}

impl BrowseState {
    /// Whether the state's filters keep `module`: the search text, the category, verified authors.
    pub open spec fn keeps(&self, module: RegistryModule) -> bool {
        &&& spec_matches_search(module, trimmed(self.search_query@))
        &&& match self.selected_category {
            Some(c) => module.category == c,
            None => true,
        }
        &&& !self.verified_only || module.verified_author
    }

    /// Positions of the kept modules, in list order.
    pub open spec fn kept_positions(&self, modules: Seq<RegistryModule>) -> Seq<usize>
        decreases modules.len(),
    {
        if modules.len() == 0 {
            Seq::empty()
        } else {
            let before = self.kept_positions(modules.drop_last());
            if self.keeps(modules.last()) {
                before.push((modules.len() - 1) as usize)
            } else {
                before
            }
        }
    }

    /// `o` lists the kept positions sorted by the state's field and direction, stably.
    pub open spec fn is_browse_order(&self, modules: Seq<RegistryModule>, o: Seq<usize>) -> bool {
        arranged(
            o,
            self.kept_positions(modules),
            module_keys(modules),
            self.sort_field,
            self.sort_order,
        )
    }
}

/// The browse list searches the name, the description, the author and the tags: when no
/// category or verified-only filter is set, a module in whose lower-cased name, description,
/// author or one of whose tags the lower-cased trimmed search text occurs is listed, whatever
/// the sort.
pub proof fn lemma_search_lists_matching_fields(
    state: BrowseState,
    modules: Seq<RegistryModule>,
    o: Seq<usize>,
    k: int,
)
    requires
        modules.len() <= usize::MAX,
        0 <= k < modules.len(),
        state.selected_category is None,
        !state.verified_only,
        state.is_browse_order(modules, o),
        ({
            let q = lowercased(trimmed(state.search_query@));
            let m = modules[k];
            ||| contains_text(lowercased(m.name@), q)
            ||| contains_text(lowercased(m.description@), q)
            ||| contains_text(lowercased(m.author@), q)
            ||| exists|t: int| 0 <= t < m.tags.len() && contains_text(lowercased(#[trigger] m.tags@[t]@), q)
        }),
    ensures
        o.contains(k as usize),
{
    state.lemma_kept_positions(modules);
    assert(state.keeps(modules[k]));
    assert(state.kept_positions(modules).contains(k as usize));
}

fn sort_key_of(m: &RegistryModule) -> (k: SortKey)
    ensures
        k.view_key() == module_key(*m),
{
    let lower = to_lowercase(m.name.as_str());
    let name = chars_of(lower.as_str());
    let updated = match &m.last_updated {
        Some(u) => Some(chars_of(u.as_str())),
        None => None,
    };
    let rating = rating_key(m.rating);
    SortKey { name, downloads: m.downloads, updated, rating }
}

impl BrowseState {
    proof fn lemma_kept_positions(&self, modules: Seq<RegistryModule>)
        requires
            modules.len() <= usize::MAX,
        ensures
            forall|i: int|
                0 <= i < self.kept_positions(modules).len() ==> (#[trigger] self.kept_positions(
                    modules,
                )[i] as int) < modules.len(),
            forall|i: int, j: int|
                0 <= i < j < self.kept_positions(modules).len() ==> self.kept_positions(modules)[i]
                    < self.kept_positions(modules)[j],
            forall|x: usize|
                self.kept_positions(modules).contains(x) <==> (x as int) < modules.len()
                    && self.keeps(modules[x as int]),
        decreases modules.len(),
    {
        if modules.len() > 0 {
            let before = modules.drop_last();
            self.lemma_kept_positions(before);
            assert forall|x: usize|
                self.kept_positions(modules).contains(x) <==> (x as int) < modules.len()
                    && self.keeps(modules[x as int]) by {
                if (x as int) < before.len() {
                    assert(modules[x as int] == before[x as int]);
                }
                if self.kept_positions(modules).contains(x) && x as int != modules.len() - 1 {
                    let k = choose|k: int|
                        0 <= k < self.kept_positions(modules).len() && self.kept_positions(
                            modules,
                        )[k] == x;
                    if self.keeps(modules.last()) {
                        assert(self.kept_positions(modules) == self.kept_positions(before).push(
                            (modules.len() - 1) as usize,
                        ));
                        assert(k < self.kept_positions(before).len());
                    } else {
                        assert(self.kept_positions(modules) == self.kept_positions(before));
                    }
                    assert(self.kept_positions(before)[k] == x);
                    assert(self.kept_positions(before).contains(x));
                }
                if (x as int) < modules.len() && self.keeps(modules[x as int]) && (x as int)
                    < before.len() {
                    assert(self.kept_positions(before).contains(x));
                    let k = choose|k: int|
                        0 <= k < self.kept_positions(before).len() && self.kept_positions(before)[k]
                            == x;
                    assert(self.kept_positions(modules)[k] == x);
                }
                if x as int == modules.len() - 1 && self.keeps(modules[x as int]) {
                    assert(self.kept_positions(modules).last() == x);
                }
            }
        }
    }

    /// Positions of the modules the browse screen shows, in the order it shows them: the
    /// modules the filters keep, sorted by the chosen field in the chosen direction, modules with
    /// equal keys in list order.
    pub fn browse_order(&self, modules: &[RegistryModule]) -> (r: Vec<usize>)
        ensures
            self.is_browse_order(modules@, r@),
    {
        let query = trim(self.search_query.as_str());
        let mut keys: Vec<SortKey> = Vec::new();
        let mut cand: Vec<usize> = Vec::new();
        let mut i: usize = 0;
        while i < modules.len()
            invariant
                i <= modules.len(),
                query@ == trimmed(self.search_query@),
                key_views(keys@) == module_keys(modules@.take(i as int)),
                cand@ == self.kept_positions(modules@.take(i as int)),
            decreases modules.len() - i,
        {
            let m = &modules[i];
            let ghost prefix = modules@.take(i as int);
            assert(modules@.take(i + 1).drop_last() == prefix);
            assert(modules@.take(i + 1).last() == *m);
            let key = sort_key_of(m);
            let ghost old_keys = keys@;
            keys.push(key);
            assert(key_views(keys@) =~= key_views(old_keys).push(module_key(*m)));
            assert(module_keys(modules@.take(i + 1)) =~= module_keys(prefix).push(module_key(*m)));
            let category_ok = match self.selected_category {
                Some(c) => m.category == c,
                None => true,
            };
            if matches_search(m, query) && category_ok && (!self.verified_only
                || m.verified_author) {
                cand.push(i);
            }
            i = i + 1;
        }
        assert(modules@.take(modules.len() as int) == modules@);
        proof {
            self.lemma_kept_positions(modules@);
        }
        stable_arrange(&keys, &cand, self.sort_field, self.sort_order)
    }

    /// The modules the browse screen shows, in the order it shows them (see [`Self::browse_order`]).
    pub fn filtered_modules<'a>(&self, modules: &'a [RegistryModule]) -> (r: Vec<&'a RegistryModule>)
        ensures
            exists|o: Seq<usize>|
                self.is_browse_order(modules@, o) && r@.len() == o.len() && forall|i: int|
                    0 <= i < o.len() ==> *r@[i] == modules@[#[trigger] o[i] as int],
    {
        let order = self.browse_order(modules);
        let count = modules.len();
        proof {
            self.lemma_kept_positions(modules@);
            assert forall|i: int| 0 <= i < order.len() implies (order@[i] as int) < modules@.len() by {
                assert(order@.contains(order@[i]));
                assert(self.kept_positions(modules@).contains(order@[i]));
            }
        }
        let mut out: Vec<&'a RegistryModule> = Vec::new();
        let mut k: usize = 0;
        while k < order.len()
            invariant
                k <= order.len(),
                self.is_browse_order(modules@, order@),
                forall|i: int| 0 <= i < order.len() ==> (order@[i] as int) < modules@.len(),
                out@.len() == k,
                forall|i: int| 0 <= i < k ==> *out@[i] == modules@[order@[i] as int],
            decreases order.len() - k,
        {
            out.push(&modules[order[k]]);
            k = k + 1;
        }
        out
    }
}

impl BrowseState {
    /// Remembers a typed search, to apply once the debounce delay has passed since `now`.
    pub fn queue_search(&mut self, query: String, now: Moment)
        ensures
            final(self).pending_search matches Some(q) && q@ == query@,
            final(self).search_debounce_start == Some(now),
            final(self).search_query == old(self).search_query,
            final(self).selected_category == old(self).selected_category,
            final(self).verified_only == old(self).verified_only,
            final(self).sort_field == old(self).sort_field,
            final(self).sort_order == old(self).sort_order,
            final(self).view_mode == old(self).view_mode,
            final(self).persisted_view_mode == old(self).persisted_view_mode,
            final(self).refreshing == old(self).refreshing,
            final(self).last_refreshed == old(self).last_refreshed,
    {
        self.pending_search = Some(query);
        self.search_debounce_start = Some(now);
    }

    /// Applies the pending search once at least [`DEBOUNCE_NANOS`] have passed since it was
    /// queued (time going backwards counts as none); before that nothing changes.
    pub fn apply_debounced_searches_at(&mut self, now: Moment)
        ensures
            match old(self).search_debounce_start {
                None => *final(self) == *old(self),
                Some(start) => if now.nanos < start.nanos + DEBOUNCE_NANOS {
                    *final(self) == *old(self)
                } else {
                    &&& final(self).search_debounce_start is None
                    &&& final(self).pending_search is None
                    &&& final(self).search_query == (match old(self).pending_search {
                        Some(q) => q,
                        None => old(self).search_query,
                    })
                    &&& final(self).selected_category == old(self).selected_category
                    &&& final(self).verified_only == old(self).verified_only
                    &&& final(self).sort_field == old(self).sort_field
                    &&& final(self).sort_order == old(self).sort_order
                    &&& final(self).view_mode == old(self).view_mode
                    &&& final(self).persisted_view_mode == old(self).persisted_view_mode
                    &&& final(self).refreshing == old(self).refreshing
                    &&& final(self).last_refreshed == old(self).last_refreshed
                },
            },
    {
        let start = match self.search_debounce_start {
            Some(start) => start,
            None => {
                return;
            },
        };
        let elapsed: u64 = if now.nanos > start.nanos {
            now.nanos - start.nanos
        } else {
            0
        };
        if elapsed < DEBOUNCE_NANOS {
            return;
        }
        let pending = self.pending_search.take();
        if let Some(query) = pending {
            self.search_query = query;
        }
        self.search_debounce_start = None;
    }

    /// The text the search box shows: the pending search if any, else the applied one.
    pub fn search_display(&self) -> (r: &str)
        ensures
            r@ == (match self.pending_search {
                Some(q) => q@,
                None => self.search_query@,
            }),
    {
        match &self.pending_search {
            Some(q) => q.as_str(),
            None => self.search_query.as_str(),
        }
    }

    /// Marks a refresh as running.
    pub fn start_refresh(&mut self)
        ensures
            *final(self) == (BrowseState { refreshing: true, ..*old(self) }),
    {
        self.refreshing = true;
    }

    /// Ends a refresh; a successful one records `now` as the last refresh.
    pub fn finish_refresh(&mut self, success: bool, now: Moment)
        ensures
            *final(self) == (BrowseState {
                refreshing: false,
                last_refreshed: if success {
                    Some(now)
                } else {
                    old(self).last_refreshed
                },
                ..*old(self)
            }),
    {
        self.refreshing = false;
        if success {
            self.last_refreshed = Some(now);
        }
    }

    /// Chooses how the list is shown.
    pub fn set_view_mode(&mut self, mode: ViewMode)
        ensures
            *final(self) == (BrowseState { view_mode: mode, ..*old(self) }),
    {
        self.view_mode = mode;
    }

    /// Records that the current view mode has been saved.
    pub fn mark_view_mode_persisted(&mut self)
        ensures
            *final(self) == (BrowseState { persisted_view_mode: old(self).view_mode, ..*old(self) }),
    {
        self.persisted_view_mode = self.view_mode;
    }

    /// Whether the view mode differs from the saved one.
    pub fn view_mode_dirty(&self) -> (r: bool)
        ensures
            r == (self.view_mode != self.persisted_view_mode),
    {
        self.view_mode != self.persisted_view_mode
    }
}

/// Whether a screenshot is being, or has been, loaded.
#[derive(Debug, Clone, PartialEq, Eq)]
pub enum ScreenshotState {
    NotLoaded,
    Loading,
    Loaded(String),
    Failed,
}

/// Whether a module's reviews are being, or have been, loaded.
#[derive(Debug, Clone, PartialEq, Eq)]
pub enum ReviewsLoadingState {
    NotLoaded,
    Loading,
    Loaded(ReviewsResponse),
    Failed(String),
}

/// The steps of installing a module.
#[derive(Debug, Clone, Copy, PartialEq, Eq, Structural)]
pub enum InstallStage {
    RevocationCheck,
    FetchingSignature,
    DownloadingPackage,
    VerifyingSignature,
    VerifyingHash,
    ExtractingPackage,
    CheckingDependencies,
    RunningInstallScript,
    Complete,
}

/// The text shown for each install step.
pub open spec fn stage_text(stage: InstallStage) -> Seq<char> {
    match stage {
        InstallStage::RevocationCheck => "Checking revocation status"@,
        InstallStage::FetchingSignature => "Fetching signature"@,
        InstallStage::DownloadingPackage => "Downloading package"@,
        InstallStage::VerifyingSignature => "Verifying signature"@,
        InstallStage::VerifyingHash => "Verifying hash"@,
        InstallStage::ExtractingPackage => "Extracting package"@,
        InstallStage::CheckingDependencies => "Checking dependencies"@,
        InstallStage::RunningInstallScript => "Running install script"@,
        InstallStage::Complete => "Installation complete"@,
    }
}

impl InstallStage {
    /// What the step is doing, for the progress line.
    pub fn description(&self) -> (r: &'static str)
        ensures
            r@ == stage_text(*self),
    {
        match self {
            InstallStage::RevocationCheck => "Checking revocation status",
            InstallStage::FetchingSignature => "Fetching signature",
            InstallStage::DownloadingPackage => "Downloading package",
            InstallStage::VerifyingSignature => "Verifying signature",
            InstallStage::VerifyingHash => "Verifying hash",
            InstallStage::ExtractingPackage => "Extracting package",
            InstallStage::CheckingDependencies => "Checking dependencies",
            InstallStage::RunningInstallScript => "Running install script",
            InstallStage::Complete => "Installation complete",
        }
    }
}

/// What a module's detail screen remembers.
#[derive(Debug, Clone)]
pub struct ModuleDetailState {
    pub screenshot: ScreenshotState,
    pub installing: bool,
    pub install_stage: Option<InstallStage>,
    pub reviews: ReviewsLoadingState,
}

impl Default for ModuleDetailState {
    fn default() -> (r: Self)
        ensures
            r.screenshot == ScreenshotState::NotLoaded,
            !r.installing,
            r.install_stage is None,
            r.reviews == ReviewsLoadingState::NotLoaded,
    {
        ModuleDetailState {
            screenshot: ScreenshotState::NotLoaded,
            installing: false,
            install_stage: None,
            reviews: ReviewsLoadingState::NotLoaded,
        }
    }
}

impl ModuleDetailState {
    /// Starts loading the screenshot when the module has one.
    pub fn begin_screenshot_load(&mut self, has_screenshot: bool)
        ensures
            *final(self) == (ModuleDetailState {
                screenshot: if has_screenshot {
                    ScreenshotState::Loading
                } else {
                    ScreenshotState::NotLoaded
                },
                ..*old(self)
            }),
    {
        self.screenshot = if has_screenshot {
            ScreenshotState::Loading
        } else {
            ScreenshotState::NotLoaded
        };
    }

    /// Records how loading the screenshot ended.
    pub fn handle_screenshot_loaded(&mut self, result: Result<String, ()>)
        ensures
            *final(self) == (ModuleDetailState {
                screenshot: match result {
                    Ok(value) => ScreenshotState::Loaded(value),
                    Err(_) => ScreenshotState::Failed,
                },
                ..*old(self)
            }),
    {
        self.screenshot = match result {
            Ok(value) => ScreenshotState::Loaded(value),
            Err(()) => ScreenshotState::Failed,
        };
    }

    /// Marks the reviews as loading.
    pub fn begin_reviews_load(&mut self)
        ensures
            *final(self) == (ModuleDetailState { reviews: ReviewsLoadingState::Loading, ..*old(self) }),
    {
        self.reviews = ReviewsLoadingState::Loading;
    }

    /// Records how loading the reviews ended.
    pub fn handle_reviews_loaded(&mut self, result: Result<ReviewsResponse, String>)
        ensures
            *final(self) == (ModuleDetailState {
                reviews: match result {
                    Ok(reviews) => ReviewsLoadingState::Loaded(reviews),
                    Err(error) => ReviewsLoadingState::Failed(error),
                },
                ..*old(self)
            }),
    {
        self.reviews = match result {
            Ok(reviews) => ReviewsLoadingState::Loaded(reviews),
            Err(error) => ReviewsLoadingState::Failed(error),
        };
    }

    /// Marks an install as running.
    pub fn start_install(&mut self)
        ensures
            *final(self) == (ModuleDetailState { installing: true, ..*old(self) }),
    {
        self.installing = true;
    }

    /// Records the step the install has reached.
    pub fn set_install_stage(&mut self, stage: InstallStage)
        ensures
            *final(self) == (ModuleDetailState { install_stage: Some(stage), ..*old(self) }),
    {
        self.install_stage = Some(stage);
    }

    /// Ends an install; a failed one forgets the step it had reached.
    pub fn finish_install(&mut self, success: bool)
        ensures
            *final(self) == (ModuleDetailState {
                installing: false,
                install_stage: if success {
                    old(self).install_stage
                } else {
                    None
                },
                ..*old(self)
            }),
    {
        self.installing = false;
        if !success {
            self.install_stage = None;
        }
    }

    /// Forgets the loaded screenshot.
    pub fn reset(&mut self)
        ensures
            *final(self) == (ModuleDetailState { screenshot: ScreenshotState::NotLoaded, ..*old(self) }),
    {
        self.screenshot = ScreenshotState::NotLoaded;
    }
}

/// A semantic version as plain values: the three numbers, the pre-release text and the build text
/// (both empty when absent).
#[derive(Debug, Clone, PartialEq, Eq)]
pub struct SemVersion {
    pub major: u64,
    pub minor: u64,
    pub patch: u64,
    pub pre: String,
    pub build: String,
}

impl View for SemVersion {
    type V = (int, int, int, Seq<char>, Seq<char>);

    open spec fn view(&self) -> Self::V {
        (self.major as int, self.minor as int, self.patch as int, self.pre@, self.build@)
    }
}

/// What `semver::Version::parse` makes of `text`: its parts, or none when `text` is no version.
pub uninterp spec fn semver_parse_result(text: Seq<char>) -> Option<(int, int, int, Seq<char>, Seq<char>)>;

/// Whether `semver` orders version `a` after version `b` (`Version`'s `>`).
pub uninterp spec fn semver_newer(
    a: (int, int, int, Seq<char>, Seq<char>),
    b: (int, int, int, Seq<char>, Seq<char>),
) -> bool;

/// `(a0, a1, a2)` is lexicographically after `(b0, b1, b2)`.
pub open spec fn core_after(a: (int, int, int, Seq<char>, Seq<char>), b: (int, int, int, Seq<char>, Seq<char>)) -> bool {
    a.0 > b.0 || (a.0 == b.0 && (a.1 > b.1 || (a.1 == b.1 && a.2 > b.2)))
}

/// `semver::Version::parse`, its result taken apart into plain values.
#[verifier::external_body]
fn semver_parse(text: &str) -> (r: Option<SemVersion>)
    ensures
        match r {
            Some(v) => semver_parse_result(text@) == Some(v@),
            None => semver_parse_result(text@) is None,
        },
{
    semver::Version::parse(text).ok().map(
        |v| SemVersion {
            major: v.major,
            minor: v.minor,
            patch: v.patch,
            pre: v.pre.as_str().to_string(),
            build: v.build.as_str().to_string(),
        },
    )
}

/// `>` on `semver::Version`s built from the parts (a part `semver` refuses counts as empty).
/// `Version` derives its order field by field — major, minor, patch, then pre-release and build —
/// so the three numbers decide whenever they differ, and a version is never after itself; how
/// pre-release and build texts compare is left to the name `semver_newer`.
#[verifier::external_body]
fn semver_greater(a: &SemVersion, b: &SemVersion) -> (r: bool)
    ensures
        r == semver_newer(a@, b@),
        core_after(a@, b@) ==> r,
        core_after(b@, a@) ==> !r,
        a@ == b@ ==> !r,
{
    let va = semver::Version {
        major: a.major,
        minor: a.minor,
        patch: a.patch,
        pre: semver::Prerelease::new(&a.pre).unwrap_or(semver::Prerelease::EMPTY),
        build: semver::BuildMetadata::new(&a.build).unwrap_or(semver::BuildMetadata::EMPTY),
    };
    let vb = semver::Version {
        major: b.major,
        minor: b.minor,
        patch: b.patch,
        pre: semver::Prerelease::new(&b.pre).unwrap_or(semver::Prerelease::EMPTY),
        build: semver::BuildMetadata::new(&b.build).unwrap_or(semver::BuildMetadata::EMPTY),
    };
    va > vb
}

impl SemVersion {
    /// Reads a semantic version; none when `text` is not one.
    pub fn parse(text: &str) -> (r: Option<SemVersion>)
        ensures
            match r {
                Some(v) => semver_parse_result(text@) == Some(v@),
                None => semver_parse_result(text@) is None,
            },
    {
        semver_parse(text)
    }
}

/// A module installed on this machine and the newest version the registry offers.
#[derive(Debug, Clone, PartialEq, Eq)]
pub struct InstalledModule {
    pub name: String,
    pub installed_version: SemVersion,
    pub registry_version: Option<SemVersion>,
}

/// The registry offers a version newer than the installed one.
pub open spec fn spec_has_update(m: InstalledModule) -> bool {
    match m.registry_version {
        Some(v) => semver_newer(v@, m.installed_version@),
        None => false,
    }
}

impl InstalledModule {
    /// Whether the registry offers a newer version.
    pub fn has_update(&self) -> (r: bool)
        ensures
            r == spec_has_update(*self),
            self.registry_version is None ==> !r,
            self.registry_version matches Some(v) && core_after(v@, self.installed_version@) ==> r,
            self.registry_version matches Some(v) && core_after(self.installed_version@, v@) ==> !r,
            self.registry_version matches Some(v) && v@ == self.installed_version@ ==> !r,
    {
        match &self.registry_version {
            Some(version) => semver_greater(version, &self.installed_version),
            None => false,
        }
    }
}

/// The installed modules.
#[derive(Debug, Clone)]
pub struct InstalledState {
    pub modules: Vec<InstalledModule>,
}

/// Installed modules that have an update, in list order.
pub open spec fn with_updates(ms: Seq<InstalledModule>) -> Seq<InstalledModule>
    decreases ms.len(),
{
    if ms.len() == 0 {
        Seq::empty()
    } else if spec_has_update(ms.last()) {
        with_updates(ms.drop_last()).push(ms.last())
    } else {
        with_updates(ms.drop_last())
    }
}

impl InstalledState {
    /// The modules that have an update, in list order.
    pub fn modules_with_updates(&self) -> (r: Vec<&InstalledModule>)
        ensures
            r@.len() == with_updates(self.modules@).len(),
            forall|i: int| 0 <= i < r@.len() ==> *r@[i] == with_updates(self.modules@)[i],
    {
        let mut out: Vec<&InstalledModule> = Vec::new();
        let mut i: usize = 0;
        while i < self.modules.len()
            invariant
                i <= self.modules.len(),
                out@.len() == with_updates(self.modules@.take(i as int)).len(),
                forall|j: int|
                    0 <= j < out@.len() ==> *out@[j] == with_updates(self.modules@.take(i as int))[j],
            decreases self.modules.len() - i,
        {
            let m = &self.modules[i];
            assert(self.modules@.take(i + 1).drop_last() == self.modules@.take(i as int));
            assert(self.modules@.take(i + 1).last() == *m);
            if m.has_update() {
                out.push(m);
            }
            i = i + 1;
        }
        assert(self.modules@.take(self.modules.len() as int) == self.modules@);
        out
    }

    /// How many modules have an update.
    pub fn update_count(&self) -> (r: usize)
        ensures
            r == with_updates(self.modules@).len(),
    {
        let mut count: usize = 0;
        let mut i: usize = 0;
        while i < self.modules.len()
            invariant
                i <= self.modules.len(),
                count == with_updates(self.modules@.take(i as int)).len(),
                count <= i,
            decreases self.modules.len() - i,
        {
            let m = &self.modules[i];
            assert(self.modules@.take(i + 1).drop_last() == self.modules@.take(i as int));
            assert(self.modules@.take(i + 1).last() == *m);
            if m.has_update() {
                count = count + 1;
            }
            i = i + 1;
        }
        assert(self.modules@.take(self.modules.len() as int) == self.modules@);
        count
    }
}

/// No more modules have an update than are installed.
pub proof fn lemma_updates_at_most_installed(state: InstalledState)
    ensures
        with_updates(state.modules@).len() <= state.modules@.len(),
{
    lemma_with_updates_len(state.modules@);
}

proof fn lemma_with_updates_len(ms: Seq<InstalledModule>)
    ensures
        with_updates(ms).len() <= ms.len(),
    decreases ms.len(),
{
    if ms.len() > 0 {
        lemma_with_updates_len(ms.drop_last());
    }
}

/// The updates screen's summary: how many updates there are, or that all modules are current.
pub open spec fn updates_summary_text(count: nat) -> Seq<char> {
    if count > 0 {
        crate::text::nat_decimal(count) + " update"@ + (if count == 1 {
            ""@
        } else {
            "s"@
        }) + " available"@
    } else {
        "All modules are up to date"@
    }
}

/// The updates screen's summary (see [`updates_summary_text`]).
pub fn updates_summary(update_count: usize) -> (r: String)
    ensures
        r@ == updates_summary_text(update_count as nat),
{
    if update_count > 0 {
        let mut r = String::new();
        crate::text::push_decimal(&mut r, update_count as u64);
        r.append(" update");
        if update_count != 1 {
            r.append("s");
        } else {
            proof {
                reveal_strlit("");
            }
        }
        r.append(" available");
        r
    } else {
        "All modules are up to date".to_string()
    }
}

/// The label of the update-all button: busy while updating, else how many updates it applies,
/// or that there are none.
pub fn update_all_label(updating_all: bool, update_count: usize) -> (r: String)
    ensures
        r@ == (if updating_all {
            "Updating..."@
        } else if update_count > 0 {
            "Update All ("@ + crate::text::nat_decimal(update_count as nat) + ")"@
        } else {
            "No Updates"@
        }),
{
    if updating_all {
        "Updating...".to_string()
    } else if update_count > 0 {
        let mut r = "Update All (".to_string();
        crate::text::push_decimal(&mut r, update_count as u64);
        r.append(")");
        r
    } else {
        "No Updates".to_string()
    }
}

/// The progress line of the module screen: the stage's description while installing.
pub fn install_stage_line(installing: bool, stage: Option<InstallStage>) -> (r: Option<&'static str>)
    ensures
        match r {
            Some(t) => installing && (stage matches Some(s) && t@ == stage_text(s)),
            None => !installing || stage is None,
        },
{
    if installing {
        match stage {
            Some(s) => Some(s.description()),
            None => None,
        }
    } else {
        None
    }
}

} // verus!
