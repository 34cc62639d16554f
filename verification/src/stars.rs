//! The visitor's starred modules: a set of module identifiers kept in the browser and merged
//! with the server's list once the visitor signs in.
use vstd::prelude::*;

use crate::model::{copy_module, same_module, same_modules, RegistryModule};
use crate::text::{str_eq, string_views};

verus! {

broadcast use vstd::string::group_string_axioms;

/// Whether the cached module records should be dropped: nothing is starred but some are cached.
pub fn should_clear_cached_modules(starred_empty: bool, cached_empty: bool) -> (r: bool)
    ensures
        r == (starred_empty && !cached_empty),
{
    starred_empty && !cached_empty
}

/// How long after a sync with the server another one is not started, in milliseconds.
pub const SYNC_INTERVAL_MS: u64 = 30000;

/// What the stars do once the visitor's signed-in state is set.
#[derive(Debug, Clone, Copy, PartialEq, Eq, Structural)]
pub enum AuthFollowUp {
    /// The state did not change.
    Nothing,
    /// The visitor signed in: merge with the server's stars.
    SyncWithServer,
    /// The visitor signed out: reload the records of the locally starred modules.
    RefreshLocal,
}

/// What the stars do when the signed-in state goes from `was` to `now`.
pub fn auth_follow_up(was: bool, now: bool) -> (r: AuthFollowUp)
    ensures
        r == (if was == now {
            AuthFollowUp::Nothing
        } else if now {
            AuthFollowUp::SyncWithServer
        } else {
            AuthFollowUp::RefreshLocal
        }),
{
    if was == now {
        AuthFollowUp::Nothing
    } else if now {
        AuthFollowUp::SyncWithServer
    } else {
        AuthFollowUp::RefreshLocal
    }
}

/// What a toggle does once the local set is updated.
#[derive(Debug, Clone, Copy, PartialEq, Eq, Structural)]
pub enum ToggleFollowUp {
    /// Signed out: reload the records of the locally starred modules.
    RefreshLocal,
    /// Signed in: star the module on the server (restoring the old state if that fails).
    StarOnServer,
    /// Signed in: unstar the module on the server (restoring the old state if that fails).
    UnstarOnServer,
}

/// What a toggle of a module that `was_starred` does, signed in or not.
pub fn toggle_follow_up(authenticated: bool, was_starred: bool) -> (r: ToggleFollowUp)
    ensures
        r == (if !authenticated {
            ToggleFollowUp::RefreshLocal
        } else if was_starred {
            ToggleFollowUp::UnstarOnServer
        } else {
            ToggleFollowUp::StarOnServer
        }),
{
    if !authenticated {
        ToggleFollowUp::RefreshLocal
    } else if was_starred {
        ToggleFollowUp::UnstarOnServer
    } else {
        ToggleFollowUp::StarOnServer
    }
}

/// Whether a sync with the server starts: not while one runs, and not within
/// [`SYNC_INTERVAL_MS`] of the last one (`since_last_ms`, when there was one).
pub fn sync_due(syncing: bool, since_last_ms: Option<u64>) -> (r: bool)
    ensures
        r == (!syncing && match since_last_ms {
            Some(ms) => ms >= SYNC_INTERVAL_MS,
            None => true,
        }),
{
    if syncing {
        return false;
    }
    match since_last_ms {
        Some(ms) => ms >= SYNC_INTERVAL_MS,
        None => true,
    }
}

/// What reloading the records of the locally starred modules does.
#[derive(Debug, Clone, Copy, PartialEq, Eq, Structural)]
pub enum LocalRefresh {
    /// Nothing: a sync runs, or nothing is starred and nothing is cached.
    Skip,
    /// Nothing is starred: drop the cached records.
    ClearCache,
    /// Fetch the record of each starred module.
    Fetch,
}

/// What reloading the local records does, given whether a sync runs, whether anything is
/// starred, and whether anything is cached.
pub fn local_refresh(syncing: bool, starred_empty: bool, cached_empty: bool) -> (r: LocalRefresh)
    ensures
        r == (if syncing {
            LocalRefresh::Skip
        } else if !starred_empty {
            LocalRefresh::Fetch
        } else if !cached_empty {
            LocalRefresh::ClearCache
        } else {
            LocalRefresh::Skip
        }),
{
    if syncing {
        LocalRefresh::Skip
    } else if !starred_empty {
        LocalRefresh::Fetch
    } else if should_clear_cached_modules(true, cached_empty) {
        LocalRefresh::ClearCache
    } else {
        LocalRefresh::Skip
    }
}

/// `s` with `uuid` starred or not, as `should_star` says.
pub open spec fn starred_as(s: Set<Seq<char>>, uuid: Seq<char>, should_star: bool) -> Set<
    Seq<char>,
> {
    if should_star {
        s.insert(uuid)
    } else {
        s.remove(uuid)
    }
}

/// `s` with the star on `uuid` flipped.
pub open spec fn toggled(s: Set<Seq<char>>, uuid: Seq<char>) -> Set<Seq<char>> {
    starred_as(s, uuid, !s.contains(uuid))
}

proof fn lemma_views_push(v: Seq<String>, a: String)
    ensures
        string_views(v.push(a)) == string_views(v).push(a@),
{
    assert(string_views(v.push(a)) =~= string_views(v).push(a@));
}

proof fn lemma_push_to_set(s: Seq<Seq<char>>, x: Seq<char>)
    ensures
        s.push(x).to_set() == s.to_set().insert(x),
        s.no_duplicates() && !s.contains(x) ==> s.push(x).no_duplicates(),
{
    let t = s.push(x);
    assert forall|y: Seq<char>| #[trigger] t.to_set().contains(y) == s.to_set().insert(x).contains(
        y,
    ) by {
        if t.contains(y) {
            let j = choose|j: int| 0 <= j < t.len() && t[j] == y;
            if j < s.len() {
                assert(s[j] == y);
            }
        }
        if s.contains(y) {
            let j = choose|j: int| 0 <= j < s.len() && s[j] == y;
            assert(t[j] == y);
        }
        if y == x {
            assert(t[s.len() as int] == x);
        }
    }
    assert(t.to_set() =~= s.to_set().insert(x));
    if s.no_duplicates() && !s.contains(x) {
        assert forall|i: int, j: int| 0 <= i < t.len() && 0 <= j < t.len() && i != j implies t[i]
            != t[j] by {
            if i == s.len() {
                assert(s[j] == t[j]);
            } else if j == s.len() {
                assert(s[i] == t[i]);
            }
        }
    }
}

/// A set of starred module identifiers.
pub struct StarredSet {
    ids: Vec<String>,
}

impl View for StarredSet {
    type V = Set<Seq<char>>;

    closed spec fn view(&self) -> Set<Seq<char>> {
        string_views(self.ids@).to_set()
    }
}

impl StarredSet {
    /// Each identifier is held once.
    #[verifier::type_invariant]
    spec fn wf(&self) -> bool {
        string_views(self.ids@).no_duplicates()
    }

    /// No module starred.
    pub fn new() -> (s: Self)
        ensures
            s@ == Set::<Seq<char>>::empty(),
    {
        let ids: Vec<String> = Vec::new();
        assert(string_views(ids@) =~= Seq::<Seq<char>>::empty());
        let s = StarredSet { ids };
        assert(s@ =~= Set::<Seq<char>>::empty());
        s
    }

    /// The set holding the given identifiers (each once, however often it is listed).
    pub fn from_ids(ids: &Vec<String>) -> (s: Self)
        ensures
            s@ == string_views(ids@).to_set(),
    {
        let mut s = Self::new();
        let mut i: usize = 0;
        while i < ids.len()
            invariant
                i <= ids@.len(),
                s@ == string_views(ids@.take(i as int)).to_set(),
            decreases ids@.len() - i,
        {
            s.insert(ids[i].as_str());
            proof {
                assert(ids@.take(i + 1) =~= ids@.take(i as int).push(ids@[i as int]));
                lemma_views_push(ids@.take(i as int), ids@[i as int]);
                lemma_push_to_set(string_views(ids@.take(i as int)), ids@[i as int]@);
            }
            i = i + 1;
        }
        assert(ids@.take(ids@.len() as int) =~= ids@);
        s
    }

    /// Moves the identifiers out, leaving the set empty.
    fn take_ids(&mut self) -> (ids: Vec<String>)
        ensures
            ids@ == old(self).ids@,
            final(self).ids@.len() == 0,
    {
        let mut ids: Vec<String> = Vec::new();
        assert(string_views(ids@) =~= Seq::<Seq<char>>::empty());
        std::mem::swap(&mut ids, &mut self.ids);
        ids
    }

    fn position(&self, uuid: &str) -> (r: Option<usize>)
        ensures
            match r {
                Some(i) => i < self.ids@.len() && self.ids@[i as int]@ == uuid@,
                None => !self@.contains(uuid@),
            },
    {
        let mut i: usize = 0;
        while i < self.ids.len()
            invariant
                i <= self.ids@.len(),
                forall|j: int| 0 <= j < i ==> #[trigger] self.ids@[j]@ != uuid@,
            decreases self.ids@.len() - i,
        {
            if str_eq(self.ids[i].as_str(), uuid) {
                return Some(i);
            }
            i = i + 1;
        }
        assert(!string_views(self.ids@).contains(uuid@)) by {
            if string_views(self.ids@).contains(uuid@) {
                let j = choose|j: int|
                    0 <= j < string_views(self.ids@).len() && string_views(self.ids@)[j]
                        == uuid@;
                assert(self.ids@[j]@ == uuid@);
            }
        }
        None
    }

    /// Whether `uuid` is starred.
    pub fn contains(&self, uuid: &str) -> (r: bool)
        ensures
            r == self@.contains(uuid@),
    {
        match self.position(uuid) {
            Some(i) => {
                assert(string_views(self.ids@)[i as int] == uuid@);
                true
            },
            None => false,
        }
    }

    /// Whether nothing is starred.
    pub fn is_empty(&self) -> (r: bool)
        ensures
            r == (self@ == Set::<Seq<char>>::empty()),
    {
        if self.ids.len() == 0 {
            assert(self@ =~= Set::<Seq<char>>::empty());
            true
        } else {
            assert(self@.contains(string_views(self.ids@)[0]));
            false
        }
    }

    /// Stars `uuid`.
    pub fn insert(&mut self, uuid: &str)
        ensures
            final(self)@ == old(self)@.insert(uuid@),
    {
        proof {
            use_type_invariant(&*self);
        }
        match self.position(uuid) {
            None => {
                let mut ids = self.take_ids();
                let ghost before = ids@;
                let item = uuid.to_string();
                ids.push(item);
                proof {
                    lemma_views_push(before, item);
                    lemma_push_to_set(string_views(before), uuid@);
                }
                self.ids = ids;
            },
            Some(i) => {
                assert(string_views(self.ids@)[i as int] == uuid@);
                assert(self@ =~= old(self)@.insert(uuid@));
            },
        }
    }

    /// Takes the star off `uuid`.
    pub fn remove(&mut self, uuid: &str)
        ensures
            final(self)@ == old(self)@.remove(uuid@),
    {
        proof {
            use_type_invariant(&*self);
        }
        match self.position(uuid) {
            Some(i) => {
                let mut ids = self.take_ids();
                let ghost before = string_views(ids@);
                ids.remove(i);
                let ghost after = string_views(ids@);
                assert(after =~= before.remove(i as int));
                assert forall|x: Seq<char>| #[trigger] after.contains(x) == (before.contains(x)
                    && x != uuid@) by {
                    if after.contains(x) {
                        let j = choose|j: int| 0 <= j < after.len() && after[j] == x;
                        let k = if j < i {
                            j
                        } else {
                            j + 1
                        };
                        assert(before[k] == x);
                        assert(before[i as int] == uuid@);
                        assert(k != i);
                    }
                    if before.contains(x) && x != uuid@ {
                        let j = choose|j: int| 0 <= j < before.len() && before[j] == x;
                        if j < i {
                            assert(after[j] == x);
                        } else {
                            assert(j != i);
                            assert(after[j - 1] == x);
                        }
                    }
                }
                assert(after.no_duplicates()) by {
                    assert forall|a: int, b: int|
                        0 <= a < after.len() && 0 <= b < after.len() && a != b implies after[a]
                        != after[b] by {
                        let ka = if a < i { a } else { a + 1 };
                        let kb = if b < i { b } else { b + 1 };
                        assert(before[ka] == after[a]);
                        assert(before[kb] == after[b]);
                    }
                }
                self.ids = ids;
                assert(self@ =~= old(self)@.remove(uuid@));
            },
            None => {
                assert(self@ =~= old(self)@.remove(uuid@));
            },
        }
    }

    /// Stars or unstars `uuid` as `should_star` says.
    pub fn update_starred(&mut self, uuid: &str, should_star: bool)
        ensures
            final(self)@ == starred_as(old(self)@, uuid@, should_star),
    {
        if should_star {
            self.insert(uuid);
        } else {
            self.remove(uuid);
        }
    }

    /// Flips the star on `uuid`; says whether it was starred before.
    pub fn toggle(&mut self, uuid: &str) -> (was_starred: bool)
        ensures
            was_starred == old(self)@.contains(uuid@),
            final(self)@ == toggled(old(self)@, uuid@),
    {
        let was_starred = self.contains(uuid);
        self.update_starred(uuid, !was_starred);
        was_starred
    }

    /// The starred identifiers, each once, in no promised order.
    pub fn ids(&self) -> (r: Vec<String>)
        ensures
            string_views(r@).no_duplicates(),
            string_views(r@).to_set() == self@,
    {
        proof {
            use_type_invariant(self);
        }
        let mut r: Vec<String> = Vec::new();
        let mut i: usize = 0;
        while i < self.ids.len()
            invariant
                i <= self.ids@.len(),
                string_views(r@) == string_views(self.ids@).take(i as int),
            decreases self.ids@.len() - i,
        {
            let ghost before = r@;
            let item = self.ids[i].clone();
            r.push(item);
            proof {
                lemma_views_push(before, item);
                assert(string_views(self.ids@).take(i + 1) =~= string_views(self.ids@).take(
                    i as int,
                ).push(self.ids@[i as int]@));
            }
            i = i + 1;
        }
        assert(string_views(self.ids@).take(self.ids@.len() as int) =~= string_views(
            self.ids@,
        ));
        r
    }

    /// Adds the server's stars to the local ones; returns the stars that only this browser
    /// held, which still have to be sent to the server.
    pub fn merge_server(&mut self, server_ids: &Vec<String>) -> (local_only: Vec<String>)
        ensures
            final(self)@ == old(self)@.union(string_views(server_ids@).to_set()),
            string_views(local_only@).no_duplicates(),
            string_views(local_only@).to_set() == old(self)@.difference(
                string_views(server_ids@).to_set(),
            ),
    {
        proof {
            use_type_invariant(&*self);
        }
        let server = Self::from_ids(server_ids);
        let ghost server_set = string_views(server_ids@).to_set();
        let mut local_only: Vec<String> = Vec::new();
        let mut i: usize = 0;
        while i < self.ids.len()
            invariant
                i <= self.ids@.len(),
                server@ == server_set,
                string_views(self.ids@).no_duplicates(),
                string_views(local_only@).no_duplicates(),
                string_views(local_only@).to_set() == string_views(self.ids@).take(
                    i as int,
                ).to_set().difference(server_set),
                forall|x: Seq<char>| #[trigger]
                    string_views(local_only@).contains(x) ==> string_views(self.ids@).take(
                        i as int,
                    ).contains(x),
            decreases self.ids@.len() - i,
        {
            let ghost before = string_views(local_only@);
            let ghost pre = string_views(self.ids@).take(i as int);
            let ghost x = self.ids@[i as int]@;
            assert(string_views(self.ids@).take(i + 1) =~= pre.push(x));
            assert(!pre.contains(x)) by {
                if pre.contains(x) {
                    let j = choose|j: int| 0 <= j < pre.len() && pre[j] == x;
                    assert(string_views(self.ids@)[j] == string_views(self.ids@)[i as int]);
                }
            }
            proof {
                lemma_push_to_set(pre, x);
                assert(!before.contains(x));
                lemma_push_to_set(before, x);
            }
            if !server.contains(self.ids[i].as_str()) {
                let ghost lo = local_only@;
                let item = self.ids[i].clone();
                local_only.push(item);
                proof {
                    lemma_views_push(lo, item);
                }
                assert(string_views(local_only@).to_set() =~= pre.push(x).to_set().difference(
                    server_set,
                ));
            } else {
                assert(string_views(local_only@).to_set() =~= pre.push(x).to_set().difference(
                    server_set,
                ));
            }
            assert forall|y: Seq<char>| #[trigger]
                string_views(local_only@).contains(y) implies pre.push(x).contains(y) by {
                let lo = string_views(local_only@);
                let j = choose|j: int| 0 <= j < lo.len() && lo[j] == y;
                if j < before.len() {
                    assert(before[j] == y);
                    assert(before.contains(y));
                    assert(pre.contains(y));
                    let t = choose|t: int| 0 <= t < pre.len() && pre[t] == y;
                    assert(pre.push(x)[t] == y);
                } else {
                    assert(pre.push(x)[pre.len() as int] == x);
                }
            }
            i = i + 1;
        }
        assert(string_views(self.ids@).take(self.ids@.len() as int) =~= string_views(
            self.ids@,
        ));
        let ghost old_set = self@;
        let mut k: usize = 0;
        while k < server_ids.len()
            invariant
                k <= server_ids@.len(),
                self@ == old_set.union(string_views(server_ids@.take(k as int)).to_set()),
            decreases server_ids@.len() - k,
        {
            self.insert(server_ids[k].as_str());
            proof {
                assert(server_ids@.take(k + 1) =~= server_ids@.take(k as int).push(
                    server_ids@[k as int],
                ));
                lemma_views_push(server_ids@.take(k as int), server_ids@[k as int]);
                lemma_push_to_set(string_views(server_ids@.take(k as int)), server_ids@[k as int]@);
            }
            assert(old_set.union(string_views(server_ids@.take(k + 1)).to_set()) =~= old_set.union(
                string_views(server_ids@.take(k as int)).to_set(),
            ).insert(server_ids@[k as int]@));
            k = k + 1;
        }
        assert(server_ids@.take(server_ids@.len() as int) =~= server_ids@);
        local_only
    }
}

/// Putting back the state a star had before a flip undoes the flip (what happens when the
/// server refuses a star change).
pub proof fn lemma_restore_undoes_toggle(s: Set<Seq<char>>, uuid: Seq<char>)
    ensures
        starred_as(toggled(s, uuid), uuid, s.contains(uuid)) == s,
{
    assert(starred_as(toggled(s, uuid), uuid, s.contains(uuid)) =~= s);
}

/// Flipping a star twice changes nothing.
pub proof fn lemma_toggle_twice(s: Set<Seq<char>>, uuid: Seq<char>)
    ensures
        toggled(toggled(s, uuid), uuid) == s,
{
    assert(toggled(toggled(s, uuid), uuid) =~= s);
}

/// The modules of `cached` whose identifiers are in `starred`, in order.
pub open spec fn starred_of(cached: Seq<RegistryModule>, starred: Set<Seq<char>>) -> Seq<
    RegistryModule,
>
    decreases cached.len(),
{
    if cached.len() == 0 {
        cached
    } else {
        let rest = starred_of(cached.drop_last(), starred);
        if starred.contains(cached.last().uuid@) {
            rest.push(cached.last())
        } else {
            rest
        }
    }
}

/// The modules the stars page lists: the cached records of the starred modules, in order.
pub fn starred_modules(cached: &[RegistryModule], starred: &StarredSet) -> (r: Vec<RegistryModule>)
    ensures
        same_modules(r@, starred_of(cached@, starred@)),
{
    let mut r: Vec<RegistryModule> = Vec::new();
    let mut i: usize = 0;
    while i < cached.len()
        invariant
            i <= cached@.len(),
            same_modules(r@, starred_of(cached@.take(i as int), starred@)),
        decreases cached@.len() - i,
    {
        assert(cached@.take(i + 1).drop_last() =~= cached@.take(i as int));
        if starred.contains(cached[i].uuid.as_str()) {
            let ghost before = r@;
            r.push(copy_module(&cached[i]));
            proof {
                let target = starred_of(cached@.take(i + 1), starred@);
                assert forall|k: int| 0 <= k < r@.len() implies same_module(
                    #[trigger] r@[k],
                    target[k],
                ) by {
                    if k < before.len() {
                        assert(r@[k] == before[k]);
                    }
                }
            }
        }
        i = i + 1;
    }
    assert(cached@.take(cached@.len() as int) =~= cached@);
    r
}

} // verus!
