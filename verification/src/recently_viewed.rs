//! The list of recently viewed modules: newest first, each module once, at most ten.
use vstd::prelude::*;

use crate::model::{ModuleCategory, RegistryModule};
use crate::text::{chars_of, str_eq};

verus! {

broadcast use vstd::string::group_string_axioms;

/// How many modules the list keeps.
pub const MAX_RECENT: usize = 10;

/// A module the visitor looked at, and when (milliseconds since the epoch).
#[derive(Debug, Clone, PartialEq, Eq)]
pub struct RecentModule {
    pub uuid: String,
    pub name: String,
    pub author: String,
    pub description: String,
    pub category: ModuleCategory,
    pub downloads: i64,
    pub verified_author: bool,
    pub version: Option<String>,
    pub viewed_at: i64,
}

/// ASCII hexadecimal digit.
pub open spec fn spec_is_hex(c: char) -> bool {
    ('0' <= c && c <= '9') || ('a' <= c && c <= 'f') || ('A' <= c && c <= 'F')
}

/// Looks like a UUID: 36 characters, `-` at positions 8, 13, 18 and 23, hex digits elsewhere.
pub open spec fn spec_is_uuid_like(v: Seq<char>) -> bool {
    v.len() == 36 && forall|i: int|
        0 <= i < 36 ==> if i == 8 || i == 13 || i == 18 || i == 23 {
            #[trigger] v[i] == '-'
        } else {
            spec_is_hex(v[i])
        }
}

/// Looks like a module slug: something, `@`, something (split at the first `@`).
pub open spec fn spec_is_slug_like(v: Seq<char>) -> bool {
    exists|i: int|
        0 < i < v.len() - 1 && v[i] == '@' && forall|j: int| 0 <= j < i ==> #[trigger] v[j] != '@'
}

/// A module identifier the list accepts.
pub open spec fn spec_is_valid_uuid(v: Seq<char>) -> bool {
    spec_is_uuid_like(v) || spec_is_slug_like(v)
}

fn is_hex(c: char) -> (r: bool)
    ensures
        r == spec_is_hex(c),
{
    ('0' <= c && c <= '9') || ('a' <= c && c <= 'f') || ('A' <= c && c <= 'F')
}

/// Whether `value` looks like a UUID.
pub fn is_uuid_like(value: &str) -> (r: bool)
    ensures
        r == spec_is_uuid_like(value@),
{
    let v = chars_of(value);
    if v.len() != 36 {
        return false;
    }
    let mut i: usize = 0;
    while i < 36
        invariant
            i <= 36,
            v@.len() == 36,
            v@ == value@,
            forall|k: int|
                0 <= k < i ==> if k == 8 || k == 13 || k == 18 || k == 23 {
                    #[trigger] v@[k] == '-'
                } else {
                    spec_is_hex(v@[k])
                },
        decreases 36 - i,
    {
        let c = v[i];
        assert(v@[i as int] == c);
        if i == 8 || i == 13 || i == 18 || i == 23 {
            if c != '-' {
                return false;
            }
        } else if !is_hex(c) {
            return false;
        }
        i = i + 1;
    }
    true
}

/// Whether `value` looks like a module slug.
pub fn is_slug_like(value: &str) -> (r: bool)
    ensures
        r == spec_is_slug_like(value@),
{
    let v = chars_of(value);
    let mut at: usize = 0;
    while at < v.len() && v[at] != '@'
        invariant
            at <= v.len(),
            forall|j: int| 0 <= j < at ==> v@[j] != '@',
        decreases v.len() - at,
    {
        at = at + 1;
    }
    if at == v.len() {
        assert forall|i: int| 0 < i < v@.len() - 1 && v@[i] == '@' implies !(forall|j: int|
            0 <= j < i ==> #[trigger] v@[j] != '@') by {}
        return false;
    }
    let r = at > 0 && at + 1 < v.len();
    if !r {
        assert forall|i: int| 0 < i < v@.len() - 1 && v@[i] == '@' implies !(forall|j: int|
            0 <= j < i ==> #[trigger] v@[j] != '@') by {
            if i > at {
                assert(v@[at as int] == '@');
            }
        }
    }
    r
}

/// Whether the list accepts `value` as a module identifier.
pub fn is_valid_uuid(value: &str) -> (r: bool)
    ensures
        r == spec_is_valid_uuid(value@),
{
    is_uuid_like(value) || is_slug_like(value)
}

/// `items` without the entries for `uuid`, in order.
pub open spec fn without_uuid(items: Seq<RecentModule>, uuid: Seq<char>) -> Seq<RecentModule>
    decreases items.len(),
{
    if items.len() == 0 {
        Seq::empty()
    } else if items.last().uuid@ == uuid {
        without_uuid(items.drop_last(), uuid)
    } else {
        without_uuid(items.drop_last(), uuid).push(items.last())
    }
}

/// At most the first `n` entries of `s`.
pub open spec fn at_most<A>(s: Seq<A>, n: int) -> Seq<A> {
    if s.len() <= n {
        s
    } else {
        s.take(n)
    }
}

/// The list after viewing `module`: it goes first, its older entry leaves, and the list is cut
/// to ten; a module whose identifier the list does not accept changes nothing.
pub open spec fn spec_add(items: Seq<RecentModule>, module: RecentModule) -> Seq<RecentModule> {
    if spec_is_valid_uuid(module.uuid@) {
        seq![module] + at_most(without_uuid(items, module.uuid@), MAX_RECENT - 1)
    } else {
        items
    }
}

proof fn lemma_without_uuid_prefix(items: Seq<RecentModule>, uuid: Seq<char>, k: int)
    requires
        0 <= k < items.len(),
    ensures
        without_uuid(items.take(k + 1), uuid) == if items[k].uuid@ == uuid {
            without_uuid(items.take(k), uuid)
        } else {
            without_uuid(items.take(k), uuid).push(items[k])
        },
{
    assert(items.take(k + 1).drop_last() == items.take(k));
}

proof fn lemma_without_uuid_len(items: Seq<RecentModule>, uuid: Seq<char>)
    ensures
        without_uuid(items, uuid).len() <= items.len(),
    decreases items.len(),
{
    if items.len() > 0 {
        lemma_without_uuid_len(items.drop_last(), uuid);
    }
}

proof fn lemma_without_uuid_grows(items: Seq<RecentModule>, uuid: Seq<char>, k: int, n: int)
    requires
        0 <= k <= n <= items.len(),
    ensures
        without_uuid(items.take(n), uuid).len() >= without_uuid(items.take(k), uuid).len(),
        without_uuid(items.take(n), uuid).take(without_uuid(items.take(k), uuid).len() as int)
            == without_uuid(items.take(k), uuid),
    decreases n - k,
{
    if k < n {
        lemma_without_uuid_grows(items, uuid, k, n - 1);
        lemma_without_uuid_prefix(items, uuid, n - 1);
        let a = without_uuid(items.take(k), uuid);
        let b = without_uuid(items.take(n - 1), uuid);
        let c = without_uuid(items.take(n), uuid);
        if items[n - 1].uuid@ != uuid {
            assert(c.take(a.len() as int) =~= b.take(a.len() as int));
        }
    } else {
        assert(without_uuid(items.take(n), uuid).take(
            without_uuid(items.take(k), uuid).len() as int,
        ) =~= without_uuid(items.take(k), uuid));
    }
}

fn copy_recent(m: &RecentModule) -> (r: RecentModule)
    ensures
        r == *m,
{
    RecentModule {
        uuid: m.uuid.clone(),
        name: m.name.clone(),
        author: m.author.clone(),
        description: m.description.clone(),
        category: m.category,
        downloads: m.downloads,
        verified_author: m.verified_author,
        version: m.version.clone(),
        viewed_at: m.viewed_at,
    }
}

/// The list after viewing `module` (see [`spec_add`]).
pub fn add_recent(items: &Vec<RecentModule>, module: RecentModule) -> (r: Vec<RecentModule>)
    ensures
        r@ == spec_add(items@, module),
{
    if !is_valid_uuid(module.uuid.as_str()) {
        let mut same: Vec<RecentModule> = Vec::new();
        let mut i: usize = 0;
        while i < items.len()
            invariant
                i <= items.len(),
                same@ == items@.take(i as int),
            decreases items.len() - i,
        {
            same.push(copy_recent(&items[i]));
            i = i + 1;
            assert(same@ =~= items@.take(i as int));
        }
        assert(items@.take(items.len() as int) == items@);
        return same;
    }
    let ghost uuid = module.uuid@;
    let mut next: Vec<RecentModule> = Vec::new();
    next.push(module);
    let mut i: usize = 0;
    while i < items.len()
        invariant
            i <= items.len(),
            uuid == next@[0].uuid@,
            uuid == module.uuid@,
            spec_is_valid_uuid(module.uuid@),
            next@.len() >= 1,
            next@[0] == module,
            next@.len() < MAX_RECENT,
            next@.drop_first() == without_uuid(items@.take(i as int), uuid),
        decreases items.len() - i,
    {
        proof {
            lemma_without_uuid_prefix(items@, uuid, i as int);
        }
        if str_eq(items[i].uuid.as_str(), next[0].uuid.as_str()) {
            i = i + 1;
            continue;
        }
        let ghost before = next@;
        next.push(copy_recent(&items[i]));
        assert(next@.drop_first() =~= before.drop_first().push(items@[i as int]));
        i = i + 1;
        if next.len() == MAX_RECENT {
            proof {
                lemma_without_uuid_grows(items@, uuid, i as int, items@.len() as int);
                assert(items@.take(items@.len() as int) == items@);
                let full = without_uuid(items@, uuid);
                let part = without_uuid(items@.take(i as int), uuid);
                assert(part == next@.drop_first());
                assert(part.len() == 9);
                assert(full.take(9) == part);
                if full.len() == 9 {
                    assert(full.take(9) =~= full);
                }
                assert(at_most(full, 9) == part);
                assert(next@ =~= seq![module] + next@.drop_first());
            }
            return next;
        }
    }
    assert(items@.take(items.len() as int) == items@);
    proof {
        lemma_without_uuid_len(items@, uuid);
    }
    assert(next@ =~= seq![module] + at_most(without_uuid(items@, uuid), MAX_RECENT - 1));
    next
}

/// The list entry for viewing a registry module at `viewed_at`.
pub fn recent_from_module(module: &RegistryModule, viewed_at: i64) -> (r: RecentModule)
    ensures
        r.uuid == module.uuid,
        r.name == module.name,
        r.author == module.author,
        r.description == module.description,
        r.category == module.category,
        r.downloads == module.downloads,
        r.verified_author == module.verified_author,
        r.version == module.version,
        r.viewed_at == viewed_at,
{
    RecentModule {
        uuid: module.uuid.clone(),
        name: module.name.clone(),
        author: module.author.clone(),
        description: module.description.clone(),
        category: module.category,
        downloads: module.downloads,
        verified_author: module.verified_author,
        version: module.version.clone(),
        viewed_at,
    }
}

impl RecentModule {
    /// The registry record the list entry stands for; what the entry does not hold is empty.
    pub fn to_registry_module(&self) -> (r: RegistryModule)
        ensures
            r.uuid == self.uuid,
            r.name == self.name,
            r.description == self.description,
            r.author == self.author,
            r.category == self.category,
            r.icon is None,
            r.screenshot is None,
            r.repo_url@ == Seq::<char>::empty(),
            r.downloads == self.downloads,
            r.version == self.version,
            r.last_updated is None,
            r.rating is None,
            r.verified_author == self.verified_author,
            r.tags@.len() == 0,
            r.checksum is None,
            r.license is None,
    {
        RegistryModule {
            uuid: self.uuid.clone(),
            name: self.name.clone(),
            description: self.description.clone(),
            author: self.author.clone(),
            category: self.category,
            icon: None,
            screenshot: None,
            repo_url: String::new(),
            downloads: self.downloads,
            version: self.version.clone(),
            last_updated: None,
            rating: None,
            verified_author: self.verified_author,
            tags: Vec::new(),
            checksum: None,
            license: None,
        }
    }
}

/// The list never holds more than ten modules once something is added.
pub proof fn lemma_add_bounded(items: Seq<RecentModule>, module: RecentModule)
    requires
        items.len() <= MAX_RECENT,
    ensures
        spec_add(items, module).len() <= MAX_RECENT,
{
    lemma_without_uuid_len(items, module.uuid@);
}

/// After adding a module it is first, and no later entry has its identifier.
pub proof fn lemma_add_puts_module_first_once(items: Seq<RecentModule>, module: RecentModule)
    requires
        spec_is_valid_uuid(module.uuid@),
    ensures
        spec_add(items, module)[0] == module,
        forall|i: int|
            1 <= i < spec_add(items, module).len() ==> #[trigger] spec_add(items, module)[i].uuid@
                != module.uuid@,
{
    lemma_without_uuid_excludes(items, module.uuid@);
    let rest = without_uuid(items, module.uuid@);
    let kept = at_most(rest, MAX_RECENT - 1);
    assert forall|i: int| 1 <= i < spec_add(items, module).len() implies #[trigger] spec_add(
        items,
        module,
    )[i].uuid@ != module.uuid@ by {
        assert(spec_add(items, module)[i] == kept[i - 1]);
        assert(kept[i - 1] == rest[i - 1]);
    }
}

proof fn lemma_without_uuid_excludes(items: Seq<RecentModule>, uuid: Seq<char>)
    ensures
        forall|i: int|
            0 <= i < without_uuid(items, uuid).len() ==> #[trigger] without_uuid(items, uuid)[i].uuid@
                != uuid,
    decreases items.len(),
{
    if items.len() > 0 {
        lemma_without_uuid_excludes(items.drop_last(), uuid);
    }
}

/// No two entries of `s` share an identifier.
pub open spec fn distinct_uuids(s: Seq<RecentModule>) -> bool {
    forall|i: int, j: int| 0 <= i < j < s.len() ==> (#[trigger] s[i]).uuid@ != (#[trigger] s[j]).uuid@
}

proof fn lemma_without_uuid_from(items: Seq<RecentModule>, uuid: Seq<char>)
    ensures
        forall|i: int|
            0 <= i < without_uuid(items, uuid).len() ==> exists|j: int|
                0 <= j < items.len() && items[j] == #[trigger] without_uuid(items, uuid)[i],
    decreases items.len(),
{
    if items.len() > 0 {
        let p = items.drop_last();
        lemma_without_uuid_from(p, uuid);
        let w = without_uuid(items, uuid);
        let wp = without_uuid(p, uuid);
        assert forall|i: int| 0 <= i < w.len() implies exists|j: int|
            0 <= j < items.len() && items[j] == #[trigger] w[i] by {
            if i < wp.len() {
                assert(w[i] == wp[i]);
                let j = choose|j: int| 0 <= j < p.len() && p[j] == wp[i];
                assert(items[j] == p[j]);
            } else {
                assert(w[i] == items.last());
                assert(items[items.len() - 1] == items.last());
            }
        }
    }
}

proof fn lemma_without_uuid_distinct(items: Seq<RecentModule>, uuid: Seq<char>)
    requires
        distinct_uuids(items),
    ensures
        distinct_uuids(without_uuid(items, uuid)),
    decreases items.len(),
{
    if items.len() > 0 {
        let p = items.drop_last();
        assert(distinct_uuids(p)) by {
            assert forall|i: int, j: int| 0 <= i < j < p.len() implies (#[trigger] p[i]).uuid@
                != (#[trigger] p[j]).uuid@ by {
                assert(p[i] == items[i] && p[j] == items[j]);
            }
        }
        lemma_without_uuid_distinct(p, uuid);
        lemma_without_uuid_from(p, uuid);
        let w = without_uuid(items, uuid);
        let wp = without_uuid(p, uuid);
        if items.last().uuid@ != uuid {
            assert forall|i: int, j: int| 0 <= i < j < w.len() implies (#[trigger] w[i]).uuid@
                != (#[trigger] w[j]).uuid@ by {
                if j == wp.len() {
                    assert(w[i] == wp[i]);
                    let k = choose|k: int| 0 <= k < p.len() && p[k] == wp[i];
                    assert(items[k] == p[k]);
                    assert(items[items.len() - 1] == items.last());
                    assert(items[k].uuid@ != items[items.len() - 1].uuid@);
                } else {
                    assert(w[i] == wp[i] && w[j] == wp[j]);
                }
            }
        }
    }
}

/// Adding a module to a list whose identifiers are distinct leaves them distinct.
pub proof fn lemma_add_keeps_uuids_distinct(items: Seq<RecentModule>, module: RecentModule)
    requires
        distinct_uuids(items),
    ensures
        distinct_uuids(spec_add(items, module)),
{
    if spec_is_valid_uuid(module.uuid@) {
        lemma_without_uuid_distinct(items, module.uuid@);
        lemma_without_uuid_excludes(items, module.uuid@);
        let rest = without_uuid(items, module.uuid@);
        let kept = at_most(rest, MAX_RECENT - 1);
        let r = spec_add(items, module);
        assert forall|i: int, j: int| 0 <= i < j < r.len() implies (#[trigger] r[i]).uuid@
            != (#[trigger] r[j]).uuid@ by {
            assert(r[j] == kept[j - 1]);
            assert(kept[j - 1] == rest[j - 1]);
            if i == 0 {
                assert(r[0] == module);
            } else {
                assert(r[i] == kept[i - 1]);
                assert(kept[i - 1] == rest[i - 1]);
            }
        }
    }
}

/// A UUID in its usual text form: 36 characters, `-` at positions 8, 13, 18 and 23, and an
/// ASCII hexadecimal digit everywhere else.
pub open spec fn uuid_shaped(v: Seq<char>) -> bool {
    &&& v.len() == 36
    &&& forall|i: int|
        0 <= i < 36 ==> if i == 8 || i == 13 || i == 18 || i == 23 {
            #[trigger] v[i] == '-'
        } else {
            ('0' <= v[i] && v[i] <= '9') || ('a' <= v[i] && v[i] <= 'f') || ('A' <= v[i] && v[i]
                <= 'F')
        }
}

/// Every module identified by a UUID in its usual text form is recorded: adding it to any list
/// puts it first.
pub proof fn lemma_uuid_modules_are_recorded(items: Seq<RecentModule>, module: RecentModule)
    requires
        uuid_shaped(module.uuid@),
    ensures
        spec_is_valid_uuid(module.uuid@),
        spec_add(items, module).len() >= 1,
        spec_add(items, module)[0] == module,
{
    assert forall|i: int| 0 <= i < 36 implies if i == 8 || i == 13 || i == 18 || i == 23 {
        #[trigger] module.uuid@[i] == '-'
    } else {
        spec_is_hex(module.uuid@[i])
    } by {}
}

} // verus!
