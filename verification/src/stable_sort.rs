//! Stable arrangement of list positions by a key order, as `slice::sort_by` gives it.
use vstd::prelude::*;

use crate::ordering::{
    int_order, lemma_lex_order_antisym, lemma_lex_order_eq, lemma_lex_order_trans, lex_compare,
    lex_order, opt_lex_order,
};

verus! {

/// The field a list of modules is ordered by.
#[derive(Debug, Clone, Copy, PartialEq, Eq, Structural)]
pub enum SortField {
    Name,
    Downloads,
    RecentlyUpdated,
    Rating,
}

/// Direction of a sort.
#[derive(Debug, Clone, Copy, PartialEq, Eq, Structural)]
pub enum SortOrder {
    Ascending,
    Descending,
}

impl SortOrder {
    /// The other direction.
    pub fn toggle(self) -> (r: Self)
        ensures
            r == (match self {
                SortOrder::Ascending => SortOrder::Descending,
                SortOrder::Descending => SortOrder::Ascending,
            }),
    {
        match self {
            SortOrder::Ascending => SortOrder::Descending,
            SortOrder::Descending => SortOrder::Ascending,
        }
    }
}

/// Toggling the direction twice gives the direction back.
pub proof fn lemma_toggle_twice(order: SortOrder)
    ensures
        match order {
            SortOrder::Ascending => SortOrder::Ascending,
            SortOrder::Descending => SortOrder::Descending,
        } == order,
        (match (match order {
            SortOrder::Ascending => SortOrder::Descending,
            SortOrder::Descending => SortOrder::Ascending,
        }) {
            SortOrder::Ascending => SortOrder::Descending,
            SortOrder::Descending => SortOrder::Ascending,
        }) == order,
{
}

/// What a module is ordered by: lower-cased name, downloads, last update text (none first), and
/// rating key (see `model::rating_key`; none counted as zero).
pub struct SortKeyView {
    pub name: Seq<char>,
    pub downloads: int,
    pub updated: Option<Seq<char>>,
    pub rating: int,
}

/// The sort key of one module, held for comparison.
pub struct SortKey {
    pub name: Vec<char>,
    pub downloads: i64,
    pub updated: Option<Vec<char>>,
    pub rating: u32,
}

impl SortKey {
    /// The key as values.
    pub open spec fn view_key(&self) -> SortKeyView {
        SortKeyView {
            name: self.name@,
            downloads: self.downloads as int,
            updated: match self.updated {
                Some(u) => Some(u@),
                None => None,
            },
            rating: self.rating as int,
        }
    }
}

/// The key views of a list of keys.
pub open spec fn key_views(keys: Seq<SortKey>) -> Seq<SortKeyView> {
    keys.map_values(|k: SortKey| k.view_key())
}

/// Sign of comparing two keys on `field`.
pub open spec fn key_order(a: SortKeyView, b: SortKeyView, field: SortField) -> int {
    match field {
        SortField::Name => lex_order(a.name, b.name),
        SortField::Downloads => int_order(a.downloads, b.downloads),
        SortField::RecentlyUpdated => opt_lex_order(a.updated, b.updated),
        SortField::Rating => int_order(a.rating, b.rating),
    }
}

/// `a` comes strictly before `b` when sorting on `field` in direction `order`.
pub open spec fn key_before(a: SortKeyView, b: SortKeyView, field: SortField, order: SortOrder) -> bool {
    match order {
        SortOrder::Ascending => key_order(a, b, field) < 0,
        SortOrder::Descending => key_order(b, a, field) < 0,
    }
}

/// `o` arranges exactly the positions `cand` so that no position is ordered after a later one,
/// and positions with equal keys keep their original order.
pub open spec fn arranged(
    o: Seq<usize>,
    cand: Seq<usize>,
    keys: Seq<SortKeyView>,
    field: SortField,
    order: SortOrder,
) -> bool {
    &&& o.len() == cand.len()
    &&& o.no_duplicates()
    &&& forall|x: usize| o.contains(x) <==> cand.contains(x)
    &&& forall|i: int, j: int|
        0 <= i < j < o.len() ==> !key_before(keys[o[j] as int], keys[o[i] as int], field, order)
    &&& forall|i: int, j: int|
        0 <= i < j < o.len() && !key_before(keys[o[i] as int], keys[o[j] as int], field, order)
            && !key_before(keys[o[j] as int], keys[o[i] as int], field, order) ==> o[i] < o[j]
}

proof fn lemma_opt_lex(a: Option<Seq<char>>, b: Option<Seq<char>>, c: Option<Seq<char>>)
    ensures
        -1 <= opt_lex_order(a, b) <= 1,
        opt_lex_order(a, b) == -opt_lex_order(b, a),
        opt_lex_order(a, a) == 0,
        opt_lex_order(a, b) == 0 ==> a == b,
        opt_lex_order(a, b) < 0 && opt_lex_order(b, c) < 0 ==> opt_lex_order(a, c) < 0,
{
    match (a, b) {
        (Some(x), Some(y)) => {
            lemma_lex_order_antisym(x, y);
            lemma_lex_order_eq(x, y);
        },
        _ => {},
    }
    match a {
        Some(x) => {
            lemma_lex_order_eq(x, x);
        },
        None => {},
    }
    match (a, b, c) {
        (Some(x), Some(y), Some(z)) => {
            if lex_order(x, y) < 0 && lex_order(y, z) < 0 {
                lemma_lex_order_trans(x, y, z);
            }
        },
        _ => {},
    }
}

proof fn lemma_key_order(a: SortKeyView, b: SortKeyView, c: SortKeyView, field: SortField)
    ensures
        -1 <= key_order(a, b, field) <= 1,
        key_order(a, b, field) == -key_order(b, a, field),
        key_order(a, a, field) == 0,
        key_order(a, b, field) == 0 ==> key_order(a, c, field) == key_order(b, c, field),
        key_order(a, b, field) < 0 && key_order(b, c, field) < 0 ==> key_order(a, c, field) < 0,
{
    match field {
        SortField::Name => {
            lemma_lex_order_antisym(a.name, b.name);
            lemma_lex_order_eq(a.name, b.name);
            lemma_lex_order_eq(a.name, a.name);
            if lex_order(a.name, b.name) < 0 && lex_order(b.name, c.name) < 0 {
                lemma_lex_order_trans(a.name, b.name, c.name);
            }
        },
        SortField::RecentlyUpdated => {
            lemma_opt_lex(a.updated, b.updated, c.updated);
        },
        _ => {},
    }
}

/// The strict order of keys is irreflexive and transitive, and what precedes a key precedes
/// everything that key does not come after.
proof fn lemma_key_before(
    a: SortKeyView,
    b: SortKeyView,
    c: SortKeyView,
    field: SortField,
    order: SortOrder,
)
    ensures
        !key_before(a, a, field, order),
        key_before(a, b, field, order) && key_before(b, c, field, order) ==> key_before(
            a,
            c,
            field,
            order,
        ),
        key_before(a, b, field, order) && !key_before(c, b, field, order) ==> key_before(
            a,
            c,
            field,
            order,
        ),
{
    lemma_key_order(a, b, c, field);
    lemma_key_order(b, c, a, field);
    lemma_key_order(c, a, b, field);
    lemma_key_order(b, a, c, field);
    lemma_key_order(c, b, a, field);
    lemma_key_order(a, c, b, field);
}

/// Compares two keys on `field` as [`key_order`] does.
fn compare_keys(a: &SortKey, b: &SortKey, field: SortField) -> (r: i8)
    ensures
        r as int == key_order(a.view_key(), b.view_key(), field),
{
    match field {
        SortField::Name => lex_compare(&a.name, &b.name),
        SortField::Downloads => if a.downloads < b.downloads {
            -1
        } else if a.downloads > b.downloads {
            1
        } else {
            0
        },
        SortField::RecentlyUpdated => match (&a.updated, &b.updated) {
            (None, None) => 0,
            (None, Some(_)) => -1,
            (Some(_), None) => 1,
            (Some(x), Some(y)) => lex_compare(x, y),
        },
        SortField::Rating => if a.rating < b.rating {
            -1
        } else if a.rating > b.rating {
            1
        } else {
            0
        },
    }
}

fn comes_before(a: &SortKey, b: &SortKey, field: SortField, order: SortOrder) -> (r: bool)
    ensures
        r == key_before(a.view_key(), b.view_key(), field, order),
{
    match order {
        SortOrder::Ascending => compare_keys(a, b, field) < 0,
        SortOrder::Descending => compare_keys(b, a, field) < 0,
    }
}

proof fn lemma_insert_arranged(
    o: Seq<usize>,
    cand: Seq<usize>,
    keys: Seq<SortKeyView>,
    field: SortField,
    order: SortOrder,
    p: int,
    x: usize,
)
    requires
        arranged(o, cand, keys, field, order),
        0 <= p <= o.len(),
        forall|i: int| 0 <= i < o.len() ==> (o[i] as int) < (x as int),
        forall|i: int| 0 <= i < o.len() ==> (o[i] as int) < keys.len(),
        (x as int) < keys.len(),
        forall|q: int| 0 <= q < p ==> !key_before(keys[x as int], keys[o[q] as int], field, order),
        p < o.len() ==> key_before(keys[x as int], keys[o[p] as int], field, order),
    ensures
        arranged(o.insert(p, x), cand.push(x), keys, field, order),
{
    let n = o.insert(p, x);
    o.insert_ensures(p, x);
    assert forall|y: usize| n.contains(y) <==> cand.push(x).contains(y) by {
        if n.contains(y) {
            let i = choose|i: int| 0 <= i < n.len() && n[i] == y;
            if i < p {
                assert(o[i] == y);
                assert(o.contains(y));
            } else if i > p {
                assert(o[i - 1] == y);
                assert(o.contains(y));
            }
            if o.contains(y) {
                assert(cand.contains(y));
                let k = choose|k: int| 0 <= k < cand.len() && cand[k] == y;
                assert(cand.push(x)[k] == y);
            } else {
                assert(cand.push(x)[cand.len() as int] == y);
            }
        }
        if cand.push(x).contains(y) {
            let k = choose|k: int| 0 <= k < cand.len() + 1 && cand.push(x)[k] == y;
            if k < cand.len() {
                assert(cand[k] == y);
                assert(cand.contains(y));
                assert(o.contains(y));
                let i = choose|i: int| 0 <= i < o.len() && o[i] == y;
                if i < p {
                    assert(n[i] == y);
                } else {
                    assert(n[i + 1] == y);
                }
            } else {
                assert(n[p] == y);
            }
        }
    }
    assert forall|i: int, j: int| 0 <= i < j < n.len() implies n[i] != n[j] by {
        if i != p && j != p {
            let oi = if i < p {
                i
            } else {
                i - 1
            };
            let oj = if j < p {
                j
            } else {
                j - 1
            };
            assert(n[i] == o[oi]);
            assert(n[j] == o[oj]);
        } else if i == p {
            let oj = j - 1;
            assert(n[j] == o[oj]);
        } else {
            assert(n[i] == o[i]);
        }
    }
    assert forall|i: int, j: int| 0 <= i < j < n.len() implies !key_before(
        keys[n[j] as int],
        keys[n[i] as int],
        field,
        order,
    ) by {
        if i != p && j != p {
            let oi = if i < p {
                i
            } else {
                i - 1
            };
            let oj = if j < p {
                j
            } else {
                j - 1
            };
            assert(n[i] == o[oi]);
            assert(n[j] == o[oj]);
        } else if j == p {
            assert(n[i] == o[i]);
        } else {
            let oj = j - 1;
            assert(n[j] == o[oj]);
            assert(oj >= p);
            lemma_key_before(keys[o[oj] as int], keys[x as int], keys[o[p] as int], field, order);
            if oj > p {
                assert(!key_before(keys[o[oj] as int], keys[o[p] as int], field, order));
            }
        }
    }
    assert forall|i: int, j: int|
        0 <= i < j < n.len() && !key_before(keys[n[i] as int], keys[n[j] as int], field, order)
            && !key_before(keys[n[j] as int], keys[n[i] as int], field, order) implies n[i]
        < n[j] by {
        if i != p && j != p {
            let oi = if i < p {
                i
            } else {
                i - 1
            };
            let oj = if j < p {
                j
            } else {
                j - 1
            };
            assert(n[i] == o[oi]);
            assert(n[j] == o[oj]);
        } else if j == p {
            assert(n[i] == o[i]);
        } else {
            let oj = j - 1;
            assert(n[j] == o[oj]);
            if oj > p {
                assert(!key_before(keys[o[oj] as int], keys[o[p] as int], field, order));
                lemma_key_before(keys[x as int], keys[o[p] as int], keys[o[oj] as int], field, order);
            }
        }
    }
}

/// Arranges the positions `cand` (increasing, each a position of `keys`) stably by the keys.
pub fn stable_arrange(keys: &Vec<SortKey>, cand: &Vec<usize>, field: SortField, order: SortOrder) -> (r:
    Vec<usize>)
    requires
        forall|i: int| 0 <= i < cand.len() ==> (cand@[i] as int) < keys.len(),
        forall|i: int, j: int| 0 <= i < j < cand.len() ==> cand@[i] < cand@[j],
    ensures
        arranged(r@, cand@, key_views(keys@), field, order),
{
    let ghost kv = key_views(keys@);
    let mut res: Vec<usize> = Vec::new();
    let mut k: usize = 0;
    assert(cand@.take(0) =~= Seq::<usize>::empty());
    while k < cand.len()
        invariant
            k <= cand.len(),
            kv == key_views(keys@),
            kv.len() == keys.len(),
            forall|i: int| 0 <= i < cand.len() ==> (cand@[i] as int) < keys.len(),
            forall|i: int, j: int| 0 <= i < j < cand.len() ==> cand@[i] < cand@[j],
            arranged(res@, cand@.take(k as int), kv, field, order),
        decreases cand.len() - k,
    {
        let x = cand[k];
        let mut p: usize = 0;
        assert forall|i: int| 0 <= i < res.len() implies (res@[i] as int) < keys.len() by {
            assert(res@.contains(res@[i]));
            assert(cand@.take(k as int).contains(res@[i]));
            let j = choose|j: int| 0 <= j < k && cand@.take(k as int)[j] == res@[i];
            assert(cand@[j] == res@[i]);
        }
        while p < res.len() && !comes_before(&keys[x], &keys[res[p]], field, order)
            invariant
                p <= res.len(),
                kv == key_views(keys@),
                kv.len() == keys.len(),
                (x as int) < keys.len(),
                arranged(res@, cand@.take(k as int), kv, field, order),
                forall|i: int| 0 <= i < res.len() ==> (res@[i] as int) < keys.len(),
                forall|q: int| 0 <= q < p ==> !key_before(kv[x as int], kv[res@[q] as int], field, order),
            decreases res.len() - p,
        {
            p = p + 1;
        }
        proof {
            assert forall|i: int| 0 <= i < res.len() implies (res@[i] as int) < (x as int) by {
                assert(res@.contains(res@[i]));
                assert(cand@.take(k as int).contains(res@[i]));
                let j = choose|j: int| 0 <= j < k && cand@.take(k as int)[j] == res@[i];
                assert(cand@[j] == res@[i]);
            }
            lemma_insert_arranged(res@, cand@.take(k as int), kv, field, order, p as int, x);
            assert(cand@.take(k + 1) == cand@.take(k as int).push(x));
        }
        res.insert(p, x);
        k = k + 1;
    }
    assert(cand@.take(cand.len() as int) == cand@);
    res
}

proof fn lemma_arranged_prefix(
    o1: Seq<usize>,
    o2: Seq<usize>,
    cand: Seq<usize>,
    keys: Seq<SortKeyView>,
    field: SortField,
    order: SortOrder,
    n: int,
)
    requires
        arranged(o1, cand, keys, field, order),
        arranged(o2, cand, keys, field, order),
        0 <= n <= o1.len(),
    ensures
        forall|i: int| 0 <= i < n ==> o1[i] == o2[i],
    decreases n,
{
    if n > 0 {
        lemma_arranged_prefix(o1, o2, cand, keys, field, order, n - 1);
        let i = n - 1;
        let a = o1[i];
        let b = o2[i];
        if a != b {
            assert(o2.contains(b));
            assert(o1.contains(b));
            let j = choose|j: int| 0 <= j < o1.len() && o1[j] == b;
            if j < i {
                assert(o2[j] == b);
            }
            assert(j > i);
            assert(o1.contains(a));
            assert(o2.contains(a));
            let k = choose|k: int| 0 <= k < o2.len() && o2[k] == a;
            if k < i {
                assert(o1[k] == a);
            }
            assert(k > i);
            assert(!key_before(keys[b as int], keys[a as int], field, order));
            assert(!key_before(keys[a as int], keys[b as int], field, order));
            assert(a < b);
            assert(b < a);
        }
    }
}

/// A stable arrangement is unique: two lists that both arrange the same positions by the same
/// keys, field and direction are the same list.
pub proof fn lemma_arrangement_unique(
    o1: Seq<usize>,
    o2: Seq<usize>,
    cand: Seq<usize>,
    keys: Seq<SortKeyView>,
    field: SortField,
    order: SortOrder,
)
    requires
        arranged(o1, cand, keys, field, order),
        arranged(o2, cand, keys, field, order),
    ensures
        o1 == o2,
{
    lemma_arranged_prefix(o1, o2, cand, keys, field, order, o1.len() as int);
    assert(o1 =~= o2);
}

/// Reversing the direction reverses the order of keys that differ: what comes strictly first
/// ascending comes strictly last descending.
pub proof fn lemma_direction_reverses(a: SortKeyView, b: SortKeyView, field: SortField)
    ensures
        key_before(a, b, field, SortOrder::Ascending) == key_before(b, a, field, SortOrder::Descending),
{
}

} // verus!
