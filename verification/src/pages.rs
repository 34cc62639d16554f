//! What the web pages compute from their inputs: number labels, query parameters, tab keys,
//! user names in URLs, screenshot addresses and recommendations.
use vstd::prelude::*;
use vstd::string::StringExecFns;

use crate::model::{
    copy_module, same_module, AdminStats, ModuleCategory, RegistryModule, Screenshot,
    SubmissionsResponse,
};
use crate::remote::{admin_stats_from_state, RemoteState};
use crate::recently_viewed::{at_most, RecentModule};
use crate::text::{
    contains_text, find_chars, lowercased, to_lowercase, trim, trimmed,
    chars_of, digit_char, opt_view, is_ascii_alphanumeric, nat_decimal, push_char, push_decimal,
    spec_is_ascii_alphanumeric, str_eq, ascii_lower_char, to_ascii_lowercase_char, trim_end_char,
    trim_end_matches_char,
};

verus! {

broadcast use vstd::string::group_string_axioms;

/// `digits` with a comma before every group of three counted from the right.
pub open spec fn grouped(digits: Seq<char>) -> Seq<char>
    decreases digits.len(),
{
    if digits.len() <= 3 {
        digits
    } else {
        grouped(digits.take(digits.len() - 3)) + seq![','] + digits.skip(digits.len() - 3)
    }
}

/// The label of a count: its decimal digits grouped by threes, `-` first for negatives.
pub open spec fn number_label(value: int) -> Seq<char> {
    if value < 0 {
        seq!['-'] + grouped(nat_decimal((-value) as nat))
    } else {
        grouped(nat_decimal(value as nat))
    }
}

fn push_range(s: &mut String, d: &Vec<char>, from: usize, to: usize)
    requires
        from <= to <= d@.len(),
    ensures
        final(s)@ == old(s)@ + d@.subrange(from as int, to as int),
    decreases to - from,
{
    if from < to {
        push_char(s, d[from]);
        push_range(s, d, from + 1, to);
        assert(seq![d@[from as int]] + d@.subrange(from + 1, to as int) =~= d@.subrange(
            from as int,
            to as int,
        ));
    } else {
        assert(d@.subrange(from as int, to as int) =~= Seq::<char>::empty());
    }
}

fn push_grouped(s: &mut String, d: &Vec<char>, end: usize)
    requires
        end <= d@.len(),
    ensures
        final(s)@ == old(s)@ + grouped(d@.take(end as int)),
    decreases end,
{
    if end <= 3 {
        push_range(s, d, 0, end);
        assert(d@.subrange(0, end as int) =~= d@.take(end as int));
    } else {
        push_grouped(s, d, end - 3);
        push_char(s, ',');
        push_range(s, d, end - 3, end);
        let ghost t = d@.take(end as int);
        assert(t.take(t.len() - 3) =~= d@.take(end - 3));
        assert(t.skip(t.len() - 3) =~= d@.subrange(end - 3, end as int));
    }
}

/// Formats a count for display, with commas between groups of three digits.
pub fn format_number(value: i64) -> (r: String)
    requires
        value != i64::MIN,
    ensures
        r@ == number_label(value as int),
{
    let magnitude: u64 = if value < 0 {
        (0 - value) as u64
    } else {
        value as u64
    };
    let mut digits_text = String::new();
    push_decimal(&mut digits_text, magnitude);
    let digits = chars_of(digits_text.as_str());
    let mut r = String::new();
    if value < 0 {
        push_char(&mut r, '-');
    }
    push_grouped(&mut r, &digits, digits.len());
    assert(digits@.take(digits@.len() as int) =~= digits@);
    r
}

/// How a module list is ordered.
#[derive(Debug, Clone, Copy, PartialEq, Eq, Structural)]
pub enum ModuleSort {
    Popular,
    Downloads,
    Trending,
    Recent,
    Alphabetical,
}

/// How a module list is laid out.
#[derive(Debug, Clone, Copy, PartialEq, Eq, Structural)]
pub enum ModuleViewMode {
    Grid,
    List,
}

/// The order that a `sort` query parameter names; anything else is by popularity.
pub open spec fn sort_named(sort: Option<Seq<char>>) -> ModuleSort {
    match sort {
        Some(v) => if v == "downloads"@ {
            ModuleSort::Downloads
        } else if v == "trending"@ {
            ModuleSort::Trending
        } else if v == "recent"@ {
            ModuleSort::Recent
        } else if v == "alpha"@ {
            ModuleSort::Alphabetical
        } else {
            ModuleSort::Popular
        },
        None => ModuleSort::Popular,
    }
}

/// Reads the `sort` query parameter.
pub fn parse_sort(sort: Option<String>) -> (r: ModuleSort)
    ensures
        r == sort_named(opt_view(sort)),
{
    match sort {
        Some(s) => {
            let v = s.as_str();
            if str_eq(v, "downloads") {
                ModuleSort::Downloads
            } else if str_eq(v, "trending") {
                ModuleSort::Trending
            } else if str_eq(v, "recent") {
                ModuleSort::Recent
            } else if str_eq(v, "alpha") {
                ModuleSort::Alphabetical
            } else {
                ModuleSort::Popular
            }
        },
        None => ModuleSort::Popular,
    }
}

/// Reads the `view` query parameter: `list` is the list layout, anything else the grid.
pub fn parse_view(view: Option<String>) -> (r: ModuleViewMode)
    ensures
        r == (if opt_view(view) == Some("list"@) {
            ModuleViewMode::List
        } else {
            ModuleViewMode::Grid
        }),
{
    match view {
        Some(s) => {
            if str_eq(s.as_str(), "list") {
                ModuleViewMode::List
            } else {
                ModuleViewMode::Grid
            }
        },
        None => ModuleViewMode::Grid,
    }
}

/// The query-parameter name of each category.
pub open spec fn category_slug(c: ModuleCategory) -> Seq<char> {
    match c {
        ModuleCategory::System => "system"@,
        ModuleCategory::Hardware => "hardware"@,
        ModuleCategory::Network => "network"@,
        ModuleCategory::Audio => "audio"@,
        ModuleCategory::Power => "power"@,
        ModuleCategory::Time => "time"@,
        ModuleCategory::Workspace => "workspace"@,
        ModuleCategory::Window => "window"@,
        ModuleCategory::Tray => "tray"@,
        ModuleCategory::Weather => "weather"@,
        ModuleCategory::Productivity => "productivity"@,
        ModuleCategory::Media => "media"@,
        ModuleCategory::Custom => "custom"@,
    }
}

/// The category whose name is `v`, if any.
pub open spec fn category_named(v: Seq<char>) -> Option<ModuleCategory> {
    if exists|c: ModuleCategory| category_slug(c) == v {
        Some(choose|c: ModuleCategory| category_slug(c) == v)
    } else {
        None
    }
}

/// Reads the `category` query parameter.
pub fn parse_category(category: Option<String>) -> (r: Option<ModuleCategory>)
    ensures
        r == (match opt_view(category) {
            Some(v) => category_named(v),
            None => None,
        }),
{
    proof {
        lemma_category_slugs_distinct();
    }
    match category {
        Some(s) => {
            let v = s.as_str();
            let r = if str_eq(v, "system") {
                Some(ModuleCategory::System)
            } else if str_eq(v, "hardware") {
                Some(ModuleCategory::Hardware)
            } else if str_eq(v, "network") {
                Some(ModuleCategory::Network)
            } else if str_eq(v, "audio") {
                Some(ModuleCategory::Audio)
            } else if str_eq(v, "power") {
                Some(ModuleCategory::Power)
            } else if str_eq(v, "time") {
                Some(ModuleCategory::Time)
            } else if str_eq(v, "workspace") {
                Some(ModuleCategory::Workspace)
            } else if str_eq(v, "window") {
                Some(ModuleCategory::Window)
            } else if str_eq(v, "tray") {
                Some(ModuleCategory::Tray)
            } else if str_eq(v, "weather") {
                Some(ModuleCategory::Weather)
            } else if str_eq(v, "productivity") {
                Some(ModuleCategory::Productivity)
            } else if str_eq(v, "media") {
                Some(ModuleCategory::Media)
            } else if str_eq(v, "custom") {
                Some(ModuleCategory::Custom)
            } else {
                None
            };
            proof {
                match r {
                    Some(c) => {
                        assert(category_slug(c) == v@);
                    },
                    None => {
                        assert forall|c: ModuleCategory| category_slug(c) != v@ by {
                            match c {
                                ModuleCategory::System => {},
                                _ => {},
                            }
                        }
                    },
                }
            }
            r
        },
        None => None,
    }
}

/// Different categories have different names.
pub proof fn lemma_category_slugs_distinct()
    ensures
        forall|a: ModuleCategory, b: ModuleCategory|
            #[trigger] category_slug(a) == #[trigger] category_slug(b) ==> a == b,
{
    reveal_strlit("system");
    reveal_strlit("hardware");
    reveal_strlit("network");
    reveal_strlit("audio");
    reveal_strlit("power");
    reveal_strlit("time");
    reveal_strlit("workspace");
    reveal_strlit("window");
    reveal_strlit("tray");
    reveal_strlit("weather");
    reveal_strlit("productivity");
    reveal_strlit("media");
    reveal_strlit("custom");
    assert forall|a: ModuleCategory, b: ModuleCategory|
        #[trigger] category_slug(a) == #[trigger] category_slug(b) implies a == b by {
        if a != b {
            assert(category_slug(a)[0] != category_slug(b)[0] || category_slug(a).len()
                != category_slug(b).len() || category_slug(a)[1] != category_slug(b)[1]
                || category_slug(a)[2] != category_slug(b)[2]);
        }
    }
}

/// A category's name reads back as that category.
pub proof fn lemma_category_name_round_trip(c: ModuleCategory)
    ensures
        category_named(category_slug(c)) == Some(c),
{
    lemma_category_slugs_distinct();
    let d = choose|d: ModuleCategory| category_slug(d) == category_slug(c);
    assert(category_slug(d) == category_slug(c));
}

/// A key that moves the selection in a row of tabs.
#[derive(Debug, Clone, Copy, PartialEq, Eq, Structural)]
pub enum Key {
    ArrowLeft,
    ArrowRight,
    Home,
    End,
    Enter,
    Other,
}

/// The tab selected after `key` in a row of `count` tabs where `current` was selected.
pub open spec fn tab_after(current: int, count: int, key: Key) -> Option<int> {
    if count <= 0 || current >= count {
        None
    } else {
        match key {
            Key::ArrowLeft => Some((current + count - 1) % count),
            Key::ArrowRight => Some((current + 1) % count),
            Key::Home => Some(0),
            Key::End => Some(count - 1),
            _ => None,
        }
    }
}

/// Moves the tab selection: the arrows wrap around, Home and End go to the ends.
pub fn next_tab_index(current: usize, count: usize, key: &Key) -> (r: Option<usize>)
    ensures
        r matches Some(i) ==> i < count,
        match tab_after(current as int, count as int, *key) {
            Some(i) => r is Some && r->0 == i,
            None => r is None,
        },
{
    if count == 0 || current >= count {
        return None;
    }
    match key {
        Key::ArrowLeft => {
            if current == 0 {
                assert((current + count - 1) % (count as int) == count - 1) by (nonlinear_arith)
                    requires
                        current == 0 < count,
                ;
                Some(count - 1)
            } else {
                assert((current + count - 1) % (count as int) == current - 1) by (nonlinear_arith)
                    requires
                        0 < current < count,
                ;
                Some(current - 1)
            }
        },
        Key::ArrowRight => {
            if current + 1 == count {
                assert((current + 1) % (count as int) == 0) by (nonlinear_arith)
                    requires
                        current + 1 == count,
                ;
                Some(0)
            } else {
                assert((current + 1) % (count as int) == current + 1) by (nonlinear_arith)
                    requires
                        current + 1 < count,
                ;
                Some(current + 1)
            }
        },
        Key::Home => Some(0),
        Key::End => Some(count - 1),
        _ => None,
    }
}

/// How a user name is written in a URL: ASCII letters and digits in lower case, `-` kept,
/// every other character replaced by `-`.
pub open spec fn username_char(c: char) -> char {
    if spec_is_ascii_alphanumeric(c) {
        ascii_lower_char(c)
    } else {
        '-'
    }
}

/// `username_char` applied to each character; nothing for no name.
pub open spec fn normalized_username(value: Option<Seq<char>>) -> Seq<char> {
    match value {
        Some(v) => v.map_values(|c: char| username_char(c)),
        None => Seq::empty(),
    }
}

/// The text of an optional string.
pub open spec fn opt_text(value: Option<&str>) -> Option<Seq<char>> {
    match value {
        Some(s) => Some(s@),
        None => None,
    }
}

/// Normalises a user name for use in a URL.
pub fn normalize_username(value: Option<&str>) -> (r: String)
    ensures
        r@ == normalized_username(opt_text(value)),
{
    let value = match value {
        Some(v) => v,
        None => {
            return String::new();
        },
    };
    let cs = chars_of(value);
    let mut r = String::new();
    let mut i: usize = 0;
    while i < cs.len()
        invariant
            i <= cs@.len(),
            cs@ == value@,
            r@ == cs@.take(i as int).map_values(|c: char| username_char(c)),
        decreases cs.len() - i,
    {
        let ch = cs[i];
        let mapped = if is_ascii_alphanumeric(ch) {
            to_ascii_lowercase_char(ch)
        } else {
            '-'
        };
        push_char(&mut r, mapped);
        i = i + 1;
        assert(cs@.take(i as int).map_values(|c: char| username_char(c)) =~= cs@.take(
            (i - 1) as int,
        ).map_values(|c: char| username_char(c)).push(username_char(ch)));
    }
    assert(cs@.take(cs@.len() as int) =~= cs@);
    r
}

/// What follows the last `c` in `s` (all of `s` where there is none).
pub open spec fn after_last(s: Seq<char>, c: char) -> Seq<char>
    decreases s.len(),
{
    if s.len() == 0 {
        s
    } else if s.last() == c {
        Seq::empty()
    } else {
        after_last(s.drop_last(), c).push(s.last())
    }
}

/// The file name of a stored screenshot: what follows the last `/` of its storage key.
pub fn screenshot_filename(r2_key: &str) -> (r: &str)
    ensures
        r@ == after_last(r2_key@, '/'),
{
    let n = r2_key.unicode_len();
    let mut k: usize = n;
    assert(r2_key@.subrange(n as int, n as int) =~= Seq::<char>::empty());
    assert(r2_key@.take(n as int) =~= r2_key@);
    while k > 0 && r2_key.get_char(k - 1) != '/'
        invariant
            k <= n,
            n == r2_key@.len(),
            after_last(r2_key@, '/') == after_last(r2_key@.take(k as int), '/') + r2_key@.subrange(
                k as int,
                n as int,
            ),
        decreases k,
    {
        let ghost t = r2_key@.take(k as int);
        assert(t.drop_last() =~= r2_key@.take(k - 1));
        assert(r2_key@.subrange(k - 1, n as int) =~= seq![t.last()] + r2_key@.subrange(
            k as int,
            n as int,
        ));
        k = k - 1;
    }
    if k > 0 {
        assert(r2_key@.take(k as int).last() == '/');
    } else {
        assert(r2_key@.take(0) =~= Seq::<char>::empty());
    }
    r2_key.substring_char(k, n)
}

/// Where the screenshot stored under `key` is served: `base` without trailing slashes, then
/// `/screenshots/`, the module, `/` and the file name.
pub open spec fn screenshot_url(base: Seq<char>, uuid: Seq<char>, key: Seq<char>) -> Seq<char> {
    trim_end_char(base, '/') + "/screenshots/"@ + uuid + "/"@ + after_last(key, '/')
}

/// The address of each screenshot of module `uuid`, in order.
pub fn build_screenshot_urls(base: &str, uuid: &str, screenshots: &[Screenshot]) -> (r: Vec<
    String,
>)
    ensures
        r@.len() == screenshots@.len(),
        forall|i: int|
            0 <= i < r@.len() ==> #[trigger] r@[i]@ == screenshot_url(
                base@,
                uuid@,
                screenshots@[i].r2_key@,
            ),
{
    let trimmed = trim_end_matches_char(base, '/');
    let mut r: Vec<String> = Vec::new();
    let mut i: usize = 0;
    while i < screenshots.len()
        invariant
            i <= screenshots@.len(),
            trimmed@ == trim_end_char(base@, '/'),
            r@.len() == i,
            forall|j: int|
                0 <= j < i ==> #[trigger] r@[j]@ == screenshot_url(
                    base@,
                    uuid@,
                    screenshots@[j].r2_key@,
                ),
        decreases screenshots@.len() - i,
    {
        let filename = screenshot_filename(screenshots[i].r2_key.as_str());
        let mut url = trimmed.to_string();
        url.append("/screenshots/");
        url.append(uuid);
        url.append("/");
        url.append(filename);
        r.push(url);
        i = i + 1;
    }
    r
}

/// How many modules the home page recommends.
pub const MAX_RECOMMENDED: usize = 6;

/// Some recently viewed module is of category `c`.
pub open spec fn category_viewed(viewed: Seq<RecentModule>, c: ModuleCategory) -> bool {
    exists|i: int| 0 <= i < viewed.len() && #[trigger] viewed[i].category == c
}

/// Some recently viewed module has identifier `u`.
pub open spec fn uuid_viewed(viewed: Seq<RecentModule>, u: Seq<char>) -> bool {
    exists|i: int| 0 <= i < viewed.len() && #[trigger] viewed[i].uuid@ == u
}

/// Some module of `s` has identifier `u`.
pub open spec fn has_uuid(s: Seq<RegistryModule>, u: Seq<char>) -> bool {
    exists|i: int| 0 <= i < s.len() && #[trigger] s[i].uuid@ == u
}

/// `s` with every module whose identifier came earlier left out.
pub open spec fn first_of_each(s: Seq<RegistryModule>) -> Seq<RegistryModule>
    decreases s.len(),
{
    if s.len() == 0 {
        s
    } else {
        let d = first_of_each(s.drop_last());
        if has_uuid(d, s.last().uuid@) {
            d
        } else {
            d.push(s.last())
        }
    }
}

/// A module worth recommending: of a category the visitor viewed, and not viewed itself.
pub open spec fn suggestible(viewed: Seq<RecentModule>, m: RegistryModule) -> bool {
    category_viewed(viewed, m.category) && !uuid_viewed(viewed, m.uuid@)
}

/// The modules of `s` worth recommending, in order.
pub open spec fn suggestible_of(viewed: Seq<RecentModule>, s: Seq<RegistryModule>) -> Seq<
    RegistryModule,
>
    decreases s.len(),
{
    if s.len() == 0 {
        s
    } else {
        let k = suggestible_of(viewed, s.drop_last());
        if suggestible(viewed, s.last()) {
            k.push(s.last())
        } else {
            k
        }
    }
}

/// The home page's recommendations: nothing without a viewing history; otherwise the popular
/// modules then the recent ones, each module once, those worth recommending, at most six.
pub open spec fn recommendations(
    viewed: Seq<RecentModule>,
    popular: Seq<RegistryModule>,
    recent: Seq<RegistryModule>,
) -> Seq<RegistryModule> {
    if viewed.len() == 0 {
        Seq::empty()
    } else {
        at_most(suggestible_of(viewed, first_of_each(popular + recent)), MAX_RECOMMENDED as int)
    }
}

/// The records behind a list of references.
pub open spec fn deref_all(s: Seq<&RegistryModule>) -> Seq<RegistryModule> {
    s.map_values(|m: &RegistryModule| *m)
}

fn category_in(viewed: &[RecentModule], c: ModuleCategory) -> (r: bool)
    ensures
        r == category_viewed(viewed@, c),
{
    let mut i: usize = 0;
    while i < viewed.len()
        invariant
            i <= viewed@.len(),
            forall|j: int| 0 <= j < i ==> #[trigger] viewed@[j].category != c,
        decreases viewed@.len() - i,
    {
        if viewed[i].category == c {
            return true;
        }
        i = i + 1;
    }
    false
}

fn uuid_in(viewed: &[RecentModule], u: &str) -> (r: bool)
    ensures
        r == uuid_viewed(viewed@, u@),
{
    let mut i: usize = 0;
    while i < viewed.len()
        invariant
            i <= viewed@.len(),
            forall|j: int| 0 <= j < i ==> #[trigger] viewed@[j].uuid@ != u@,
        decreases viewed@.len() - i,
    {
        if str_eq(viewed[i].uuid.as_str(), u) {
            return true;
        }
        i = i + 1;
    }
    false
}

fn uuid_listed(d: &Vec<&RegistryModule>, u: &str) -> (r: bool)
    ensures
        r == has_uuid(deref_all(d@), u@),
{
    let mut i: usize = 0;
    while i < d.len()
        invariant
            i <= d@.len(),
            forall|j: int| 0 <= j < i ==> #[trigger] deref_all(d@)[j].uuid@ != u@,
        decreases d@.len() - i,
    {
        if str_eq(d[i].uuid.as_str(), u) {
            assert(deref_all(d@)[i as int].uuid@ == u@);
            return true;
        }
        i = i + 1;
    }
    false
}

fn absorb<'a>(firsts: &mut Vec<&'a RegistryModule>, m: &'a RegistryModule)
    ensures
        deref_all(final(firsts)@) == (if has_uuid(deref_all(old(firsts)@), m.uuid@) {
            deref_all(old(firsts)@)
        } else {
            deref_all(old(firsts)@).push(*m)
        }),
{
    let ghost before = firsts@;
    if !uuid_listed(firsts, m.uuid.as_str()) {
        firsts.push(m);
        assert(deref_all(firsts@) =~= deref_all(before).push(*m));
    }
}

/// Recommends modules like the ones the visitor viewed lately (see [`recommendations`]).
pub fn recommended_modules(
    recently_viewed: &[RecentModule],
    popular: &[RegistryModule],
    recent_list: &[RegistryModule],
) -> (r: Vec<RegistryModule>)
    ensures
        r@.len() == recommendations(recently_viewed@, popular@, recent_list@).len(),
        forall|i: int|
            0 <= i < r@.len() ==> same_module(
                #[trigger] r@[i],
                recommendations(recently_viewed@, popular@, recent_list@)[i],
            ),
{
    if recently_viewed.len() == 0 {
        return Vec::new();
    }
    let ghost viewed = recently_viewed@;
    let ghost all = popular@ + recent_list@;
    let mut firsts: Vec<&RegistryModule> = Vec::new();
    let mut k: usize = 0;
    assert(all.take(0) =~= Seq::<RegistryModule>::empty());
    assert(deref_all(firsts@) =~= Seq::<RegistryModule>::empty());
    while k < popular.len()
        invariant
            k <= popular@.len(),
            all == popular@ + recent_list@,
            deref_all(firsts@) == first_of_each(all.take(k as int)),
        decreases popular@.len() - k,
    {
        assert(popular[k as int] == all[k as int]);
        assert(all.take(k + 1).drop_last() =~= all.take(k as int));
        absorb(&mut firsts, &popular[k]);
        k = k + 1;
    }
    let mut k: usize = 0;
    while k < recent_list.len()
        invariant
            k <= recent_list@.len(),
            all == popular@ + recent_list@,
            deref_all(firsts@) == first_of_each(all.take(popular@.len() + k)),
        decreases recent_list@.len() - k,
    {
        let ghost at = popular@.len() + k;
        assert(recent_list[k as int] == all[at]);
        assert(all.take(at + 1).drop_last() =~= all.take(at));
        absorb(&mut firsts, &recent_list[k]);
        k = k + 1;
    }
    assert(all.take(all.len() as int) =~= all);
    let ghost f = deref_all(firsts@);
    let mut picked: Vec<&RegistryModule> = Vec::new();
    let mut j: usize = 0;
    assert(f.take(0) =~= Seq::<RegistryModule>::empty());
    assert(deref_all(picked@) =~= Seq::<RegistryModule>::empty());
    while j < firsts.len()
        invariant
            j <= firsts@.len(),
            f == deref_all(firsts@),
            viewed == recently_viewed@,
            deref_all(picked@) == at_most(suggestible_of(viewed, f.take(j as int)), 6),
        decreases firsts@.len() - j,
    {
        let m: &RegistryModule = firsts[j];
        assert(*m == f[j as int]);
        assert(f.take(j + 1).drop_last() =~= f.take(j as int));
        let ghost before = picked@;
        let ghost x = suggestible_of(viewed, f.take(j as int));
        let keep = category_in(recently_viewed, m.category) && !uuid_in(
            recently_viewed,
            m.uuid.as_str(),
        );
        if keep {
            if picked.len() < MAX_RECOMMENDED {
                picked.push(m);
                assert(deref_all(picked@) =~= deref_all(before).push(*m));
                assert(at_most(x.push(*m), 6) =~= x.push(*m));
            } else {
                assert(at_most(x.push(*m), 6) =~= at_most(x, 6));
            }
        }
        j = j + 1;
    }
    assert(f.take(firsts@.len() as int) =~= f);
    let mut r: Vec<RegistryModule> = Vec::new();
    let mut i: usize = 0;
    while i < picked.len()
        invariant
            i <= picked@.len(),
            r@.len() == i,
            forall|t: int| 0 <= t < i ==> same_module(#[trigger] r@[t], deref_all(picked@)[t]),
        decreases picked@.len() - i,
    {
        r.push(copy_module(picked[i]));
        i = i + 1;
    }
    r
}

/// Recommendations are at most six modules, each once, each of a category the visitor viewed
/// and none of them viewed already.
pub proof fn lemma_recommendations_are_fresh(
    viewed: Seq<RecentModule>,
    popular: Seq<RegistryModule>,
    recent: Seq<RegistryModule>,
)
    ensures
        recommendations(viewed, popular, recent).len() <= MAX_RECOMMENDED,
        forall|i: int|
            0 <= i < recommendations(viewed, popular, recent).len() ==> suggestible(
                viewed,
                #[trigger] recommendations(viewed, popular, recent)[i],
            ),
        forall|i: int, j: int|
            0 <= i < j < recommendations(viewed, popular, recent).len() ==> (
            #[trigger] recommendations(viewed, popular, recent)[i]).uuid@ != (
            #[trigger] recommendations(viewed, popular, recent)[j]).uuid@,
{
    if viewed.len() > 0 {
        let f = first_of_each(popular + recent);
        lemma_first_of_each_distinct(popular + recent);
        lemma_suggestible_of_sub(viewed, f);
    }
}

proof fn lemma_first_of_each_distinct(s: Seq<RegistryModule>)
    ensures
        forall|i: int, j: int|
            0 <= i < j < first_of_each(s).len() ==> (#[trigger] first_of_each(s)[i]).uuid@ != (
            #[trigger] first_of_each(s)[j]).uuid@,
    decreases s.len(),
{
    if s.len() > 0 {
        lemma_first_of_each_distinct(s.drop_last());
        let d = first_of_each(s.drop_last());
        if !has_uuid(d, s.last().uuid@) {
            assert forall|i: int, j: int|
                0 <= i < j < first_of_each(s).len() implies (#[trigger] first_of_each(s)[i]).uuid@
                != (#[trigger] first_of_each(s)[j]).uuid@ by {
                if j == d.len() {
                    assert(first_of_each(s)[i] == d[i]);
                }
            }
        }
    }
}

/// What `suggestible_of` keeps is worth recommending, and keeps the order and distinctness of
/// identifiers of what it came from.
proof fn lemma_suggestible_of_sub(viewed: Seq<RecentModule>, s: Seq<RegistryModule>)
    requires
        forall|i: int, j: int|
            0 <= i < j < s.len() ==> (#[trigger] s[i]).uuid@ != (#[trigger] s[j]).uuid@,
    ensures
        forall|i: int|
            0 <= i < suggestible_of(viewed, s).len() ==> suggestible(
                viewed,
                #[trigger] suggestible_of(viewed, s)[i],
            ),
        forall|i: int|
            0 <= i < suggestible_of(viewed, s).len() ==> exists|t: int|
                0 <= t < s.len() && s[t] == #[trigger] suggestible_of(viewed, s)[i],
        forall|i: int, j: int|
            0 <= i < j < suggestible_of(viewed, s).len() ==> (#[trigger] suggestible_of(
                viewed,
                s,
            )[i]).uuid@ != (#[trigger] suggestible_of(viewed, s)[j]).uuid@,
    decreases s.len(),
{
    if s.len() > 0 {
        let p = s.drop_last();
        assert forall|i: int, j: int| 0 <= i < j < p.len() implies (#[trigger] p[i]).uuid@ != (
        #[trigger] p[j]).uuid@ by {
            assert(p[i] == s[i] && p[j] == s[j]);
        }
        lemma_suggestible_of_sub(viewed, p);
        let k = suggestible_of(viewed, p);
        assert forall|i: int|
            0 <= i < suggestible_of(viewed, s).len() implies exists|t: int|
                0 <= t < s.len() && s[t] == #[trigger] suggestible_of(viewed, s)[i] by {
            if i < k.len() {
                let t = choose|t: int| 0 <= t < p.len() && p[t] == k[i];
                assert(s[t] == suggestible_of(viewed, s)[i]);
            } else {
                assert(s[s.len() - 1] == suggestible_of(viewed, s)[i]);
            }
        }
        if suggestible(viewed, s.last()) {
            assert forall|i: int, j: int|
                0 <= i < j < suggestible_of(viewed, s).len() implies (#[trigger] suggestible_of(
                viewed,
                s,
            )[i]).uuid@ != (#[trigger] suggestible_of(viewed, s)[j]).uuid@ by {
                if j == k.len() {
                    let t = choose|t: int| 0 <= t < p.len() && p[t] == k[i];
                    assert(s[t] == k[i]);
                    assert(s[s.len() - 1] == s.last());
                }
            }
        }
    }
}

/// The title and text of the error page for an HTTP status: not found, or anything else.
pub fn error_page_text(status: u16) -> (r: (&'static str, &'static str))
    ensures
        r.0@ == (if status == 404 {
            "Page not found"@
        } else {
            "Something went wrong"@
        }),
        r.1@ == (if status == 404 {
            "We couldn’t find that page."@
        } else {
            "Please try again or return later."@
        }),
{
    if status == 404 {
        ("Page not found", "We couldn’t find that page.")
    } else {
        ("Something went wrong", "Please try again or return later.")
    }
}

/// The admin counts the dashboard reads from `state`: the fetched ones, else zeros.
pub open spec fn shown_admin_stats(state: RemoteState<AdminStats>) -> AdminStats {
    match state {
        RemoteState::Ready(stats) => stats,
        _ => AdminStats {
            total_modules: 0,
            total_users: 0,
            total_downloads: 0,
            pending_submissions: 0,
        },
    }
}

/// The pending count the dashboard shows: the total of the fetched submissions, else the
/// count in the stats.
pub open spec fn shown_pending(
    stats_state: RemoteState<AdminStats>,
    submissions_state: RemoteState<SubmissionsResponse>,
) -> i64 {
    match submissions_state {
        RemoteState::Ready(p) => p.total,
        _ => shown_admin_stats(stats_state).pending_submissions,
    }
}

/// The figures of the admin dashboard's overview, as shown.
#[derive(Debug, Clone, PartialEq, Eq)]
pub struct AdminOverview {
    pub total_modules: String,
    pub total_users: String,
    pub pending_submissions: String,
    /// Whether the queue says "No pending submissions": nothing is fetched, or the fetched
    /// list is empty.
    pub show_no_pending: bool,
}

/// The admin dashboard's overview: module, user and pending counts with thousands separators,
/// and whether the queue is shown empty.
pub fn admin_overview(
    stats_state: &RemoteState<AdminStats>,
    submissions_state: &RemoteState<SubmissionsResponse>,
) -> (r: AdminOverview)
    requires
        shown_admin_stats(*stats_state).total_modules != i64::MIN,
        shown_admin_stats(*stats_state).total_users != i64::MIN,
        shown_pending(*stats_state, *submissions_state) != i64::MIN,
    ensures
        r.total_modules@ == number_label(shown_admin_stats(*stats_state).total_modules as int),
        r.total_users@ == number_label(shown_admin_stats(*stats_state).total_users as int),
        r.pending_submissions@ == number_label(
            shown_pending(*stats_state, *submissions_state) as int,
        ),
        r.show_no_pending == match *submissions_state {
            RemoteState::Unavailable => true,
            RemoteState::Ready(p) => p.submissions@.len() == 0,
            _ => false,
        },
{
    let stats = admin_stats_from_state(stats_state);
    let (pending, show_no_pending) = match submissions_state {
        RemoteState::Ready(p) => (p.total, p.submissions.len() == 0),
        RemoteState::Unavailable => (stats.pending_submissions, true),
        _ => (stats.pending_submissions, false),
    };
    AdminOverview {
        total_modules: format_number(stats.total_modules),
        total_users: format_number(stats.total_users),
        pending_submissions: format_number(pending),
        show_no_pending,
    }
}

/// The order the search page uses when none is asked for.
pub const DEFAULT_SORT: &'static str = "popular";

/// Search results shown on one page.
pub const RESULTS_PER_PAGE: usize = 12;

/// A module is found by the lower-cased search text `q` within `category`: `q` is empty or
/// occurs in the lower-cased name, description or author, and the module is of `category` when
/// one is chosen.
pub open spec fn search_matches(
    m: RegistryModule,
    q: Seq<char>,
    category: Option<ModuleCategory>,
) -> bool {
    &&& (q.len() == 0 || contains_text(lowercased(m.name@), q) || contains_text(
        lowercased(m.description@),
        q,
    ) || contains_text(lowercased(m.author@), q))
    &&& match category {
        Some(c) => m.category == c,
        None => true,
    }
}

/// How many modules of `s` the search finds.
pub open spec fn search_match_count(
    s: Seq<RegistryModule>,
    q: Seq<char>,
    category: Option<ModuleCategory>,
) -> nat
    decreases s.len(),
{
    if s.len() == 0 {
        0
    } else {
        search_match_count(s.drop_last(), q, category) + if search_matches(s.last(), q, category) {
            1nat
        } else {
            0nat
        }
    }
}

fn lowered_contains(text: &str, q: &Vec<char>) -> (r: bool)
    ensures
        r == contains_text(lowercased(text@), q@),
{
    let lower = to_lowercase(text);
    let hay = chars_of(lower.as_str());
    find_chars(&hay, q).is_some()
}

/// How many of `modules` the search page finds for the text `query` (trimmed, then
/// lower-cased) within `category`.
pub fn search_result_count(
    modules: &[RegistryModule],
    query: &str,
    category: Option<ModuleCategory>,
) -> (r: usize)
    ensures
        r == search_match_count(modules@, lowercased(trimmed(query@)), category),
{
    let lower = to_lowercase(trim(query));
    let q = chars_of(lower.as_str());
    let ghost qs = lowercased(trimmed(query@));
    let mut count: usize = 0;
    let mut i: usize = 0;
    while i < modules.len()
        invariant
            i <= modules@.len(),
            q@ == qs,
            count == search_match_count(modules@.take(i as int), qs, category),
            count <= i,
        decreases modules@.len() - i,
    {
        let m = &modules[i];
        let text_found = q.len() == 0 || lowered_contains(m.name.as_str(), &q)
            || lowered_contains(m.description.as_str(), &q) || lowered_contains(
            m.author.as_str(),
            &q,
        );
        let in_category = match category {
            Some(c) => m.category == c,
            None => true,
        };
        assert(modules@.take(i + 1).drop_last() =~= modules@.take(i as int));
        if text_found && in_category {
            count = count + 1;
        }
        i = i + 1;
    }
    assert(modules@.take(modules@.len() as int) =~= modules@);
    count
}

/// How many result pages `count` results fill, [`RESULTS_PER_PAGE`] to a page.
pub fn result_pages(count: usize) -> (r: usize)
    ensures
        r == (count + RESULTS_PER_PAGE - 1) / (RESULTS_PER_PAGE as int),
{
    count / RESULTS_PER_PAGE + if count % RESULTS_PER_PAGE == 0 {
        0
    } else {
        1
    }
}

/// How many filters the search page has set: a search text, a category, an order other than
/// [`DEFAULT_SORT`].
pub fn active_filter_count(query: Option<&str>, category: Option<&str>, sort: Option<&str>) -> (r:
    usize)
    ensures
        r == (if query matches Some(q) && q@.len() > 0 {
            1int
        } else {
            0
        }) + (if category matches Some(c) && c@.len() > 0 {
            1int
        } else {
            0
        }) + (if sort matches Some(s) && s@ != DEFAULT_SORT@ {
            1int
        } else {
            0
        }),
{
    let mut r: usize = 0;
    if let Some(q) = query {
        if q.unicode_len() > 0 {
            r = r + 1;
        }
    }
    if let Some(c) = category {
        if c.unicode_len() > 0 {
            r = r + 1;
        }
    }
    if let Some(s) = sort {
        if !str_eq(s, DEFAULT_SORT) {
            r = r + 1;
        }
    }
    r
}

/// Whether the search page shows the recently viewed modules: there are some, and no filter is
/// set.
pub fn show_recently_viewed(recent_count: usize, active_filters: usize) -> (r: bool)
    ensures
        r == (recent_count > 0 && active_filters == 0),
{
    recent_count > 0 && active_filters == 0
}

/// The hint on the collapsed filter badge: "Expand to see 1 active filter", or the count and
/// "active filters" otherwise.
pub fn collapsed_badge_title(active_filters: usize) -> (r: String)
    ensures
        r@ == (if active_filters == 1 {
            "Expand to see 1 active filter"@
        } else {
            "Expand to see "@ + nat_decimal(active_filters as nat) + " active filters"@
        }),
{
    if active_filters == 1 {
        return "Expand to see 1 active filter".to_string();
    }
    let mut r = "Expand to see ".to_string();
    push_decimal(&mut r, active_filters as u64);
    r.append(" active filters");
    r
}

/// A way of installing Barforge, as the landing page's tabs offer it.
#[derive(Debug, Clone, Copy, PartialEq, Eq)]
pub struct InstallMethod {
    pub id: &'static str,
    pub label: &'static str,
    /// The tab's accent colour.
    pub color: &'static str,
    pub command: &'static str,
}

/// The command of the install method `index` of [`install_methods`]: shell, AUR, source.
pub open spec fn install_command_text(index: int) -> Seq<char> {
    if index == 1 {
        "yay -S barforge"@
    } else if index == 2 {
        "git clone https://github.com/jtaw5649/barforge-app && cd barforge-app && cargo build --release"@
    } else {
        "curl -sSL https://barforge.dev/install | sh"@
    }
}

/// The install methods, in tab order: the shell script, the AUR package, a build from source.
pub fn install_methods() -> (r: Vec<InstallMethod>)
    ensures
        r@.len() == 3,
        r@[0].id@ == "shell"@ && r@[0].label@ == "Shell"@ && r@[0].color@ == "#4EAA25"@,
        r@[1].id@ == "aur"@ && r@[1].label@ == "AUR"@ && r@[1].color@ == "#1793D1"@,
        r@[2].id@ == "source"@ && r@[2].label@ == "Source"@ && r@[2].color@ == "#DEA584"@,
        forall|i: int| 0 <= i < 3 ==> (#[trigger] r@[i]).command@ == install_command_text(i),
{
    let mut r: Vec<InstallMethod> = Vec::new();
    r.push(
        InstallMethod {
            id: "shell",
            label: "Shell",
            color: "#4EAA25",
            command: "curl -sSL https://barforge.dev/install | sh",
        },
    );
    r.push(InstallMethod { id: "aur", label: "AUR", color: "#1793D1", command: "yay -S barforge" });
    r.push(
        InstallMethod {
            id: "source",
            label: "Source",
            color: "#DEA584",
            command: "git clone https://github.com/jtaw5649/barforge-app && cd barforge-app && cargo build --release",
        },
    );
    r
}

/// The command copied for the selected tab `index`; the first method's when there is no such
/// tab.
pub fn install_command(index: usize) -> (r: &'static str)
    ensures
        r@ == install_command_text(index as int),
{
    let methods = install_methods();
    if index < methods.len() {
        methods[index].command
    } else {
        methods[0].command
    }
}

/// The install tab selected when the landing page opens: the AUR package.
pub fn default_install_tab() -> (r: usize)
    ensures
        r == 1,
        install_command_text(r as int) == "yay -S barforge"@,
{
    1
}

/// The accessibility attributes of one install tab and its panel.
#[derive(Debug, Clone, PartialEq, Eq)]
pub struct InstallTab {
    /// `install-tab-` and the tab's position.
    pub tab_id: String,
    /// `install-panel-` and the tab's position; the tab controls it, and it is labelled by the tab.
    pub panel_id: String,
    /// `install-` and the method's id.
    pub key: String,
    /// The tab is the selected one (`aria-selected`, and its panel is shown).
    pub selected: bool,
    /// `0` for the selected tab, `-1` for the others.
    pub tab_index: &'static str,
}

/// The attributes of tab `index`, for the method `method_id`, while tab `active` is selected.
pub fn install_tab(index: usize, active: usize, method_id: &str) -> (r: InstallTab)
    ensures
        r.tab_id@ == "install-tab-"@ + nat_decimal(index as nat),
        r.panel_id@ == "install-panel-"@ + nat_decimal(index as nat),
        r.key@ == "install-"@ + method_id@,
        r.selected == (index == active),
        r.tab_index@ == (if index == active {
            "0"@
        } else {
            "-1"@
        }),
{
    let mut tab_id = "install-tab-".to_string();
    push_decimal(&mut tab_id, index as u64);
    let mut panel_id = "install-panel-".to_string();
    push_decimal(&mut panel_id, index as u64);
    let mut key = "install-".to_string();
    key.append(method_id);
    let selected = index == active;
    InstallTab {
        tab_id,
        panel_id,
        key,
        selected,
        tab_index: if selected {
            "0"
        } else {
            "-1"
        },
    }
}

/// Whether Ctrl+C copies the install command: the pointer is over the install section, nothing
/// was just copied, the key is `c` or `C` with Ctrl held, the focus is in no text field
/// (`INPUT` or `TEXTAREA`), and no text is selected.
pub fn copy_shortcut_applies(
    pointer_in_section: bool,
    copied: bool,
    ctrl: bool,
    key: &str,
    target_tag: Option<&str>,
    selection_empty: bool,
) -> (r: bool)
    ensures
        r == (pointer_in_section && !copied && ctrl && (key@ == "c"@ || key@ == "C"@) && !(
        target_tag matches Some(t) && (t@ == "INPUT"@ || t@ == "TEXTAREA"@)) && selection_empty),
{
    if !pointer_in_section || copied || !ctrl {
        return false;
    }
    if !str_eq(key, "c") && !str_eq(key, "C") {
        return false;
    }
    if let Some(t) = target_tag {
        if str_eq(t, "INPUT") || str_eq(t, "TEXTAREA") {
            return false;
        }
    }
    selection_empty
}

} // verus!
