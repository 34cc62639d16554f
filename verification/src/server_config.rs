//! Settings of the web server read from its environment, and the rules of its request guard.
use vstd::prelude::*;
use vstd::string::StringExecFns;

use crate::text::{
    ascii_lower, chars_of, contains_string, has_prefix, starts_with, str_eq, string_of,
    spec_is_ascii_digit, is_ascii_digit, string_views, to_ascii_lowercase, trim, trim_end_char,
    trim_end_matches_char, trimmed,
};

verus! {

broadcast use vstd::string::group_string_axioms;

/// Public base URL used when none is configured.
pub const DEFAULT_APP_BASE_URL: &'static str = "http://127.0.0.1:8080";

/// Session database used when none is configured.
pub const DEFAULT_SESSION_DB_URL: &'static str = "sqlite://.barforge/sessions.db";

/// The public base URL: the configured one (or the default) without trailing slashes.
pub fn app_base_url(value: Option<&str>) -> (r: String)
    ensures
        r@ == trim_end_char(
            match value {
                Some(v) => v@,
                None => DEFAULT_APP_BASE_URL@,
            },
            '/',
        ),
{
    let base = match value {
        Some(v) => v,
        None => DEFAULT_APP_BASE_URL,
    };
    trim_end_matches_char(base, '/').to_string()
}

/// The session database URL: the configured one, else the default file.
pub fn session_db_url(value: Option<&str>) -> (r: String)
    ensures
        r@ == (match value {
            Some(v) => v@,
            None => DEFAULT_SESSION_DB_URL@,
        }),
{
    match value {
        Some(v) => v.to_string(),
        None => DEFAULT_SESSION_DB_URL.to_string(),
    }
}

/// Whether session cookies are marked secure: `true`/`1` and `false`/`0` (in any ASCII case)
/// decide; any other value, or none, leaves it to the build (`release_build`).
pub fn session_secure_cookie(value: Option<&str>, release_build: bool) -> (r: bool)
    ensures
        r == (match value {
            Some(v) => {
                let lower = ascii_lower(v@);
                if lower == "true"@ || lower == "1"@ {
                    true
                } else if lower == "false"@ || lower == "0"@ {
                    false
                } else {
                    release_build
                }
            },
            None => release_build,
        }),
{
    match value {
        Some(v) => {
            let lower = to_ascii_lowercase(v);
            if str_eq(lower.as_str(), "true") || str_eq(lower.as_str(), "1") {
                true
            } else if str_eq(lower.as_str(), "false") || str_eq(lower.as_str(), "0") {
                false
            } else {
                release_build
            }
        },
        None => release_build,
    }
}

/// The pieces of `s` between occurrences of `sep` (`str::split` with a char), in order.
pub open spec fn split_char(s: Seq<char>, sep: char) -> Seq<Seq<char>>
    decreases s.len(),
{
    if s.len() == 0 {
        seq![Seq::empty()]
    } else {
        let before = split_char(s.drop_last(), sep);
        if s.last() == sep {
            before.push(Seq::empty())
        } else {
            before.update(before.len() - 1, before.last().push(s.last()))
        }
    }
}

proof fn lemma_split_char_nonempty(s: Seq<char>, sep: char)
    ensures
        split_char(s, sep).len() >= 1,
    decreases s.len(),
{
    if s.len() > 0 {
        lemma_split_char_nonempty(s.drop_last(), sep);
    }
}

/// The trimmed pieces that are not empty, in order.
pub open spec fn nonempty_trimmed(pieces: Seq<Seq<char>>) -> Seq<Seq<char>>
    decreases pieces.len(),
{
    if pieces.len() == 0 {
        Seq::empty()
    } else {
        let before = nonempty_trimmed(pieces.drop_last());
        let t = trimmed(pieces.last());
        if t.len() == 0 {
            before
        } else {
            before.push(t)
        }
    }
}

/// The administrator logins of a comma-separated list: each entry trimmed, empty entries dropped.
pub open spec fn admin_list(value: Seq<char>) -> Seq<Seq<char>> {
    nonempty_trimmed(split_char(value, ','))
}

/// The character sequences of a list of character vectors.
pub open spec fn char_vec_views(v: Seq<Vec<char>>) -> Seq<Seq<char>> {
    v.map_values(|p: Vec<char>| p@)
}

pub(crate) fn split_on_char(s: &str, sep: char) -> (r: Vec<Vec<char>>)
    ensures
        char_vec_views(r@) == split_char(s@, sep),
{
    let v = chars_of(s);
    let mut done: Vec<Vec<char>> = Vec::new();
    let mut current: Vec<char> = Vec::new();
    let mut i: usize = 0;
    assert(char_vec_views(done@).push(current@) =~= split_char(v@.take(0), sep));
    while i < v.len()
        invariant
            i <= v.len(),
            v@ == s@,
            char_vec_views(done@).push(current@) == split_char(v@.take(i as int), sep),
        decreases v.len() - i,
    {
        let c = v[i];
        let ghost prefix = v@.take(i as int);
        let ghost old_done = done@;
        let ghost old_current = current@;
        assert(v@.take(i + 1).drop_last() == prefix);
        assert(v@.take(i + 1).last() == c);
        if c == sep {
            done.push(current);
            current = Vec::new();
            assert(char_vec_views(done@) =~= char_vec_views(old_done).push(old_current));
            assert(char_vec_views(done@).push(current@) =~= split_char(v@.take(i + 1), sep));
        } else {
            current.push(c);
            assert(char_vec_views(done@).push(current@) =~= split_char(v@.take(i + 1), sep));
        }
        i = i + 1;
    }
    assert(v@.take(v.len() as int) == v@);
    let ghost old_done = done@;
    let ghost old_current = current@;
    done.push(current);
    assert(char_vec_views(done@) =~= char_vec_views(old_done).push(old_current));
    done
}

/// Parses the administrator list (`BARFORGE_ADMIN_LOGINS`): comma-separated, entries trimmed,
/// empty entries dropped; no value gives an empty list.
pub fn admin_logins_from_env(value: Option<&str>) -> (r: Vec<String>)
    ensures
        string_views(r@) == admin_list(
            match value {
                Some(v) => v@,
                None => Seq::empty(),
            },
        ),
{
    let text = match value {
        Some(v) => v,
        None => "",
    };
    proof {
        reveal_strlit("");
    }
    let pieces = split_on_char(text, ',');
    let mut out: Vec<String> = Vec::new();
    let mut k: usize = 0;
    while k < pieces.len()
        invariant
            k <= pieces.len(),
            char_vec_views(pieces@) == split_char(text@, ','),
            string_views(out@) == nonempty_trimmed(char_vec_views(pieces@).take(k as int)),
        decreases pieces.len() - k,
    {
        let piece = string_of(&pieces[k]);
        let t = trim(piece.as_str());
        let ghost taken = char_vec_views(pieces@).take(k as int);
        assert(char_vec_views(pieces@).take(k + 1).drop_last() == taken);
        assert(char_vec_views(pieces@).take(k + 1).last() == pieces@[k as int]@);
        if t.unicode_len() > 0 {
            let ghost before = out@;
            out.push(t.to_string());
            assert(string_views(out@) =~= string_views(before).push(t@));
        }
        k = k + 1;
    }
    assert(char_vec_views(pieces@).take(pieces.len() as int) == char_vec_views(pieces@));
    out
}

/// Paths that require a signed-in user.
pub open spec fn spec_is_protected_path(path: Seq<char>) -> bool {
    path == "/dashboard"@ || path == "/upload"@ || path == "/admin"@ || path == "/settings"@
        || has_prefix(path, "/settings/"@)
}

/// Paths that require an administrator.
pub open spec fn spec_is_admin_path(path: Seq<char>) -> bool {
    path == "/admin"@ || has_prefix(path, "/admin/"@)
}

/// Whether `path` requires a signed-in user.
pub fn is_protected_path(path: &str) -> (r: bool)
    ensures
        r == spec_is_protected_path(path@),
{
    str_eq(path, "/dashboard") || str_eq(path, "/upload") || str_eq(path, "/admin") || str_eq(
        path,
        "/settings",
    ) || starts_with(path, "/settings/")
}

/// Whether `path` requires an administrator.
pub fn is_admin_path(path: &str) -> (r: bool)
    ensures
        r == spec_is_admin_path(path@),
{
    str_eq(path, "/admin") || starts_with(path, "/admin/")
}

/// `value` with a `/` appended unless it already ends with one.
pub fn ensure_trailing_slash(value: &str) -> (r: String)
    ensures
        r@ == (if value@.len() > 0 && value@.last() == '/' {
            value@
        } else {
            value@.push('/')
        }),
{
    let n = value.unicode_len();
    if n > 0 && value.get_char(n - 1) == '/' {
        value.to_string()
    } else {
        let mut r = value.to_string();
        crate::text::push_char(&mut r, '/');
        r
    }
}

/// The file path of a `sqlite://` URL; none for other URLs, an empty path or `:memory:`.
pub fn sqlite_path_from_url(db_url: &str) -> (r: Option<String>)
    ensures
        r is Some <==> has_prefix(db_url@, "sqlite://"@) && db_url@.skip(9).len() > 0
            && db_url@.skip(9) != ":memory:"@,
        r matches Some(p) ==> has_prefix(db_url@, "sqlite://"@) && p@ == db_url@.skip(9),
{
    proof {
        reveal_strlit("sqlite://");
    }
    if !starts_with(db_url, "sqlite://") {
        return None;
    }
    let n = db_url.unicode_len();
    let path = db_url.substring_char(9, n);
    if path.unicode_len() == 0 || str_eq(path, ":memory:") {
        return None;
    }
    Some(path.to_string())
}

/// Whether `login` is on the configured administrator list.
pub fn is_admin_login(admin_logins: &Vec<String>, login: &str) -> (r: bool)
    ensures
        r == string_views(admin_logins@).contains(login@),
{
    contains_string(admin_logins, login)
}

/// The number written by the decimal digits `t`.
pub open spec fn digits_value(t: Seq<char>) -> nat
    decreases t.len(),
{
    if t.len() == 0 {
        0
    } else {
        digits_value(t.drop_last()) * 10 + ((t.last() as nat) - 48) as nat
    }
}

/// The digits part of a `u64` text: without one leading `+`.
pub open spec fn unsigned_digits(s: Seq<char>) -> Seq<char> {
    if s.len() > 0 && s[0] == '+' {
        s.drop_first()
    } else {
        s
    }
}

/// Every character of `t` is an ASCII digit.
pub open spec fn all_ascii_digits(t: Seq<char>) -> bool {
    forall|i: int| 0 <= i < t.len() ==> spec_is_ascii_digit(#[trigger] t[i])
}

/// What `u64::from_str` accepts: an optional `+`, then one or more ASCII digits whose value fits.
pub open spec fn parsed_u64(s: Seq<char>) -> Option<u64> {
    let t = unsigned_digits(s);
    if t.len() > 0 && all_ascii_digits(t) && digits_value(t) <= u64::MAX {
        Some(digits_value(t) as u64)
    } else {
        None
    }
}

proof fn lemma_digits_value_grows(t: Seq<char>, k: int)
    requires
        0 <= k <= t.len(),
        all_ascii_digits(t),
    ensures
        digits_value(t.take(k)) <= digits_value(t),
    decreases t.len() - k,
{
    if k < t.len() {
        lemma_digits_value_grows(t, k + 1);
        assert(t.take(k + 1).drop_last() == t.take(k));
    } else {
        assert(t.take(k) == t);
    }
}

/// `u64::from_str` on a header value: the number, or none when the text is not one.
pub fn parse_u64(s: &str) -> (r: Option<u64>)
    ensures
        r == parsed_u64(s@),
{
    let v = chars_of(s);
    let mut start: usize = 0;
    if v.len() > 0 && v[0] == '+' {
        start = 1;
    }
    let ghost t = unsigned_digits(s@);
    assert(t == v@.skip(start as int));
    if start >= v.len() {
        return None;
    }
    let mut acc: u64 = 0;
    let mut i: usize = start;
    while i < v.len()
        invariant
            start <= i <= v.len(),
            t == v@.skip(start as int),
            t == unsigned_digits(s@),
            acc == digits_value(t.take(i - start)),
            forall|j: int| 0 <= j < i - start ==> spec_is_ascii_digit(#[trigger] t[j]),
        decreases v.len() - i,
    {
        let c = v[i];
        assert(t[i - start] == c);
        if !is_ascii_digit(c) {
            assert(!spec_is_ascii_digit(t[i - start]));
            assert(!all_ascii_digits(t));
            return None;
        }
        let d: u64 = ((c as u32) - 48) as u64;
        let ghost k: int = i - start;
        assert(t.take(k + 1).drop_last() == t.take(k));
        assert(t.take(k + 1).last() == c);
        assert(digits_value(t.take(k + 1)) == digits_value(t.take(k)) * 10 + ((c as nat) - 48));
        assert(digits_value(t.take(k + 1)) == acc * 10 + d);
        match acc.checked_mul(10) {
            Some(m) => match m.checked_add(d) {
                Some(n) => {
                    acc = n;
                },
                None => {
                    proof {
                        overflow_is_not_accepted(t, k + 1);
                    }
                    return None;
                },
            },
            None => {
                proof {
                    overflow_is_not_accepted(t, k + 1);
                }
                return None;
            },
        }
        i = i + 1;
    }
    assert(t.take(t.len() as int) == t);
    Some(acc)
}

/// What `i64::from_str` accepts: an optional `+` or `-`, then one or more ASCII digits whose
/// value, with the sign, fits.
pub open spec fn parsed_i64(s: Seq<char>) -> Option<i64> {
    let negative = s.len() > 0 && s[0] == '-';
    let t = if s.len() > 0 && (s[0] == '+' || s[0] == '-') {
        s.drop_first()
    } else {
        s
    };
    if t.len() > 0 && all_ascii_digits(t) {
        if negative {
            if digits_value(t) <= 0x8000_0000_0000_0000 {
                Some((0 - digits_value(t)) as i64)
            } else {
                None
            }
        } else if digits_value(t) <= i64::MAX {
            Some(digits_value(t) as i64)
        } else {
            None
        }
    } else {
        None
    }
}

/// `i64::from_str` (see [`parsed_i64`]).
pub fn parse_i64(s: &str) -> (r: Option<i64>)
    ensures
        r == parsed_i64(s@),
{
    let v = chars_of(s);
    let negative = v.len() > 0 && v[0] == '-';
    let mut start: usize = 0;
    if v.len() > 0 && (v[0] == '+' || v[0] == '-') {
        start = 1;
    }
    let ghost t = if s@.len() > 0 && (s@[0] == '+' || s@[0] == '-') {
        s@.drop_first()
    } else {
        s@
    };
    assert(t == v@.skip(start as int));
    if start >= v.len() {
        return None;
    }
    let mut acc: u64 = 0;
    let mut i: usize = start;
    while i < v.len()
        invariant
            start <= i <= v.len(),
            v@ == s@,
            negative == (s@.len() > 0 && s@[0] == '-'),
            t == (if s@.len() > 0 && (s@[0] == '+' || s@[0] == '-') {
                s@.drop_first()
            } else {
                s@
            }),
            t == v@.skip(start as int),
            acc == digits_value(t.take(i - start)),
            acc <= 0x8000_0000_0000_0000u64,
            forall|j: int| 0 <= j < i - start ==> spec_is_ascii_digit(#[trigger] t[j]),
        decreases v.len() - i,
    {
        let c = v[i];
        assert(t[i - start] == c);
        if !is_ascii_digit(c) {
            assert(!spec_is_ascii_digit(t[i - start]));
            assert(!all_ascii_digits(t));
            return None;
        }
        let d: u64 = ((c as u32) - 48) as u64;
        let ghost k: int = i - start;
        assert(t.take(k + 1).drop_last() == t.take(k));
        assert(t.take(k + 1).last() == c);
        assert(digits_value(t.take(k + 1)) == digits_value(t.take(k)) * 10 + ((c as nat) - 48));
        if acc > 922337203685477580 || (acc == 922337203685477580 && d > 8) {
            proof {
                assert(digits_value(t.take(k + 1)) > 0x8000_0000_0000_0000);
                if all_ascii_digits(t) {
                    lemma_digits_value_grows(t, k + 1);
                }
            }
            return None;
        }
        acc = acc * 10 + d;
        i = i + 1;
    }
    assert(t.take(t.len() as int) == t);
    if negative {
        if acc == 0x8000_0000_0000_0000u64 {
            Some(i64::MIN)
        } else {
            Some(0 - (acc as i64))
        }
    } else if acc <= 0x7fff_ffff_ffff_ffffu64 {
        Some(acc as i64)
    } else {
        None
    }
}

proof fn overflow_is_not_accepted(t: Seq<char>, k: int)
    requires
        0 < k <= t.len(),
        digits_value(t.take(k)) > u64::MAX,
        forall|j: int| 0 <= j < k ==> spec_is_ascii_digit(#[trigger] t[j]),
    ensures
        !(all_ascii_digits(t) && digits_value(t) <= u64::MAX),
{
    if all_ascii_digits(t) {
        lemma_digits_value_grows(t, k);
    }
}

/// The status the server forwards when the registry answers `status` (with the
/// `Content-Length` text `content_length`): 401 and 403 pass through, other failures pass
/// through when the answer has a body (a positive `Content-Length`), and everything else becomes
/// 502 Bad Gateway.
pub open spec fn mapped_status(status: u16, content_length: Option<Seq<char>>) -> u16 {
    if status == 401 || status == 403 {
        status
    } else if !(200 <= status <= 299) && (match content_length {
        Some(v) => match parsed_u64(v) {
            Some(n) => n > 0,
            None => false,
        },
        None => false,
    }) {
        status
    } else {
        502
    }
}

/// The status the server forwards for a registry answer (see [`mapped_status`]).
pub fn map_status(status: u16, content_length: Option<&str>) -> (r: u16)
    ensures
        r == mapped_status(
            status,
            match content_length {
                Some(v) => Some(v@),
                None => None,
            },
        ),
{
    if status == 401 || status == 403 {
        return status;
    }
    let has_body = match content_length {
        Some(v) => match parse_u64(v) {
            Some(n) => n > 0,
            None => false,
        },
        None => false,
    };
    if !(200 <= status && status <= 299) && has_body {
        return status;
    }
    502
}

} // verus!
