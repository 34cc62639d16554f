//! The command palette: the pages and commands it offers, how a typed query scores them, and
//! the order it lists them in.
use vstd::prelude::*;
use vstd::utf8::*;

use crate::text::{
    lowercased, to_lowercase, trim, trimmed, first_occurrence, lemma_first_occurrence_at, lemma_first_occurrence_facts, occurs_at,
};

verus! {

broadcast use vstd::string::group_string_axioms;

/// How far a greedy left-to-right search for the characters of a query got.
pub enum Subsequence {
    /// Every character was found; the bytes skipped between them, in total.
    Gaps(int),
    /// Some character was not found.
    Missing,
    /// The search would resume inside a character's encoding.
    Stuck,
}

/// Searches the UTF-8 bytes `h`, from byte `last` on, for each character of `q` in turn: each
/// is looked for after the byte that follows the previous match (the previous match's first byte
/// plus one), and the bytes skipped before each match are added up.
#[verifier::opaque]
pub open spec fn subsequence_from(h: Seq<u8>, q: Seq<char>, last: int, gaps: int) -> Subsequence
    decreases q.len(),
{
    if q.len() == 0 {
        Subsequence::Gaps(gaps)
    } else if !is_char_boundary(h, last) {
        Subsequence::Stuck
    } else {
        match first_occurrence(h.skip(last), encode_scalar(q[0] as u32)) {
            None => Subsequence::Missing,
            Some(idx) => subsequence_from(h, q.drop_first(), last + idx + 1, gaps + idx),
        }
    }
}

/// How well `hay` matches `needle` (both already trimmed and lower-cased as needed): an empty
/// needle scores 0; a needle found whole scores 1000 less the byte position where it first
/// occurs; otherwise a needle whose characters all occur in order scores 300 less the bytes
/// skipped between them; anything else does not match.
pub open spec fn text_score(hay: Seq<char>, needle: Seq<char>) -> Option<int> {
    if needle.len() == 0 {
        Some(0)
    } else {
        let h = encode_utf8(hay);
        match first_occurrence(h, encode_utf8(needle)) {
            Some(pos) => Some(1000 - pos),
            None => match subsequence_from(h, needle, 0, 0) {
                Subsequence::Gaps(g) => Some(300 - g),
                _ => None,
            },
        }
    }
}

/// The score is defined: the text is shorter than 2^31 bytes, and the search for the needle's
/// characters does not resume inside a character.
pub open spec fn score_defined(hay: Seq<char>, needle: Seq<char>) -> bool {
    &&& encode_utf8(hay).len() <= i32::MAX
    &&& (needle.len() == 0 || first_occurrence(encode_utf8(hay), encode_utf8(needle)) is Some
        || !(subsequence_from(encode_utf8(hay), needle, 0, 0) is Stuck))
}

fn bytes_match_at(s: &[u8], p: &Vec<u8>, at: usize) -> (r: bool)
    requires
        at + p@.len() <= s.len(),
    ensures
        r == occurs_at(s@, p@, at as int),
{
    let mut k: usize = 0;
    while k < p.len()
        invariant
            k <= p@.len(),
            at + p@.len() <= s.len(),
            forall|j: int| 0 <= j < k ==> s@[at + j] == p@[j],
        decreases p@.len() - k,
    {
        if s[at + k] != p[k] {
            assert(s@.subrange(at as int, at + p@.len())[k as int] != p@[k as int]);
            return false;
        }
        k = k + 1;
    }
    assert(s@.subrange(at as int, at + p@.len()) =~= p@);
    true
}

/// The first position, counted from byte `from`, where the bytes `p` occur in `s`.
fn find_bytes(s: &[u8], from: usize, p: &Vec<u8>) -> (r: Option<usize>)
    requires
        from <= s@.len(),
    ensures
        match r {
            Some(i) => first_occurrence(s@.skip(from as int), p@) == Some(i as int),
            None => first_occurrence(s@.skip(from as int), p@) is None,
        },
{
    let ghost t = s@.skip(from as int);
    assert forall|i: int| 0 <= i ==> #[trigger] occurs_at(t, p@, i) == occurs_at(
        s@,
        p@,
        from + i,
    ) by {
        if 0 <= i && i + p@.len() <= t.len() {
            assert(t.subrange(i, i + p@.len()) =~= s@.subrange(from + i, from + i + p@.len()));
        }
    }
    if p.len() > s.len() - from {
        assert forall|j: int| !occurs_at(t, p@, j) by {}
        return None;
    }
    let last = s.len() - from - p.len();
    let mut i: usize = 0;
    while i < last
        invariant
            i <= last,
            last == s.len() - from - p@.len(),
            from + last + p@.len() == s.len(),
            t == s@.skip(from as int),
            forall|j: int| 0 <= j < i ==> !occurs_at(t, p@, j),
            forall|i: int| 0 <= i ==> #[trigger] occurs_at(t, p@, i) == occurs_at(
                s@,
                p@,
                from + i,
            ),
        decreases last - i,
    {
        if bytes_match_at(s, p, from + i) {
            assert(occurs_at(t, p@, i as int));
            proof {
                lemma_first_occurrence_at(t, p@, i as int);
            }
            return Some(i);
        }
        i = i + 1;
    }
    if bytes_match_at(s, p, from + last) {
        assert(occurs_at(t, p@, last as int));
        proof {
            lemma_first_occurrence_at(t, p@, last as int);
        }
        return Some(last);
    }
    assert forall|j: int| !occurs_at(t, p@, j) by {
        if 0 <= j < i {
        }
    }
    None
}

fn copy_bytes(s: &[u8], a: usize, b: usize) -> (r: Vec<u8>)
    requires
        a <= b <= s@.len(),
    ensures
        r@ == s@.subrange(a as int, b as int),
{
    let mut r: Vec<u8> = Vec::new();
    let mut i: usize = a;
    while i < b
        invariant
            a <= i <= b <= s@.len(),
            r@ == s@.subrange(a as int, i as int),
        decreases b - i,
    {
        r.push(s[i]);
        i = i + 1;
        assert(r@ =~= s@.subrange(a as int, i as int));
    }
    r
}

/// Bytes in the UTF-8 encoding of the character whose first byte is `lead`.
fn encoded_width(lead: u8) -> (n: usize)
    ensures
        n == length_of_first_codepoint(seq![lead]),
{
    if lead <= 0x7f {
        1
    } else if 0xc0 <= lead && lead <= 0xdf {
        2
    } else if 0xe0 <= lead && lead <= 0xef {
        3
    } else {
        4
    }
}

proof fn lemma_encode_utf8_split(cs: Seq<char>)
    requires
        cs.len() > 0,
    ensures
        encode_utf8(cs) == encode_scalar(cs[0] as u32) + encode_utf8(cs.drop_first()),
        encode_scalar(cs[0] as u32).len() == length_of_first_codepoint(seq![encode_utf8(cs)[0]]),
        1 <= encode_scalar(cs[0] as u32).len() <= 4,
{
    encode_utf8_first_scalar(cs);
    let e = encode_scalar(cs[0] as u32);
    assert(e.len() >= 1);
    assert(encode_utf8(cs)[0] == e[0]);
}

proof fn lemma_scan_step(q: Seq<u8>, chars: Seq<char>, c: int, p: int)
    requires
        0 <= c <= chars.len(),
        0 <= p < q.len(),
        q.skip(p) == encode_utf8(chars.skip(c)),
    ensures
        c < chars.len(),
        chars.skip(c)[0] == chars[c],
        chars.skip(c).drop_first() == chars.skip(c + 1),
        encode_scalar(chars[c] as u32).len() == length_of_first_codepoint(seq![q[p]]),
        p + encode_scalar(chars[c] as u32).len() <= q.len(),
        q.subrange(p, p + encode_scalar(chars[c] as u32).len()) == encode_scalar(chars[c] as u32),
        q.skip(p + encode_scalar(chars[c] as u32).len()) == encode_utf8(chars.skip(c + 1)),
{
    let rest = chars.skip(c);
    if rest.len() == 0 {
        assert(encode_utf8(rest).len() == 0);
        assert(q.skip(p).len() > 0);
    }
    lemma_encode_utf8_split(rest);
    let e = encode_scalar(rest[0] as u32);
    assert(q.skip(p)[0] == q[p]);
    assert(rest.drop_first() =~= chars.skip(c + 1));
    assert(q.subrange(p, p + e.len()) =~= q.skip(p).subrange(0, e.len() as int));
    assert(q.skip(p + e.len()) =~= q.skip(p).skip(e.len() as int));
}

proof fn lemma_boundary(h: Seq<u8>, last: int)
    requires
        valid_utf8(h),
        0 <= last <= h.len(),
    ensures
        is_char_boundary(h, last) <==> (last == h.len() || !is_continuation_byte(h[last])),
{
    is_char_boundary_start_end_of_seq(h);
    if last < h.len() {
        is_char_boundary_iff_not_is_continuation_byte(h, last);
    }
}

/// Outcome of the greedy search, as held at run time.
enum Scan {
    Gaps(usize),
    Missing,
    Stuck,
}

fn scan_subsequence(h: &[u8], q: &[u8], Ghost(hay): Ghost<Seq<char>>, Ghost(chars): Ghost<Seq<char>>) -> (r: Scan)
    requires
        h@ == encode_utf8(hay),
        q@ == encode_utf8(chars),
    ensures
        match r {
            Scan::Gaps(g) => subsequence_from(h@, chars, 0, 0) == Subsequence::Gaps(g as int),
            Scan::Missing => subsequence_from(h@, chars, 0, 0) == Subsequence::Missing,
            Scan::Stuck => subsequence_from(h@, chars, 0, 0) == Subsequence::Stuck,
        },
{
    proof {
        encode_utf8_valid_utf8(hay);
        is_char_boundary_start_end_of_seq(h@);
    }
    let mut p: usize = 0;
    let mut last: usize = 0;
    let mut gaps: usize = 0;
    let ghost mut c: int = 0;
    assert(q@.skip(0) =~= q@);
    assert(chars.skip(0) =~= chars);
    while p < q.len()
        invariant
            valid_utf8(h@),
            0 <= c <= chars.len(),
            p <= q@.len(),
            q@.skip(p as int) == encode_utf8(chars.skip(c)),
            last <= h@.len(),
            gaps <= last,
            subsequence_from(h@, chars, 0, 0) == subsequence_from(
                h@,
                chars.skip(c),
                last as int,
                gaps as int,
            ),
        decreases q@.len() - p,
    {
        proof {
            lemma_scan_step(q@, chars, c, p as int);
            lemma_subsequence_step(h@, chars.skip(c), last as int, gaps as int);
            lemma_boundary(h@, last as int);
        }
        if last < h.len() && 0x80 <= h[last] && h[last] <= 0xbf {
            return Scan::Stuck;
        }
        let width = encoded_width(q[p]);
        let pat = copy_bytes(q, p, p + width);
        match find_bytes(h, last, &pat) {
            None => {
                return Scan::Missing;
            },
            Some(idx) => {
                proof {
                    lemma_first_occurrence_facts(h@.skip(last as int), pat@);
                }
                gaps = gaps + idx;
                last = last + idx + 1;
                p = p + width;
                proof {
                    c = c + 1;
                }
            },
        }
    }
    assert(chars.skip(c).len() == 0) by {
        if chars.skip(c).len() > 0 {
            lemma_encode_utf8_split(chars.skip(c));
        }
    }
    proof {
        lemma_subsequence_done(h@, chars.skip(c), last as int, gaps as int);
    }
    Scan::Gaps(gaps)
}

/// Scores `haystack` against `needle` (see [`text_score`]).
#[verifier::rlimit(40)]
pub fn palette_score(haystack: &str, needle: &str) -> (r: Option<i32>)
    requires
        score_defined(haystack@, needle@),
    ensures
        match text_score(haystack@, needle@) {
            Some(s) => r is Some && r->0 == s,
            None => r is None,
        },
{
    if needle.unicode_len() == 0 {
        return Some(0);
    }
    let h = haystack.as_bytes();
    let q = needle.as_bytes();
    let qv = copy_bytes(q, 0, q.len());
    assert(q@.subrange(0, q@.len() as int) =~= q@);
    assert(h@.skip(0) =~= h@);
    match find_bytes(h, 0, &qv) {
        Some(pos) => {
            proof {
                lemma_first_occurrence_facts(h@, q@);
            }
            Some(1000 - pos as i32)
        },
        None => match scan_subsequence(h, q, Ghost(haystack@), Ghost(needle@)) {
            Scan::Gaps(g) => {
                assert(g <= h@.len()) by {
                    lemma_gaps_bounded(h@, needle@, 0, 0);
                }
                Some(300 - g as i32)
            },
            _ => None,
        },
    }
}

proof fn lemma_subsequence_step(h: Seq<u8>, q: Seq<char>, last: int, gaps: int)
    requires
        q.len() > 0,
    ensures
        !is_char_boundary(h, last) ==> subsequence_from(h, q, last, gaps) == Subsequence::Stuck,
        is_char_boundary(h, last) ==> subsequence_from(h, q, last, gaps) == match first_occurrence(
            h.skip(last),
            encode_scalar(q[0] as u32),
        ) {
            None => Subsequence::Missing,
            Some(idx) => subsequence_from(h, q.drop_first(), last + idx + 1, gaps + idx),
        },
{
    reveal(subsequence_from);
}

proof fn lemma_subsequence_done(h: Seq<u8>, q: Seq<char>, last: int, gaps: int)
    requires
        q.len() == 0,
    ensures
        subsequence_from(h, q, last, gaps) == Subsequence::Gaps(gaps),
{
    reveal(subsequence_from);
}

proof fn lemma_gaps_bounded(h: Seq<u8>, q: Seq<char>, last: int, gaps: int)
    requires
        0 <= gaps <= last <= h.len(),
    ensures
        subsequence_from(h, q, last, gaps) matches Subsequence::Gaps(g) ==> 0 <= g <= h.len(),
    decreases q.len(),
{
    if q.len() == 0 {
        lemma_subsequence_done(h, q, last, gaps);
    } else {
        lemma_subsequence_step(h, q, last, gaps);
    }
    if q.len() > 0 && is_char_boundary(h, last) {
        match first_occurrence(h.skip(last), encode_scalar(q[0] as u32)) {
            None => {},
            Some(idx) => {
                lemma_first_occurrence_facts(h.skip(last), encode_scalar(q[0] as u32));
                assert(encode_scalar(q[0] as u32).len() >= 1);
                lemma_gaps_bounded(h, q.drop_first(), last + idx + 1, gaps + idx);
            },
        }
    }
}

/// Whether [`palette_score`] may be asked to score `haystack` against `needle`.
pub fn score_is_defined(haystack: &str, needle: &str) -> (r: bool)
    ensures
        r == score_defined(haystack@, needle@),
{
    let h = haystack.as_bytes();
    if h.len() > 2147483647 {
        return false;
    }
    if needle.unicode_len() == 0 {
        return true;
    }
    let q = needle.as_bytes();
    let qv = copy_bytes(q, 0, q.len());
    assert(q@.subrange(0, q@.len() as int) =~= q@);
    assert(h@.skip(0) =~= h@);
    match find_bytes(h, 0, &qv) {
        Some(_) => true,
        None => match scan_subsequence(h, q, Ghost(haystack@), Ghost(needle@)) {
            Scan::Stuck => false,
            _ => true,
        },
    }
}

/// How `text` scores against a typed `query`: the query trimmed and both lower-cased, then
/// [`text_score`]; nothing where that score is not defined.
#[verifier::opaque]
pub open spec fn query_score(text: Seq<char>, query: Seq<char>) -> Option<int> {
    let needle = lowercased(trimmed(query));
    let hay = lowercased(text);
    if score_defined(hay, needle) {
        text_score(hay, needle)
    } else {
        None
    }
}

/// Scores `text` against a typed `query` (see [`query_score`]).
pub fn match_score(text: &str, query: &str) -> (r: Option<i32>)
    ensures
        match query_score(text@, query@) {
            Some(s) => r is Some && r->0 == s,
            None => r is None,
        },
{
    proof {
        reveal(query_score);
    }
    let needle = to_lowercase(trim(query));
    let hay = to_lowercase(text);
    if score_is_defined(hay.as_str(), needle.as_str()) {
        palette_score(hay.as_str(), needle.as_str())
    } else {
        None
    }
}

/// Whether an entry is a page or a command.
#[derive(Debug, Clone, Copy, PartialEq, Eq, Structural)]
pub enum PaletteItemKind {
    Page,
    Command,
}

/// What a command entry does.
#[derive(Debug, Clone, Copy, PartialEq, Eq, Structural)]
pub enum PaletteAction {
    CopyUrl,
    RefreshPage,
}

/// The icon shown beside an entry.
#[derive(Debug, Clone, Copy, PartialEq, Eq, Structural)]
pub enum PaletteIcon {
    Home,
    Download,
    External,
    Dashboard,
    Settings,
    Login,
    Copy,
    Refresh,
    Grid,
}

/// The SVG path data of each icon.
pub open spec fn icon_path(icon: PaletteIcon) -> &'static str {
    match icon {
        PaletteIcon::Home => "M3 12l2-2m0 0l7-7 7 7M5 10v10a1 1 0 001 1h3m10-11l2 2m-2-2v10a1 1 0 01-1 1h-3m-6 0a1 1 0 001-1v-4a1 1 0 011-1h2a1 1 0 011 1v4a1 1 0 001 1m-6 0h6",
        PaletteIcon::Grid => "M4 6a2 2 0 012-2h2a2 2 0 012 2v2a2 2 0 01-2 2H6a2 2 0 01-2-2V6zm10 0a2 2 0 012-2h2a2 2 0 012 2v2a2 2 0 01-2 2h-2a2 2 0 01-2-2V6zM4 16a2 2 0 012-2h2a2 2 0 012 2v2a2 2 0 01-2 2H6a2 2 0 01-2-2v-2zm10 0a2 2 0 012-2h2a2 2 0 012 2v2a2 2 0 01-2 2h-2a2 2 0 01-2-2v-2z",
        PaletteIcon::Download => "M4 16v1a3 3 0 003 3h10a3 3 0 003-3v-1m-4-8l-4-4m0 0L8 8m4-4v12",
        PaletteIcon::Dashboard => "M9 19v-6a2 2 0 00-2-2H5a2 2 0 00-2 2v6a2 2 0 002 2h2a2 2 0 002-2zm0 0V9a2 2 0 012-2h2a2 2 0 012 2v10m-6 0a2 2 0 002 2h2a2 2 0 002-2m0 0V5a2 2 0 012-2h2a2 2 0 012 2v14a2 2 0 01-2 2h-2a2 2 0 01-2-2z",
        PaletteIcon::Settings => "M10.325 4.317c.426-1.756 2.924-1.756 3.35 0a1.724 1.724 0 002.573 1.066c1.543-.94 3.31.826 2.37 2.37a1.724 1.724 0 001.065 2.572c1.756.426 1.756 2.924 0 3.35a1.724 1.724 0 00-1.066 2.573c.94 1.543-.826 3.31-2.37 2.37a1.724 1.724 0 00-2.572 1.065c-.426 1.756-2.924 1.756-3.35 0a1.724 1.724 0 00-2.573-1.066c-1.543.94-3.31-.826-2.37-2.37a1.724 1.724 0 00-1.065-2.572c-1.756-.426-1.756-2.924 0-3.35a1.724 1.724 0 001.066-2.573c-.94-1.543.826-3.31 2.37-2.37.996.608 2.296.07 2.572-1.065z M15 12a3 3 0 11-6 0 3 3 0 016 0z",
        PaletteIcon::Login => "M11 16l-4-4m0 0l4-4m-4 4h14m-5 4v1a3 3 0 01-3 3H6a3 3 0 01-3-3V7a3 3 0 013-3h7a3 3 0 013 3v1",
        PaletteIcon::Copy => "M8 16H6a2 2 0 01-2-2V6a2 2 0 012-2h8a2 2 0 012 2v2m-6 12h8a2 2 0 002-2v-8a2 2 0 00-2-2h-8a2 2 0 00-2 2v8a2 2 0 002 2z",
        PaletteIcon::Refresh => "M4 4v5h.582m15.356 2A8.001 8.001 0 004.582 9m0 0H9m11 11v-5h-.581m0 0a8.003 8.003 0 01-15.357-2m15.357 2H15",
        PaletteIcon::External => "M14 3h7m0 0v7m0-7L10 14m-1 7H5a2 2 0 01-2-2V5a2 2 0 012-2h4",
    }
}

impl PaletteIcon {
    /// The icon's SVG path data.
    pub fn path(self) -> (r: &'static str)
        ensures
            r == icon_path(self),
    {
        match self {
            PaletteIcon::Home => "M3 12l2-2m0 0l7-7 7 7M5 10v10a1 1 0 001 1h3m10-11l2 2m-2-2v10a1 1 0 01-1 1h-3m-6 0a1 1 0 001-1v-4a1 1 0 011-1h2a1 1 0 011 1v4a1 1 0 001 1m-6 0h6",
            PaletteIcon::Grid => "M4 6a2 2 0 012-2h2a2 2 0 012 2v2a2 2 0 01-2 2H6a2 2 0 01-2-2V6zm10 0a2 2 0 012-2h2a2 2 0 012 2v2a2 2 0 01-2 2h-2a2 2 0 01-2-2V6zM4 16a2 2 0 012-2h2a2 2 0 012 2v2a2 2 0 01-2 2H6a2 2 0 01-2-2v-2zm10 0a2 2 0 012-2h2a2 2 0 012 2v2a2 2 0 01-2 2h-2a2 2 0 01-2-2v-2z",
            PaletteIcon::Download => "M4 16v1a3 3 0 003 3h10a3 3 0 003-3v-1m-4-8l-4-4m0 0L8 8m4-4v12",
            PaletteIcon::Dashboard => "M9 19v-6a2 2 0 00-2-2H5a2 2 0 00-2 2v6a2 2 0 002 2h2a2 2 0 002-2zm0 0V9a2 2 0 012-2h2a2 2 0 012 2v10m-6 0a2 2 0 002 2h2a2 2 0 002-2m0 0V5a2 2 0 012-2h2a2 2 0 012 2v14a2 2 0 01-2 2h-2a2 2 0 01-2-2z",
            PaletteIcon::Settings => "M10.325 4.317c.426-1.756 2.924-1.756 3.35 0a1.724 1.724 0 002.573 1.066c1.543-.94 3.31.826 2.37 2.37a1.724 1.724 0 001.065 2.572c1.756.426 1.756 2.924 0 3.35a1.724 1.724 0 00-1.066 2.573c.94 1.543-.826 3.31-2.37 2.37a1.724 1.724 0 00-2.572 1.065c-.426 1.756-2.924 1.756-3.35 0a1.724 1.724 0 00-2.573-1.066c-1.543.94-3.31-.826-2.37-2.37a1.724 1.724 0 00-1.065-2.572c-1.756-.426-1.756-2.924 0-3.35a1.724 1.724 0 001.066-2.573c-.94-1.543.826-3.31 2.37-2.37.996.608 2.296.07 2.572-1.065z M15 12a3 3 0 11-6 0 3 3 0 016 0z",
            PaletteIcon::Login => "M11 16l-4-4m0 0l4-4m-4 4h14m-5 4v1a3 3 0 01-3 3H6a3 3 0 01-3-3V7a3 3 0 013-3h7a3 3 0 013 3v1",
            PaletteIcon::Copy => "M8 16H6a2 2 0 01-2-2V6a2 2 0 012-2h8a2 2 0 012 2v2m-6 12h8a2 2 0 002-2v-8a2 2 0 00-2-2h-8a2 2 0 00-2 2v8a2 2 0 002 2z",
            PaletteIcon::Refresh => "M4 4v5h.582m15.356 2A8.001 8.001 0 004.582 9m0 0H9m11 11v-5h-.581m0 0a8.003 8.003 0 01-15.357-2m15.357 2H15",
            PaletteIcon::External => "M14 3h7m0 0v7m0-7L10 14m-1 7H5a2 2 0 01-2-2V5a2 2 0 012-2h4",
        }
    }
}

/// One entry of the palette.
#[derive(Debug, Clone, Copy, PartialEq, Eq)]
pub struct PaletteItem {
    pub id: &'static str,
    pub name: &'static str,
    pub description: &'static str,
    pub kind: PaletteItemKind,
    pub icon: PaletteIcon,
    pub path: Option<&'static str>,
    pub action: Option<PaletteAction>,
    pub requires_auth: bool,
    pub requires_admin: bool,
    pub hide_when_auth: bool,
}

/// Which entries the palette lists.
#[derive(Debug, Clone, Copy, PartialEq, Eq, Structural)]
pub enum PaletteMode {
    All,
    Pages,
    Commands,
}

/// An entry with its score for the current query.
#[derive(Debug, Clone, Copy, PartialEq, Eq)]
pub struct PaletteResult {
    pub item: PaletteItem,
    pub score: i32,
}

/// Every entry the palette knows, in the order it lists them.
pub open spec fn catalog() -> Seq<PaletteItem> {
    seq![
        PaletteItem {
            id: "home",
            name: "Home",
            description: "Go to homepage",
            kind: PaletteItemKind::Page,
            icon: PaletteIcon::Home,
            path: Some("/"),
            action: None,
            requires_auth: false,
            requires_admin: false,
            hide_when_auth: false,
        },
        PaletteItem {
            id: "get-started",
            name: "Get Started",
            description: "Install Barforge App",
            kind: PaletteItemKind::Page,
            icon: PaletteIcon::Download,
            path: Some("https://github.com/jtaw5649/barforge-app"),
            action: None,
            requires_auth: false,
            requires_admin: false,
            hide_when_auth: false,
        },
        PaletteItem {
            id: "docs",
            name: "Waybar Docs",
            description: "Read the official Waybar docs",
            kind: PaletteItemKind::Page,
            icon: PaletteIcon::External,
            path: Some("https://github.com/Alexays/Waybar"),
            action: None,
            requires_auth: false,
            requires_admin: false,
            hide_when_auth: false,
        },
        PaletteItem {
            id: "dashboard",
            name: "Dashboard",
            description: "Your personal dashboard",
            kind: PaletteItemKind::Page,
            icon: PaletteIcon::Dashboard,
            path: Some("/dashboard"),
            action: None,
            requires_auth: true,
            requires_admin: false,
            hide_when_auth: false,
        },
        PaletteItem {
            id: "admin",
            name: "Admin Panel",
            description: "Administration settings",
            kind: PaletteItemKind::Page,
            icon: PaletteIcon::Settings,
            path: Some("/admin"),
            action: None,
            requires_auth: true,
            requires_admin: true,
            hide_when_auth: false,
        },
        PaletteItem {
            id: "login",
            name: "Login",
            description: "Log in to your account",
            kind: PaletteItemKind::Page,
            icon: PaletteIcon::Login,
            path: Some("/login"),
            action: None,
            requires_auth: false,
            requires_admin: false,
            hide_when_auth: true,
        },
        PaletteItem {
            id: "copy-url",
            name: "Copy Current URL",
            description: "Copy page URL to clipboard",
            kind: PaletteItemKind::Command,
            icon: PaletteIcon::Copy,
            path: None,
            action: Some(PaletteAction::CopyUrl),
            requires_auth: false,
            requires_admin: false,
            hide_when_auth: false,
        },
        PaletteItem {
            id: "refresh",
            name: "Refresh Page",
            description: "Reload the current page",
            kind: PaletteItemKind::Command,
            icon: PaletteIcon::Refresh,
            path: None,
            action: Some(PaletteAction::RefreshPage),
            requires_auth: false,
            requires_admin: false,
            hide_when_auth: false,
        },
    ]
}

/// Every entry the palette knows.
pub fn all_items() -> (r: Vec<PaletteItem>)
    ensures
        r@ == catalog(),
{
    let r = vec![
        PaletteItem {
            id: "home",
            name: "Home",
            description: "Go to homepage",
            kind: PaletteItemKind::Page,
            icon: PaletteIcon::Home,
            path: Some("/"),
            action: None,
            requires_auth: false,
            requires_admin: false,
            hide_when_auth: false,
        },
        PaletteItem {
            id: "get-started",
            name: "Get Started",
            description: "Install Barforge App",
            kind: PaletteItemKind::Page,
            icon: PaletteIcon::Download,
            path: Some("https://github.com/jtaw5649/barforge-app"),
            action: None,
            requires_auth: false,
            requires_admin: false,
            hide_when_auth: false,
        },
        PaletteItem {
            id: "docs",
            name: "Waybar Docs",
            description: "Read the official Waybar docs",
            kind: PaletteItemKind::Page,
            icon: PaletteIcon::External,
            path: Some("https://github.com/Alexays/Waybar"),
            action: None,
            requires_auth: false,
            requires_admin: false,
            hide_when_auth: false,
        },
        PaletteItem {
            id: "dashboard",
            name: "Dashboard",
            description: "Your personal dashboard",
            kind: PaletteItemKind::Page,
            icon: PaletteIcon::Dashboard,
            path: Some("/dashboard"),
            action: None,
            requires_auth: true,
            requires_admin: false,
            hide_when_auth: false,
        },
        PaletteItem {
            id: "admin",
            name: "Admin Panel",
            description: "Administration settings",
            kind: PaletteItemKind::Page,
            icon: PaletteIcon::Settings,
            path: Some("/admin"),
            action: None,
            requires_auth: true,
            requires_admin: true,
            hide_when_auth: false,
        },
        PaletteItem {
            id: "login",
            name: "Login",
            description: "Log in to your account",
            kind: PaletteItemKind::Page,
            icon: PaletteIcon::Login,
            path: Some("/login"),
            action: None,
            requires_auth: false,
            requires_admin: false,
            hide_when_auth: true,
        },
        PaletteItem {
            id: "copy-url",
            name: "Copy Current URL",
            description: "Copy page URL to clipboard",
            kind: PaletteItemKind::Command,
            icon: PaletteIcon::Copy,
            path: None,
            action: Some(PaletteAction::CopyUrl),
            requires_auth: false,
            requires_admin: false,
            hide_when_auth: false,
        },
        PaletteItem {
            id: "refresh",
            name: "Refresh Page",
            description: "Reload the current page",
            kind: PaletteItemKind::Command,
            icon: PaletteIcon::Refresh,
            path: None,
            action: Some(PaletteAction::RefreshPage),
            requires_auth: false,
            requires_admin: false,
            hide_when_auth: false,
        },
    ];
    assert(r@ =~= catalog());
    r
}

/// Whether a visitor sees `item`: signed-in visitors do not see what is hidden from them,
/// others do not see what needs a sign-in, and only administrators see administration.
pub open spec fn visible_to(item: PaletteItem, is_authenticated: bool, is_admin: bool) -> bool {
    &&& !(item.hide_when_auth && is_authenticated)
    &&& !(item.requires_auth && !is_authenticated)
    &&& !(item.requires_admin && !is_admin)
}

/// The entries of `items` a visitor sees, in order.
pub open spec fn visible_items(items: Seq<PaletteItem>, is_authenticated: bool, is_admin: bool) -> Seq<
    PaletteItem,
>
    decreases items.len(),
{
    if items.len() == 0 {
        items
    } else {
        let rest = visible_items(items.drop_last(), is_authenticated, is_admin);
        if visible_to(items.last(), is_authenticated, is_admin) {
            rest.push(items.last())
        } else {
            rest
        }
    }
}

/// The entries a visitor sees.
pub fn palette_items(is_authenticated: bool, is_admin: bool) -> (r: Vec<PaletteItem>)
    ensures
        r@ == visible_items(catalog(), is_authenticated, is_admin),
{
    let items = all_items();
    let mut r: Vec<PaletteItem> = Vec::new();
    let mut i: usize = 0;
    while i < items.len()
        invariant
            i <= items@.len(),
            r@ == visible_items(items@.take(i as int), is_authenticated, is_admin),
        decreases items@.len() - i,
    {
        let item = items[i];
        assert(items@.take(i + 1).drop_last() =~= items@.take(i as int));
        if !(item.hide_when_auth && is_authenticated) && !(item.requires_auth && !is_authenticated)
            && !(item.requires_admin && !is_admin) {
            r.push(item);
        }
        i = i + 1;
    }
    assert(items@.take(items@.len() as int) =~= items@);
    r
}

/// Whether `mode` lists `item`.
pub open spec fn in_mode(item: PaletteItem, mode: PaletteMode) -> bool {
    match mode {
        PaletteMode::All => true,
        PaletteMode::Pages => item.kind == PaletteItemKind::Page,
        PaletteMode::Commands => item.kind == PaletteItemKind::Command,
    }
}

/// The score of an entry: its name's, else its description's, else 0 for a blank query and
/// -1 (left out) otherwise.
pub open spec fn item_score(item: PaletteItem, query: Seq<char>) -> int {
    match query_score(item.name@, query) {
        Some(s) => s,
        None => match query_score(item.description@, query) {
            Some(s) => s,
            None => if trimmed(query).len() == 0 {
                0
            } else {
                -1
            },
        },
    }
}

/// The entries of `items` that `mode` lists and that score at least 0, with their scores, in
/// the order of `items`.
pub open spec fn scored_items(items: Seq<PaletteItem>, query: Seq<char>, mode: PaletteMode) -> Seq<
    PaletteResult,
>
    decreases items.len(),
{
    if items.len() == 0 {
        Seq::empty()
    } else {
        let rest = scored_items(items.drop_last(), query, mode);
        let item = items.last();
        if in_mode(item, mode) && item_score(item, query) >= 0 {
            rest.push(PaletteResult { item, score: item_score(item, query) as i32 })
        } else {
            rest
        }
    }
}

/// The results of `s` that scored `v`, in order.
pub open spec fn score_group(s: Seq<PaletteResult>, v: int) -> Seq<PaletteResult>
    decreases s.len(),
{
    if s.len() == 0 {
        s
    } else {
        let rest = score_group(s.drop_last(), v);
        if s.last().score == v {
            rest.push(s.last())
        } else {
            rest
        }
    }
}

/// `r` lists the results of `c` from the highest score down, results with equal scores in the
/// order of `c` (what a stable sort by descending score gives).
pub open spec fn ranked(r: Seq<PaletteResult>, c: Seq<PaletteResult>) -> bool {
    &&& r.len() == c.len()
    &&& forall|i: int, j: int| 0 <= i < j < r.len() ==> r[i].score >= r[j].score
    &&& forall|v: int| #[trigger] score_group(r, v) == score_group(c, v)
}

proof fn lemma_score_group_concat(a: Seq<PaletteResult>, b: Seq<PaletteResult>, v: int)
    ensures
        score_group(a + b, v) == score_group(a, v) + score_group(b, v),
    decreases b.len(),
{
    if b.len() == 0 {
        assert(a + b =~= a);
        assert(score_group(a, v) + score_group(b, v) =~= score_group(a, v));
    } else {
        lemma_score_group_concat(a, b.drop_last(), v);
        assert((a + b).drop_last() =~= a + b.drop_last());
        assert((a + b).last() == b.last());
        if b.last().score == v {
            assert(score_group(a, v) + score_group(b.drop_last(), v).push(b.last()) =~= (
            score_group(a, v) + score_group(b.drop_last(), v)).push(b.last()));
        }
    }
}

proof fn lemma_score_group_none(s: Seq<PaletteResult>, v: int)
    requires
        forall|i: int| 0 <= i < s.len() ==> #[trigger] s[i].score != v,
    ensures
        score_group(s, v) == Seq::<PaletteResult>::empty(),
    decreases s.len(),
{
    if s.len() > 0 {
        lemma_score_group_none(s.drop_last(), v);
    }
}

proof fn lemma_score_group_last(s: Seq<PaletteResult>)
    requires
        s.len() > 0,
    ensures
        score_group(s, s.last().score as int).len() > 0,
        score_group(s, s.last().score as int).last() == s.last(),
        forall|v: int|
            v != s.last().score ==> #[trigger] score_group(s, v) == score_group(s.drop_last(), v),
        score_group(s.drop_last(), s.last().score as int) == score_group(
            s,
            s.last().score as int,
        ).drop_last(),
{
    let m = s.last().score as int;
    assert(score_group(s, m) == score_group(s.drop_last(), m).push(s.last()));
    assert(score_group(s, m).drop_last() =~= score_group(s.drop_last(), m));
}

proof fn lemma_score_group_above(s: Seq<PaletteResult>, v: int)
    requires
        forall|i: int| 0 <= i < s.len() ==> #[trigger] s[i].score > v,
    ensures
        score_group(s, v).len() == 0,
{
    assert forall|i: int| 0 <= i < s.len() implies #[trigger] s[i].score != v by {}
    lemma_score_group_none(s, v);
}

/// Two listings that rank the same results are the same listing: ranking leaves no choice.
pub proof fn lemma_ranking_unique(r1: Seq<PaletteResult>, r2: Seq<PaletteResult>, c: Seq<PaletteResult>)
    requires
        ranked(r1, c),
        ranked(r2, c),
    ensures
        r1 == r2,
{
    lemma_same_groups_same_listing(r1, r2);
}

proof fn lemma_same_groups_same_listing(a: Seq<PaletteResult>, b: Seq<PaletteResult>)
    requires
        a.len() == b.len(),
        forall|i: int, j: int| 0 <= i < j < a.len() ==> a[i].score >= a[j].score,
        forall|i: int, j: int| 0 <= i < j < b.len() ==> b[i].score >= b[j].score,
        forall|v: int| #[trigger] score_group(a, v) == score_group(b, v),
    ensures
        a == b,
    decreases a.len(),
{
    if a.len() == 0 {
        assert(a =~= b);
    } else {
        let ma = a.last().score as int;
        let mb = b.last().score as int;
        lemma_score_group_last(a);
        lemma_score_group_last(b);
        if ma < mb {
            assert forall|i: int| 0 <= i < b.len() implies #[trigger] b[i].score > ma by {
                if i < b.len() - 1 {
                    assert(b[i].score >= b[b.len() - 1].score);
                }
            }
            lemma_score_group_above(b, ma);
            assert(score_group(a, ma) == score_group(b, ma));
        }
        if mb < ma {
            assert forall|i: int| 0 <= i < a.len() implies #[trigger] a[i].score > mb by {
                if i < a.len() - 1 {
                    assert(a[i].score >= a[a.len() - 1].score);
                }
            }
            lemma_score_group_above(a, mb);
            assert(score_group(a, mb) == score_group(b, mb));
        }
        assert(ma == mb);
        assert(score_group(a, ma) == score_group(b, ma));
        assert(a.last() == b.last());
        assert forall|v: int| #[trigger] score_group(a.drop_last(), v) == score_group(
            b.drop_last(),
            v,
        ) by {
            assert(score_group(a, v) == score_group(b, v));
        }
        lemma_same_groups_same_listing(a.drop_last(), b.drop_last());
        assert(a =~= a.drop_last().push(a.last()));
        assert(b =~= b.drop_last().push(b.last()));
    }
}

/// Orders results from the highest score down, keeping the order of equal scores.
fn rank_results(c: &Vec<PaletteResult>) -> (r: Vec<PaletteResult>)
    ensures
        ranked(r@, c@),
{
    let mut r: Vec<PaletteResult> = Vec::new();
    let mut t: usize = 0;
    while t < c.len()
        invariant
            t <= c@.len(),
            r@.len() == t,
            forall|i: int, j: int| 0 <= i < j < r@.len() ==> r@[i].score >= r@[j].score,
            forall|v: int| #[trigger] score_group(r@, v) == score_group(c@.take(t as int), v),
        decreases c@.len() - t,
    {
        let x = c[t];
        let mut k: usize = 0;
        while k < r.len() && r[k].score >= x.score
            invariant
                k <= r@.len(),
                forall|i: int| 0 <= i < k ==> r@[i].score >= x.score,
            decreases r@.len() - k,
        {
            k = k + 1;
        }
        let ghost before = r@;
        proof {
            assert forall|i: int| k <= i < before.len() implies #[trigger] before[i].score
                < x.score by {
                if k < before.len() {
                    assert(before[k as int].score < x.score);
                    assert(before[k as int].score >= before[i].score);
                }
            }
        }
        r.insert(k, x);
        proof {
            let pre = before.take(k as int);
            let post = before.skip(k as int);
            assert(before =~= pre + post);
            assert(r@ =~= pre + seq![x] + post);
            assert(c@.take(t + 1) =~= c@.take(t as int).push(x));
            assert forall|v: int| #[trigger] score_group(r@, v) == score_group(
                c@.take(t + 1),
                v,
            ) by {
                lemma_score_group_concat(pre, post, v);
                lemma_score_group_concat(pre + seq![x], post, v);
                lemma_score_group_concat(pre, seq![x], v);
                assert(seq![x].drop_last() =~= Seq::<PaletteResult>::empty());
                assert(seq![x].last() == x);
                assert(c@.take(t + 1).drop_last() =~= c@.take(t as int));
                assert(c@.take(t + 1).last() == x);
                assert(score_group(Seq::<PaletteResult>::empty(), v) =~= Seq::<PaletteResult>::empty());
                if v == x.score {
                    assert(score_group(seq![x], v) =~= seq![x]);
                    assert forall|i: int| 0 <= i < post.len() implies #[trigger] post[i].score
                        != v by {
                        assert(post[i] == before[k + i]);
                    }
                    lemma_score_group_none(post, v);
                    assert(score_group(pre, v) + score_group(seq![x], v) =~= score_group(
                        pre,
                        v,
                    ).push(x));
                    assert(score_group(before, v) =~= score_group(pre, v));
                } else {
                    assert(score_group(seq![x], v) =~= Seq::<PaletteResult>::empty());
                    assert(score_group(pre, v) + score_group(seq![x], v) =~= score_group(pre, v));
                }
            }
            assert forall|i: int, j: int| 0 <= i < j < r@.len() implies r@[i].score
                >= r@[j].score by {
                if i < k && j == k {
                } else if i < k && j > k {
                    assert(r@[j] == before[j - 1]);
                } else if i == k && j > k {
                    assert(r@[j] == before[j - 1]);
                } else if i > k {
                    assert(r@[i] == before[i - 1]);
                    assert(r@[j] == before[j - 1]);
                }
            }
        }
        t = t + 1;
    }
    assert(c@.take(c@.len() as int) =~= c@);
    r
}

fn entry_score(item: &PaletteItem, query: &str, blank: bool) -> (r: i32)
    requires
        blank == (trimmed(query@).len() == 0),
    ensures
        r == item_score(*item, query@),
{
    match match_score(item.name, query) {
        Some(s) => s,
        None => match match_score(item.description, query) {
            Some(s) => s,
            None => if blank {
                0
            } else {
                -1
            },
        },
    }
}

/// The entries of `items` that match `query` in `mode`, best first (see [`scored_items`] and
/// [`ranked`]).
pub fn filter_palette(items: &[PaletteItem], query: &str, mode: PaletteMode) -> (r: Vec<
    PaletteResult,
>)
    ensures
        ranked(r@, scored_items(items@, query@, mode)),
{
    let blank = trim(query).unicode_len() == 0;
    let mut c: Vec<PaletteResult> = Vec::new();
    let mut i: usize = 0;
    while i < items.len()
        invariant
            i <= items@.len(),
            blank == (trimmed(query@).len() == 0),
            c@ == scored_items(items@.take(i as int), query@, mode),
        decreases items@.len() - i,
    {
        let item = items[i];
        assert(items@.take(i + 1).drop_last() =~= items@.take(i as int));
        let listed = match mode {
            PaletteMode::All => true,
            PaletteMode::Pages => item.kind == PaletteItemKind::Page,
            PaletteMode::Commands => item.kind == PaletteItemKind::Command,
        };
        if listed {
            let score = entry_score(&item, query, blank);
            if score >= 0 {
                c.push(PaletteResult { item, score });
            }
        }
        i = i + 1;
    }
    assert(items@.take(items@.len() as int) =~= items@);
    rank_results(&c)
}

/// The palette's own state: whether it is open, which entries it lists, and the typed query.
pub struct PaletteState {
    pub open: bool,
    pub mode: PaletteMode,
    pub query: String,
}

impl PaletteState {
    /// A palette state with the given parts.
    pub fn new(open: bool, mode: PaletteMode, query: String) -> (s: Self)
        ensures
            s.open == open,
            s.mode == mode,
            s.query == query,
    {
        PaletteState { open, mode, query }
    }

    /// Whether the palette is open.
    pub fn is_open(&self) -> (r: bool)
        ensures
            r == self.open,
    {
        self.open
    }

    /// Opens the palette.
    pub fn open(&mut self)
        ensures
            final(self).open,
            final(self).mode == old(self).mode,
            final(self).query == old(self).query,
    {
        self.open = true;
    }

    /// Closes the palette.
    pub fn close(&mut self)
        ensures
            !final(self).open,
            final(self).mode == old(self).mode,
            final(self).query == old(self).query,
    {
        self.open = false;
    }

    /// Opens a closed palette and closes an open one.
    pub fn toggle(&mut self)
        ensures
            final(self).open == !old(self).open,
            final(self).mode == old(self).mode,
            final(self).query == old(self).query,
    {
        self.open = !self.open;
    }

    /// Chooses which entries the palette lists.
    pub fn set_mode(&mut self, mode: PaletteMode)
        ensures
            final(self).mode == mode,
            final(self).open == old(self).open,
            final(self).query == old(self).query,
    {
        self.mode = mode;
    }

    /// Which entries the palette lists.
    pub fn mode(&self) -> (r: PaletteMode)
        ensures
            r == self.mode,
    {
        self.mode
    }

    /// Replaces the typed query.
    pub fn set_query(&mut self, value: String)
        ensures
            final(self).query == value,
            final(self).open == old(self).open,
            final(self).mode == old(self).mode,
    {
        self.query = value;
    }

    /// The typed query.
    pub fn query(&self) -> (r: String)
        ensures
            r == self.query,
    {
        self.query.clone()
    }
}

/// The mode after `mode` when the visitor cycles modes: all, pages, commands, all again.
pub open spec fn mode_after(mode: PaletteMode) -> PaletteMode {
    match mode {
        PaletteMode::All => PaletteMode::Pages,
        PaletteMode::Pages => PaletteMode::Commands,
        PaletteMode::Commands => PaletteMode::All,
    }
}

/// The mode after `mode` (see [`mode_after`]).
pub fn next_mode(mode: PaletteMode) -> (r: PaletteMode)
    ensures
        r == mode_after(mode),
{
    match mode {
        PaletteMode::All => PaletteMode::Pages,
        PaletteMode::Pages => PaletteMode::Commands,
        PaletteMode::Commands => PaletteMode::All,
    }
}

/// Cycling modes three times comes back to the start.
pub proof fn lemma_mode_cycle(mode: PaletteMode)
    ensures
        mode_after(mode_after(mode_after(mode))) == mode,
        mode_after(mode) != mode,
{
}

/// A key pressed while the palette is open.
#[derive(Debug, Clone, Copy, PartialEq, Eq, Structural)]
pub enum PaletteKey {
    Escape,
    ArrowDown,
    ArrowUp,
    Enter,
    /// Tab with Alt held.
    AltTab,
    Other,
}

/// What the palette does about a key.
#[derive(Debug, Clone, Copy, PartialEq, Eq, Structural)]
pub enum PaletteCommand {
    Close,
    /// Highlight the result at this position.
    Select(usize),
    /// Carry out the result at this position.
    Run(usize),
    SetMode(PaletteMode),
    Nothing,
}

/// What a key does with `selected` highlighted among `count` results in `mode`: Escape closes;
/// the arrows move the highlight, down stopping at the last result and up at the first; Enter
/// carries out the highlighted result if there is one; Alt+Tab moves to the next mode.
pub fn palette_key_command(key: PaletteKey, selected: usize, count: usize, mode: PaletteMode) -> (r: PaletteCommand)
    requires
        key == PaletteKey::ArrowDown && count > 0 ==> selected < usize::MAX,
    ensures
        r == (match key {
            PaletteKey::Escape => PaletteCommand::Close,
            PaletteKey::ArrowDown => PaletteCommand::Select(
                if count == 0 {
                    0
                } else if selected + 1 < count - 1 {
                    (selected + 1) as usize
                } else {
                    (count - 1) as usize
                },
            ),
            PaletteKey::ArrowUp => PaletteCommand::Select(
                if selected == 0 {
                    0
                } else {
                    (selected - 1) as usize
                },
            ),
            PaletteKey::Enter => if selected < count {
                PaletteCommand::Run(selected)
            } else {
                PaletteCommand::Nothing
            },
            PaletteKey::AltTab => PaletteCommand::SetMode(mode_after(mode)),
            PaletteKey::Other => PaletteCommand::Nothing,
        }),
{
    match key {
        PaletteKey::Escape => PaletteCommand::Close,
        PaletteKey::ArrowDown => {
            if count == 0 {
                PaletteCommand::Select(0)
            } else if selected + 1 < count - 1 {
                PaletteCommand::Select(selected + 1)
            } else {
                PaletteCommand::Select(count - 1)
            }
        },
        PaletteKey::ArrowUp => {
            if selected == 0 {
                PaletteCommand::Select(0)
            } else {
                PaletteCommand::Select(selected - 1)
            }
        },
        PaletteKey::Enter => {
            if selected < count {
                PaletteCommand::Run(selected)
            } else {
                PaletteCommand::Nothing
            }
        },
        PaletteKey::AltTab => PaletteCommand::SetMode(next_mode(mode)),
        PaletteKey::Other => PaletteCommand::Nothing,
    }
}

/// Whether a key press opens the palette: Ctrl or Meta, with Shift, and K in either case.
pub fn opens_palette(ctrl: bool, meta: bool, shift: bool, key: &str) -> (r: bool)
    ensures
        r == ((ctrl || meta) && shift && (key@ == "k"@ || key@ == "K"@)),
{
    (ctrl || meta) && shift && (crate::text::str_eq(key, "k") || crate::text::str_eq(key, "K"))
}

/// Where carrying out an entry goes.
#[derive(Debug, Clone, Copy, PartialEq, Eq)]
pub enum PaletteTarget {
    /// Open this address outside the site.
    External(&'static str),
    /// Go to this page of the site.
    Internal(&'static str),
    Nowhere,
}

/// Where carrying out `item` goes: its path, outside the site when it starts with `http`.
pub fn palette_target(item: &PaletteItem) -> (r: PaletteTarget)
    ensures
        r == (match item.path {
            Some(p) => if crate::text::has_prefix(p@, "http"@) {
                PaletteTarget::External(p)
            } else {
                PaletteTarget::Internal(p)
            },
            None => PaletteTarget::Nowhere,
        }),
{
    match item.path {
        Some(p) => {
            if crate::text::starts_with(p, "http") {
                PaletteTarget::External(p)
            } else {
                PaletteTarget::Internal(p)
            }
        },
        None => PaletteTarget::Nowhere,
    }
}

/// The label of each mode.
pub fn palette_mode_label(mode: PaletteMode) -> (r: &'static str)
    ensures
        r@ == (match mode {
            PaletteMode::All => "All"@,
            PaletteMode::Pages => "Pages"@,
            PaletteMode::Commands => "Commands"@,
        }),
{
    match mode {
        PaletteMode::All => "All",
        PaletteMode::Pages => "Pages",
        PaletteMode::Commands => "Commands",
    }
}

/// The label of each kind of entry.
pub fn palette_type_label(kind: PaletteItemKind) -> (r: &'static str)
    ensures
        r@ == (match kind {
            PaletteItemKind::Page => "Page"@,
            PaletteItemKind::Command => "Command"@,
        }),
{
    match kind {
        PaletteItemKind::Page => "Page",
        PaletteItemKind::Command => "Command",
    }
}

} // verus!
