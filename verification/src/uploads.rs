//! What the server accepts when a module or a screenshot is uploaded: the checks on each
//! submitted field, the module identifier made from the name, and the request it leads to.
use vstd::prelude::*;
use vstd::string::StringExecFns;
use vstd::utf8::encode_utf8;

use crate::server_config::{
    all_ascii_digits, char_vec_views, map_status, mapped_status, split_char, split_on_char,
};
use crate::text::{
    ascii_lower, ascii_lower_char, chars_of, ends_with, has_suffix, is_ascii_alphanumeric,
    is_ascii_digit, push_char, spec_is_ascii_alphanumeric, spec_is_ascii_digit, str_eq, string_of,
    opt_view, to_ascii_lowercase, to_ascii_lowercase_char, trim, trim_end_char, trimmed,
};
use crate::api::{api_url, api_url_text, module_screenshots_url};
use crate::urls::{
    append_query_pair, parse_url, set_url_path, url_parsed, url_with_pair, url_with_path,
};

verus! {

broadcast use vstd::string::group_string_axioms;

/// Largest accepted screenshot, in bytes.
pub const MAX_SCREENSHOT_BYTES: usize = 10485760;

/// Largest accepted module package, in bytes.
pub const MAX_PACKAGE_BYTES: usize = 10485760;

/// Longest accepted module name, in bytes.
pub const MAX_NAME_LEN: usize = 100;

/// Longest accepted description, in bytes.
pub const MAX_DESCRIPTION_LEN: usize = 1000;

/// Longest accepted changelog, in bytes.
pub const MAX_CHANGELOG_LEN: usize = 5000;

/// The status the server answers a malformed upload with (Bad Request).
pub const BAD_REQUEST: u16 = 400;

/// A package file name ends, ignoring ASCII case, in `.tar.gz` or `.tgz`.
pub open spec fn allowed_package_name(filename: Seq<char>) -> bool {
    has_suffix(ascii_lower(filename), ".tar.gz"@) || has_suffix(ascii_lower(filename), ".tgz"@)
}

/// Whether a package file name has an accepted extension.
pub fn has_allowed_extension(filename: &str) -> (r: bool)
    ensures
        r == allowed_package_name(filename@),
{
    let lower = to_ascii_lowercase(filename);
    ends_with(lower.as_str(), ".tar.gz") || ends_with(lower.as_str(), ".tgz")
}

/// The part of a version before its first `-` or `+`.
pub open spec fn version_core(v: Seq<char>) -> Seq<char>
    decreases v.len(),
{
    if v.len() == 0 || v[0] == '-' || v[0] == '+' {
        Seq::empty()
    } else {
        seq![v[0]] + version_core(v.drop_first())
    }
}

/// A version the upload accepts: before any `-` or `+`, exactly three dot-separated parts,
/// each one or more ASCII digits.
pub open spec fn spec_is_semver(v: Seq<char>) -> bool {
    let parts = split_char(version_core(v), '.');
    &&& parts.len() == 3
    &&& forall|k: int| 0 <= k < 3 ==> #[trigger] parts[k].len() > 0 && all_ascii_digits(parts[k])
}

fn core_of(value: &str) -> (r: String)
    ensures
        r@ == version_core(value@),
{
    let v = chars_of(value);
    let mut n: usize = 0;
    while n < v.len() && v[n] != '-' && v[n] != '+'
        invariant
            n <= v@.len(),
            v@ == value@,
            forall|j: int| 0 <= j < n ==> v@[j] != '-' && v@[j] != '+',
        decreases v@.len() - n,
    {
        n = n + 1;
    }
    proof {
        lemma_version_core(v@, n as int);
    }
    let mut out: Vec<char> = Vec::new();
    let mut i: usize = 0;
    while i < n
        invariant
            i <= n <= v@.len(),
            out@ == v@.take(i as int),
        decreases n - i,
    {
        out.push(v[i]);
        i = i + 1;
        assert(out@ =~= v@.take(i as int));
    }
    string_of(&out)
}

proof fn lemma_version_core(v: Seq<char>, n: int)
    requires
        0 <= n <= v.len(),
        forall|j: int| 0 <= j < n ==> v[j] != '-' && v[j] != '+',
        n == v.len() || v[n] == '-' || v[n] == '+',
    ensures
        version_core(v) == v.take(n),
    decreases n,
{
    if n == 0 {
        assert(v.take(0) =~= Seq::<char>::empty());
    } else {
        let t = v.drop_first();
        assert forall|j: int| 0 <= j < n - 1 implies t[j] != '-' && t[j] != '+' by {
            assert(t[j] == v[j + 1]);
        }
        if n - 1 < t.len() {
            assert(t[n - 1] == v[n]);
        }
        lemma_version_core(t, n - 1);
        assert(seq![v[0]] + t.take(n - 1) =~= v.take(n));
    }
}

fn all_digits(p: &Vec<char>) -> (r: bool)
    ensures
        r == all_ascii_digits(p@),
{
    let mut i: usize = 0;
    while i < p.len()
        invariant
            i <= p@.len(),
            forall|j: int| 0 <= j < i ==> spec_is_ascii_digit(#[trigger] p@[j]),
        decreases p@.len() - i,
    {
        if !is_ascii_digit(p[i]) {
            return false;
        }
        i = i + 1;
    }
    true
}

/// Whether `value` is a version the upload accepts (see [`spec_is_semver`]).
pub fn is_semver(value: &str) -> (r: bool)
    ensures
        r == spec_is_semver(value@),
{
    let core = core_of(value);
    let parts = split_on_char(core.as_str(), '.');
    if parts.len() != 3 {
        return false;
    }
    let ghost views = char_vec_views(parts@);
    assert(views[0] == parts@[0]@ && views[1] == parts@[1]@ && views[2] == parts@[2]@);
    let ok = parts[0].len() > 0 && parts[1].len() > 0 && parts[2].len() > 0 && all_digits(
        &parts[0],
    ) && all_digits(&parts[1]) && all_digits(&parts[2]);
    proof {
        if ok {
            assert forall|k: int| 0 <= k < 3 implies #[trigger] views[k].len() > 0
                && all_ascii_digits(views[k]) by {
                if k == 0 {
                } else if k == 1 {
                } else {
                }
            }
        }
    }
    ok
}

/// A repository URL the upload accepts: an absolute `https` URL with a non-empty host.
pub open spec fn spec_is_https_url(value: Seq<char>) -> bool {
    match url_parsed(value) {
        Some(parts) => parts.1 == "https"@ && (match parts.2 {
            Some(host) => host.len() > 0,
            None => false,
        }),
        None => false,
    }
}

/// Whether `value` is an `https` URL with a host.
pub fn is_https_url(value: &str) -> (r: bool)
    ensures
        r == spec_is_https_url(value@),
{
    match parse_url(value) {
        Ok(parts) => {
            str_eq(parts.scheme.as_str(), "https") && match &parts.host {
                Some(host) => host.unicode_len() > 0,
                None => false,
            }
        },
        Err(_) => false,
    }
}

/// The text built from `s` so far, and whether it ends in a separator: ASCII letters and
/// digits are kept in lower case, and a run of other characters becomes one `-`, except
/// before the first kept character.
pub open spec fn slug_progress(s: Seq<char>) -> (Seq<char>, bool)
    decreases s.len(),
{
    if s.len() == 0 {
        (Seq::empty(), false)
    } else {
        let (out, dash) = slug_progress(s.drop_last());
        let c = s.last();
        if spec_is_ascii_alphanumeric(c) {
            (out.push(ascii_lower_char(c)), false)
        } else if !dash && out.len() > 0 {
            (out.push('-'), true)
        } else {
            (out, dash)
        }
    }
}

/// The identifier made from a module name: [`slug_progress`] without trailing dashes; nothing
/// when no letter or digit is left.
pub open spec fn slug_of(s: Seq<char>) -> Option<Seq<char>> {
    let t = trim_end_char(slug_progress(s).0, '-');
    if t.len() == 0 {
        None
    } else {
        Some(t)
    }
}

/// An ASCII letter or digit, the characters a slug keeps.
pub open spec fn kept_in_slug(c: char) -> bool {
    ('a' <= c && c <= 'z') || ('A' <= c && c <= 'Z') || ('0' <= c && c <= '9')
}

proof fn lemma_slug_run(a: Seq<char>, sep: Seq<char>, k: int)
    requires
        a.len() > 0,
        kept_in_slug(a.last()),
        1 <= k <= sep.len(),
        forall|i: int| 0 <= i < sep.len() ==> !kept_in_slug(#[trigger] sep[i]),
    ensures
        slug_progress(a + sep.take(k)) == (slug_progress(a).0.push('-'), true),
    decreases k,
{
    if k == 1 {
        assert((a + sep.take(1)).drop_last() =~= a);
        assert((a + sep.take(1)).last() == sep[0]);
    } else {
        lemma_slug_run(a, sep, k - 1);
        assert((a + sep.take(k)).drop_last() =~= a + sep.take(k - 1));
        assert((a + sep.take(k)).last() == sep[k - 1]);
    }
}

/// Between two kept characters, a run of one or more other characters becomes exactly one `-`,
/// whatever kept character comes before it: after a text ending in a letter or digit, the run
/// and then a letter or digit `y` add `-` and `y` in lower case to the slug, and the identifier
/// of the whole text is that slug.
pub proof fn lemma_slug_separates_runs_with_one_dash(a: Seq<char>, sep: Seq<char>, y: char)
    requires
        a.len() > 0,
        kept_in_slug(a.last()),
        sep.len() > 0,
        forall|i: int| 0 <= i < sep.len() ==> !kept_in_slug(#[trigger] sep[i]),
        kept_in_slug(y),
    ensures
        slug_progress(a + sep + seq![y]).0 == slug_progress(a).0 + seq!['-', ascii_lower_char(y)],
        slug_of(a + sep + seq![y]) == Some(slug_progress(a).0 + seq!['-', ascii_lower_char(y)]),
{
    lemma_slug_run(a, sep, sep.len() as int);
    assert(sep.take(sep.len() as int) =~= sep);
    let whole = a + sep + seq![y];
    assert(whole.drop_last() =~= a + sep);
    assert(whole.last() == y);
    let out = slug_progress(a).0 + seq!['-', ascii_lower_char(y)];
    assert(slug_progress(a).0.push('-').push(ascii_lower_char(y)) =~= out);
    assert(ascii_lower_char(y) != '-');
    assert(trim_end_char(out, '-') == out);
}

/// Makes a module identifier from a name (see [`slug_of`]).
pub fn slugify(value: &str) -> (r: Option<String>)
    ensures
        match r {
            Some(s) => slug_of(value@) == Some(s@),
            None => slug_of(value@) is None,
        },
{
    let v = chars_of(value);
    let mut out: Vec<char> = Vec::new();
    let mut last_dash = false;
    let mut i: usize = 0;
    while i < v.len()
        invariant
            i <= v@.len(),
            v@ == value@,
            slug_progress(v@.take(i as int)) == (out@, last_dash),
        decreases v@.len() - i,
    {
        let ch = v[i];
        assert(v@.take(i + 1).drop_last() =~= v@.take(i as int));
        if is_ascii_alphanumeric(ch) {
            out.push(to_ascii_lowercase_char(ch));
            last_dash = false;
        } else if !last_dash && out.len() > 0 {
            out.push('-');
            last_dash = true;
        }
        i = i + 1;
    }
    assert(v@.take(v@.len() as int) =~= v@);
    let mut n: usize = out.len();
    assert(out@.take(n as int) =~= out@);
    while n > 0 && out[n - 1] == '-'
        invariant
            n <= out@.len(),
            trim_end_char(out@, '-') == trim_end_char(out@.take(n as int), '-'),
        decreases n,
    {
        assert(out@.take(n as int).drop_last() =~= out@.take(n - 1));
        n = n - 1;
    }
    if n == 0 {
        assert(out@.take(0) =~= Seq::<char>::empty());
        return None;
    }
    let mut kept: Vec<char> = Vec::new();
    let mut k: usize = 0;
    while k < n
        invariant
            k <= n <= out@.len(),
            kept@ == out@.take(k as int),
        decreases n - k,
    {
        kept.push(out[k]);
        k = k + 1;
        assert(kept@ =~= out@.take(k as int));
    }
    assert(trim_end_char(out@.take(n as int), '-') == out@.take(n as int));
    Some(string_of(&kept))
}

/// Character `c` may appear in a module identifier made from a name.
pub open spec fn slug_char(c: char) -> bool {
    ('a' <= c && c <= 'z') || ('0' <= c && c <= '9') || c == '-'
}

proof fn lemma_slug_progress_shape(s: Seq<char>)
    ensures
        forall|i: int|
            0 <= i < slug_progress(s).0.len() ==> slug_char(#[trigger] slug_progress(s).0[i]),
        slug_progress(s).0.len() > 0 ==> slug_progress(s).0[0] != '-',
        slug_progress(s).1 <==> (slug_progress(s).0.len() > 0 && slug_progress(s).0.last()
            == '-'),
        forall|i: int|
            0 <= i < slug_progress(s).0.len() - 1 ==> !(#[trigger] slug_progress(s).0[i] == '-'
                && slug_progress(s).0[i + 1] == '-'),
    decreases s.len(),
{
    if s.len() > 0 {
        lemma_slug_progress_shape(s.drop_last());
        let (out, dash) = slug_progress(s.drop_last());
        let c = s.last();
        if spec_is_ascii_alphanumeric(c) {
            let l = ascii_lower_char(c);
            assert(slug_char(l));
            assert(l != '-');
            assert forall|i: int| 0 <= i < out.push(l).len() implies slug_char(
                #[trigger] out.push(l)[i],
            ) by {
                if i < out.len() {
                    assert(out.push(l)[i] == out[i]);
                }
            }
            assert forall|i: int| 0 <= i < out.push(l).len() - 1 implies !(
            #[trigger] out.push(l)[i] == '-' && out.push(l)[i + 1] == '-') by {
                assert(out.push(l)[i] == out[i]);
                if i + 1 < out.len() {
                    assert(out.push(l)[i + 1] == out[i + 1]);
                }
            }
        } else if !dash && out.len() > 0 {
            assert forall|i: int| 0 <= i < out.push('-').len() implies slug_char(
                #[trigger] out.push('-')[i],
            ) by {
                if i < out.len() {
                    assert(out.push('-')[i] == out[i]);
                }
            }
            assert forall|i: int| 0 <= i < out.push('-').len() - 1 implies !(
            #[trigger] out.push('-')[i] == '-' && out.push('-')[i + 1] == '-') by {
                assert(out.push('-')[i] == out[i]);
                if i + 1 < out.len() {
                    assert(out.push('-')[i + 1] == out[i + 1]);
                } else {
                    assert(out[i] == out.last());
                }
            }
        }
    }
}

proof fn lemma_trim_dashes(s: Seq<char>)
    ensures
        trim_end_char(s, '-').len() <= s.len(),
        trim_end_char(s, '-') == s.take(trim_end_char(s, '-').len() as int),
        trim_end_char(s, '-').len() > 0 ==> trim_end_char(s, '-').last() != '-',
    decreases s.len(),
{
    if s.len() > 0 && s.last() == '-' {
        lemma_trim_dashes(s.drop_last());
        let t = trim_end_char(s.drop_last(), '-');
        assert(s.drop_last().take(t.len() as int) =~= s.take(t.len() as int));
    } else {
        assert(s.take(s.len() as int) =~= s);
    }
}

/// A module identifier made from a name is lower-case ASCII letters, digits and single dashes,
/// and starts and ends with a letter or digit.
pub proof fn lemma_slug_well_formed(name: Seq<char>)
    ensures
        slug_of(name) matches Some(slug) ==> {
            &&& forall|i: int| 0 <= i < slug.len() ==> slug_char(#[trigger] slug[i])
            &&& slug[0] != '-'
            &&& slug.last() != '-'
            &&& forall|i: int| 0 <= i < slug.len() - 1 ==> !(#[trigger] slug[i] == '-' && slug[i
                + 1] == '-')
        },
{
    lemma_slug_progress_shape(name);
    let out = slug_progress(name).0;
    lemma_trim_dashes(out);
    let t = trim_end_char(out, '-');
    if t.len() > 0 {
        assert forall|i: int| 0 <= i < t.len() implies slug_char(#[trigger] t[i]) by {
            assert(t[i] == out[i]);
        }
        assert(t[0] == out[0]);
        assert forall|i: int| 0 <= i < t.len() - 1 implies !(#[trigger] t[i] == '-' && t[i + 1]
            == '-') by {
            assert(t[i] == out[i]);
            assert(t[i + 1] == out[i + 1]);
        }
    }
}

/// A package file as submitted.
pub struct UploadPackage {
    pub content_type: String,
    pub bytes: Vec<u8>,
}

/// The fields of a module upload read so far.
pub struct UploadFields {
    pub name: Option<String>,
    pub description: Option<String>,
    pub category: Option<String>,
    pub version: Option<String>,
    pub license: Option<String>,
    pub repo_url: Option<String>,
    pub changelog: Option<String>,
    pub turnstile_response: Option<String>,
    pub package: Option<UploadPackage>,
}

/// What a text field of the upload form sets `current` to: the trimmed text for the plain
/// fields; for the changelog and the Turnstile answer, the trimmed text unless it is empty.
pub open spec fn recorded(
    field: Seq<char>,
    target: Seq<char>,
    optional: bool,
    text: Seq<char>,
    current: Option<Seq<char>>,
) -> Option<Seq<char>> {
    if field == target && !(optional && trimmed(text).len() == 0) {
        Some(trimmed(text))
    } else {
        current
    }
}

/// The content type a package is stored with: the submitted one, else a generic binary type.
pub open spec fn package_type(content_type: Option<Seq<char>>) -> Seq<char> {
    match content_type {
        Some(t) => t,
        None => "application/octet-stream"@,
    }
}

/// A package the upload accepts: a file name with an accepted extension, and between one
/// byte and [`MAX_PACKAGE_BYTES`] of data.
pub open spec fn package_accepted(filename: Option<Seq<char>>, len: int) -> bool {
    &&& (match filename {
        Some(f) => f.len() > 0 && allowed_package_name(f),
        None => false,
    })
    &&& 0 < len <= MAX_PACKAGE_BYTES
}

fn trimmed_string(text: &str) -> (r: String)
    ensures
        r@ == trimmed(text@),
{
    trim(text).to_string()
}

fn text_opt(v: Option<&str>) -> (r: Option<String>)
    ensures
        opt_view(r) == match v {
            Some(s) => Some(s@),
            None => None::<Seq<char>>,
        },
{
    match v {
        Some(s) => Some(s.to_string()),
        None => None,
    }
}

proof fn lemma_upload_field_names_distinct()
    ensures
        "name"@ != "description"@,
        "name"@ != "category"@,
        "name"@ != "version"@,
        "name"@ != "license"@,
        "name"@ != "repo_url"@,
        "name"@ != "changelog"@,
        "name"@ != "cf-turnstile-response"@,
        "description"@ != "category"@,
        "description"@ != "version"@,
        "description"@ != "license"@,
        "description"@ != "repo_url"@,
        "description"@ != "changelog"@,
        "description"@ != "cf-turnstile-response"@,
        "category"@ != "version"@,
        "category"@ != "license"@,
        "category"@ != "repo_url"@,
        "category"@ != "changelog"@,
        "category"@ != "cf-turnstile-response"@,
        "version"@ != "license"@,
        "version"@ != "repo_url"@,
        "version"@ != "changelog"@,
        "version"@ != "cf-turnstile-response"@,
        "license"@ != "repo_url"@,
        "license"@ != "changelog"@,
        "license"@ != "cf-turnstile-response"@,
        "repo_url"@ != "changelog"@,
        "repo_url"@ != "cf-turnstile-response"@,
        "changelog"@ != "cf-turnstile-response"@,
{
    reveal_strlit("name");
    reveal_strlit("description");
    reveal_strlit("category");
    reveal_strlit("version");
    reveal_strlit("license");
    reveal_strlit("repo_url");
    reveal_strlit("changelog");
    reveal_strlit("cf-turnstile-response");
    assert("name"@[0] == 'n' && "description"@[0] == 'd' && "category"@[0] == 'c');
    assert("version"@[0] == 'v' && "license"@[0] == 'l' && "repo_url"@[0] == 'r');
    assert("changelog"@[1] == 'h' && "cf-turnstile-response"@[1] == 'f' && "category"@[1] == 'a');
}

impl UploadFields {
    /// No field read yet.
    pub fn new() -> (r: Self)
        ensures
            r.name is None,
            r.description is None,
            r.category is None,
            r.version is None,
            r.license is None,
            r.repo_url is None,
            r.changelog is None,
            r.turnstile_response is None,
            r.package is None,
    {
        UploadFields {
            name: None,
            description: None,
            category: None,
            version: None,
            license: None,
            repo_url: None,
            changelog: None,
            turnstile_response: None,
            package: None,
        }
    }

    /// Records the text of the form field `field`; fields the upload does not know are
    /// ignored (see [`recorded`]).
    pub fn record_text(&mut self, field: &str, text: &str)
        ensures
            opt_view(final(self).name) == recorded(field@, "name"@, false, text@, opt_view(old(self).name)),
            opt_view(final(self).description) == recorded(field@, "description"@, false, text@, opt_view(old(self).description)),
            opt_view(final(self).category) == recorded(field@, "category"@, false, text@, opt_view(old(self).category)),
            opt_view(final(self).version) == recorded(field@, "version"@, false, text@, opt_view(old(self).version)),
            opt_view(final(self).license) == recorded(field@, "license"@, false, text@, opt_view(old(self).license)),
            opt_view(final(self).repo_url) == recorded(field@, "repo_url"@, false, text@, opt_view(old(self).repo_url)),
            opt_view(final(self).changelog) == recorded(field@, "changelog"@, true, text@, opt_view(old(self).changelog)),
            opt_view(final(self).turnstile_response) == recorded(field@, "cf-turnstile-response"@, true, text@, opt_view(old(self).turnstile_response)),
            final(self).package == old(self).package,
    {
        proof {
            lemma_upload_field_names_distinct();
        }
        if str_eq(field, "name") {
            self.name = Some(trimmed_string(text));
        } else if str_eq(field, "description") {
            self.description = Some(trimmed_string(text));
        } else if str_eq(field, "category") {
            self.category = Some(trimmed_string(text));
        } else if str_eq(field, "version") {
            self.version = Some(trimmed_string(text));
        } else if str_eq(field, "license") {
            self.license = Some(trimmed_string(text));
        } else if str_eq(field, "repo_url") {
            self.repo_url = Some(trimmed_string(text));
        } else if str_eq(field, "changelog") {
            let t = trimmed_string(text);
            if t.unicode_len() > 0 {
                self.changelog = Some(t);
            }
        } else if str_eq(field, "cf-turnstile-response") {
            let t = trimmed_string(text);
            if t.unicode_len() > 0 {
                self.turnstile_response = Some(t);
            }
        }
    }

    /// Records the package file; refuses (Bad Request) a file without an accepted name or
    /// with no data or too much, and then changes nothing.
    pub fn record_package(&mut self, filename: Option<&str>, content_type: Option<&str>, data: Vec<u8>) -> (r: Result<(), u16>)
        ensures
            match filename {
                Some(f) => r is Ok <==> package_accepted(Some(f@), data@.len() as int),
                None => r is Ok <==> package_accepted(None, data@.len() as int),
            },
            r matches Err(code) ==> code == BAD_REQUEST,
            r is Ok ==> (final(self).package matches Some(p) && p.bytes@ == data@ && p.content_type@
                == package_type(
                match content_type {
                    Some(t) => Some(t@),
                    None => None::<Seq<char>>,
                },
            )),
            r is Err ==> final(self).package == old(self).package,
            final(self).name == old(self).name,
            final(self).description == old(self).description,
            final(self).category == old(self).category,
            final(self).version == old(self).version,
            final(self).license == old(self).license,
            final(self).repo_url == old(self).repo_url,
            final(self).changelog == old(self).changelog,
            final(self).turnstile_response == old(self).turnstile_response,
    {
        let name_ok = match filename {
            Some(f) => f.unicode_len() > 0 && has_allowed_extension(f),
            None => false,
        };
        if !name_ok {
            return Err(BAD_REQUEST);
        }
        if data.len() == 0 || data.len() > MAX_PACKAGE_BYTES {
            return Err(BAD_REQUEST);
        }
        let content_type = match content_type {
            Some(t) => t.to_string(),
            None => "application/octet-stream".to_string(),
        };
        self.package = Some(UploadPackage { content_type, bytes: data });
        Ok(())
    }
}

/// The number of bytes in the UTF-8 form of `s`.
pub open spec fn byte_len(s: Seq<char>) -> int {
    encode_utf8(s).len() as int
}

/// A required text that is present, not empty and at most `max` bytes long.
pub open spec fn present_within(v: Option<String>, max: int) -> bool {
    match v {
        Some(s) => s@.len() > 0 && byte_len(s@) <= max,
        None => false,
    }
}

/// A required text that is present and not empty.
pub open spec fn present(v: Option<String>) -> bool {
    match v {
        Some(s) => s@.len() > 0,
        None => false,
    }
}

/// An upload the server goes on with: every required field present and within its limits, a
/// version and an `https` repository URL it accepts, a package, a changelog (if any) within
/// its limit, and a name that makes an identifier.
pub open spec fn upload_accepted(f: UploadFields) -> bool {
    &&& present_within(f.name, MAX_NAME_LEN as int)
    &&& present_within(f.description, MAX_DESCRIPTION_LEN as int)
    &&& present(f.category)
    &&& present(f.version) && spec_is_semver(f.version->0@)
    &&& present(f.repo_url) && spec_is_https_url(f.repo_url->0@)
    &&& present(f.license)
    &&& f.package is Some
    &&& (match f.changelog {
        Some(c) => byte_len(c@) <= MAX_CHANGELOG_LEN,
        None => true,
    })
    &&& slug_of(f.name->0@) is Some
}

/// A module upload that passed the checks, with the identifier it is published under.
pub struct ModuleUpload {
    pub uuid: String,
    pub name: String,
    pub description: String,
    pub category: String,
    pub version: String,
    pub repo_url: String,
    pub license: String,
    pub package: UploadPackage,
    pub changelog: Option<String>,
    pub turnstile_response: Option<String>,
}

fn byte_count(s: &String) -> (r: usize)
    ensures
        r == byte_len(s@),
{
    let b = s.as_str().as_bytes();
    b.len()
}

impl UploadFields {
    /// Checks the upload of `login` (see [`upload_accepted`]); refused uploads are a Bad
    /// Request. The module's identifier is the identifier made from its name, `@`, and the
    /// uploader's login.
    pub fn into_upload(self, login: &str) -> (r: Result<ModuleUpload, u16>)
        ensures
            r is Ok <==> upload_accepted(self),
            r matches Err(code) ==> code == BAD_REQUEST,
            r matches Ok(u) ==> {
                &&& (slug_of(u.name@) matches Some(slug) && u.uuid@ == slug + "@"@ + login@)
                &&& self.name == Some(u.name)
                &&& self.description == Some(u.description)
                &&& self.category == Some(u.category)
                &&& self.version == Some(u.version)
                &&& self.repo_url == Some(u.repo_url)
                &&& self.license == Some(u.license)
                &&& self.package == Some(u.package)
                &&& self.changelog == u.changelog
                &&& self.turnstile_response == u.turnstile_response
            },
    {
        let name = match self.name {
            Some(n) => n,
            None => {
                return Err(BAD_REQUEST);
            },
        };
        if name.unicode_len() == 0 || byte_count(&name) > MAX_NAME_LEN {
            return Err(BAD_REQUEST);
        }
        let description = match self.description {
            Some(d) => d,
            None => {
                return Err(BAD_REQUEST);
            },
        };
        if description.unicode_len() == 0 || byte_count(&description) > MAX_DESCRIPTION_LEN {
            return Err(BAD_REQUEST);
        }
        let category = match self.category {
            Some(c) => c,
            None => {
                return Err(BAD_REQUEST);
            },
        };
        if category.unicode_len() == 0 {
            return Err(BAD_REQUEST);
        }
        let version = match self.version {
            Some(v) => v,
            None => {
                return Err(BAD_REQUEST);
            },
        };
        if version.unicode_len() == 0 || !is_semver(version.as_str()) {
            return Err(BAD_REQUEST);
        }
        let repo_url = match self.repo_url {
            Some(u) => u,
            None => {
                return Err(BAD_REQUEST);
            },
        };
        if repo_url.unicode_len() == 0 || !is_https_url(repo_url.as_str()) {
            return Err(BAD_REQUEST);
        }
        let license = match self.license {
            Some(l) => l,
            None => {
                return Err(BAD_REQUEST);
            },
        };
        if license.unicode_len() == 0 {
            return Err(BAD_REQUEST);
        }
        let package = match self.package {
            Some(p) => p,
            None => {
                return Err(BAD_REQUEST);
            },
        };
        match &self.changelog {
            Some(c) => {
                if byte_count(c) > MAX_CHANGELOG_LEN {
                    return Err(BAD_REQUEST);
                }
            },
            None => {},
        }
        let slug = match slugify(name.as_str()) {
            Some(s) => s,
            None => {
                return Err(BAD_REQUEST);
            },
        };
        let mut uuid = slug;
        uuid.append("@");
        uuid.append(login);
        Ok(
            ModuleUpload {
                uuid,
                name,
                description,
                category,
                version,
                repo_url,
                license,
                package,
                changelog: self.changelog,
                turnstile_response: self.turnstile_response,
            },
        )
    }
}

/// The status the server answers when the registry cannot be reached as asked (Bad Gateway).
pub const BAD_GATEWAY: u16 = 502;

/// The image types a screenshot may have: PNG, JPEG and WebP.
pub open spec fn screenshot_type_allowed(t: Seq<char>) -> bool {
    t == "image/png"@ || t == "image/jpeg"@ || t == "image/webp"@
}

/// The fields of a screenshot upload read so far.
pub struct ScreenshotFields {
    pub screenshot: Option<UploadPackage>,
    pub alt_text: Option<String>,
}

impl ScreenshotFields {
    /// No field read yet.
    pub fn new() -> (r: Self)
        ensures
            r.screenshot is None,
            r.alt_text is None,
    {
        ScreenshotFields { screenshot: None, alt_text: None }
    }

    /// Records the image; refuses (Bad Request) one without an accepted type, or with no data
    /// or more than [`MAX_SCREENSHOT_BYTES`], and then changes nothing.
    pub fn record_screenshot(&mut self, content_type: Option<&str>, data: Vec<u8>) -> (r: Result<(), u16>)
        ensures
            r is Ok <==> (match content_type {
                Some(t) => screenshot_type_allowed(t@),
                None => false,
            } && 0 < data@.len() <= MAX_SCREENSHOT_BYTES),
            r matches Err(code) ==> code == BAD_REQUEST,
            r is Ok ==> (final(self).screenshot matches Some(p) && p.bytes@ == data@ && Some(
                p.content_type@,
            ) == match content_type {
                Some(t) => Some(t@),
                None => None::<Seq<char>>,
            }),
            r is Err ==> final(self).screenshot == old(self).screenshot,
            final(self).alt_text == old(self).alt_text,
    {
        let t = match content_type {
            Some(t) => t,
            None => {
                return Err(BAD_REQUEST);
            },
        };
        if !(str_eq(t, "image/png") || str_eq(t, "image/jpeg") || str_eq(t, "image/webp")) {
            return Err(BAD_REQUEST);
        }
        if data.len() == 0 || data.len() > MAX_SCREENSHOT_BYTES {
            return Err(BAD_REQUEST);
        }
        self.screenshot = Some(UploadPackage { content_type: t.to_string(), bytes: data });
        Ok(())
    }

    /// Records the alternative text, trimmed; blank text changes nothing.
    pub fn record_alt_text(&mut self, text: &str)
        ensures
            opt_view(final(self).alt_text) == (if trimmed(text@).len() == 0 {
                opt_view(old(self).alt_text)
            } else {
                Some(trimmed(text@))
            }),
            final(self).screenshot == old(self).screenshot,
    {
        let t = trimmed_string(text);
        if t.unicode_len() > 0 {
            self.alt_text = Some(t);
        }
    }

    /// The image and its alternative text; an upload without an image is a Bad Request.
    pub fn into_parts(self) -> (r: Result<(UploadPackage, Option<String>), u16>)
        ensures
            r is Ok <==> self.screenshot is Some,
            r matches Err(code) ==> code == BAD_REQUEST,
            r matches Ok(parts) ==> self.screenshot == Some(parts.0) && self.alt_text == parts.1,
    {
        match self.screenshot {
            Some(p) => Ok((p, self.alt_text)),
            None => Err(BAD_REQUEST),
        }
    }
}

/// Where a screenshot of module `uuid` is sent: the registry's screenshot endpoint, with the
/// alternative text as the `alt_text` query pair when there is one; Bad Gateway when that
/// endpoint is no URL.
pub open spec fn screenshot_upload_target(base: Seq<char>, uuid: Seq<char>, alt_text: Option<Seq<char>>) -> Result<
    Seq<char>,
    u16,
> {
    let endpoint = api_url_text(base, "modules/"@ + uuid + "/screenshots"@);
    match alt_text {
        None => match url_parsed(endpoint) {
            Some(parts) => Ok(parts.0),
            None => Err(BAD_GATEWAY),
        },
        Some(a) => match url_with_pair(endpoint, "alt_text"@, a) {
            Some(u) => Ok(u),
            None => Err(BAD_GATEWAY),
        },
    }
}

/// The address a screenshot upload is sent to (see [`screenshot_upload_target`]).
pub fn screenshot_upload_url(base: &str, uuid: &str, alt_text: Option<&str>) -> (r: Result<String, u16>)
    ensures
        match screenshot_upload_target(
            base@,
            uuid@,
            match alt_text {
                Some(a) => Some(a@),
                None => None::<Seq<char>>,
            },
        ) {
            Ok(u) => r matches Ok(s) && s@ == u,
            Err(code) => r == Err::<String, u16>(code),
        },
{
    let endpoint = module_screenshots_url(base, uuid);
    match alt_text {
        None => match parse_url(endpoint.as_str()) {
            Ok(parts) => Ok(parts.text),
            Err(_) => Err(BAD_GATEWAY),
        },
        Some(a) => match append_query_pair(endpoint.as_str(), "alt_text", a) {
            Ok(u) => Ok(u),
            Err(_) => Err(BAD_GATEWAY),
        },
    }
}

/// Where Turnstile answers are checked unless another address is configured.
pub const TURNSTILE_VERIFY_URL: &'static str = "https://challenges.cloudflare.com/turnstile/v0/siteverify";

/// The Turnstile secret a configured value gives: the value trimmed, unless nothing is left.
pub fn turnstile_secret_from(value: Option<&str>) -> (r: Option<String>)
    ensures
        match value {
            Some(v) => if trimmed(v@).len() == 0 {
                r is None
            } else {
                r matches Some(t) && t@ == trimmed(v@)
            },
            None => r is None,
        },
{
    match value {
        Some(v) => {
            let t = trim(v);
            if t.unicode_len() == 0 {
                None
            } else {
                Some(t.to_string())
            }
        },
        None => None,
    }
}

/// What an upload does about Turnstile.
#[derive(Debug, Clone, Copy, PartialEq, Eq, Structural)]
pub enum TurnstileCheck {
    /// No secret is configured: nothing is checked.
    Skip,
    /// The answer is sent to Turnstile; the upload goes on only if it is accepted.
    Verify,
    /// A secret is configured and the form carries no answer: the upload is refused (400).
    Reject,
}

/// What an upload does about Turnstile, given whether a secret is configured and the form's
/// answer.
pub fn turnstile_check(secret_configured: bool, response: &Option<String>) -> (r: TurnstileCheck)
    ensures
        r == (if !secret_configured {
            TurnstileCheck::Skip
        } else if response is Some {
            TurnstileCheck::Verify
        } else {
            TurnstileCheck::Reject
        }),
{
    if !secret_configured {
        TurnstileCheck::Skip
    } else if response.is_some() {
        TurnstileCheck::Verify
    } else {
        TurnstileCheck::Reject
    }
}

/// `p` without the extra slashes at its start: a run of leading slashes is cut to one.
pub open spec fn single_leading_slash(p: Seq<char>) -> Seq<char>
    decreases p.len(),
{
    if p.len() >= 2 && p[0] == '/' && p[1] == '/' {
        single_leading_slash(p.drop_first())
    } else {
        p
    }
}

/// The path a verify address is sent to: its own path with a single leading slash, or the
/// Turnstile path when that is the root.
pub open spec fn verify_path(p: Seq<char>) -> Seq<char> {
    let q = single_leading_slash(p);
    if q == "/"@ {
        "/turnstile/v0/siteverify"@
    } else {
        q
    }
}

/// The address Turnstile answers are checked at, from the configured text (the default when
/// none is configured): a text that is no URL is used as it is; otherwise the URL with its path
/// set to [`verify_path`] of its own.
pub open spec fn verify_url_for(value: Seq<char>) -> Seq<char> {
    match url_parsed(value) {
        None => value,
        Some(parts) => match url_with_path(value, verify_path(parts.3)) {
            Some(s) => s,
            None => value,
        },
    }
}

/// The address Turnstile answers are checked at (see [`verify_url_for`]).
pub fn turnstile_verify_url(configured: Option<&str>) -> (r: String)
    ensures
        r@ == verify_url_for(
            match configured {
                Some(v) => v@,
                None => TURNSTILE_VERIFY_URL@,
            },
        ),
{
    let value = match configured {
        Some(v) => v,
        None => TURNSTILE_VERIFY_URL,
    };
    let parts = match parse_url(value) {
        Ok(p) => p,
        Err(_) => {
            return value.to_string();
        },
    };
    let cs = chars_of(parts.path.as_str());
    let mut start: usize = 0;
    assert(cs@.skip(0) =~= cs@);
    while cs.len() - start > 1 && cs[start] == '/' && cs[start + 1] == '/'
        invariant
            start <= cs@.len(),
            cs@.len() >= 1 ==> start < cs@.len(),
            single_leading_slash(cs@.skip(start as int)) == single_leading_slash(cs@),
        decreases cs@.len() - start,
    {
        assert(cs@.skip(start as int).drop_first() =~= cs@.skip(start + 1));
        start = start + 1;
    }
    let ghost rest = cs@.skip(start as int);
    assert(single_leading_slash(rest) == rest);
    let mut path = String::new();
    let mut i: usize = start;
    while i < cs.len()
        invariant
            start <= i <= cs@.len(),
            path@ == cs@.subrange(start as int, i as int),
        decreases cs@.len() - i,
    {
        push_char(&mut path, cs[i]);
        i = i + 1;
        assert(path@ =~= cs@.subrange(start as int, i as int));
    }
    assert(path@ =~= rest);
    proof {
        reveal_strlit("/");
        reveal_strlit("/turnstile/v0/siteverify");
    }
    let target = if str_eq(path.as_str(), "/") {
        "/turnstile/v0/siteverify".to_string()
    } else {
        path
    };
    match set_url_path(value, target.as_str()) {
        Ok(s) => s,
        Err(_) => value.to_string(),
    }
}

/// The requests that publish an accepted upload, in order: create the module, upload the
/// package of the version, publish the version.
#[derive(Debug, Clone, Copy, PartialEq, Eq, Structural)]
pub enum PublishStep {
    Create,
    Upload,
    Publish,
}

/// What the registry answered to a request: its status and `Content-Length` text, or nothing
/// when it could not be reached or its answer not read.
#[derive(Debug, Clone, PartialEq, Eq)]
pub enum RegistryReply {
    Answered { status: u16, content_length: Option<String> },
    Unreachable,
}

/// What the upload does next: send the request of `step` to `url`, answer with a success
/// status, or fail with the error status it forwards.
#[derive(Debug, Clone, PartialEq, Eq)]
pub enum PublishAction {
    Send { step: PublishStep, url: String },
    Done(u16),
    Fail(u16),
}

/// The registry path of `step` for module `uuid` at `version`.
pub open spec fn publish_path(step: PublishStep, uuid: Seq<char>, version: Seq<char>) -> Seq<char> {
    match step {
        PublishStep::Create => "modules"@,
        PublishStep::Upload => "modules/"@ + uuid + "/versions/"@ + version + "/upload"@,
        PublishStep::Publish => "modules/"@ + uuid + "/versions/"@ + version + "/publish"@,
    }
}

fn publish_url(base: &str, step: PublishStep, uuid: &str, version: &str) -> (r: String)
    ensures
        r@ == api_url_text(base@, publish_path(step, uuid@, version@)),
{
    match step {
        PublishStep::Create => api_url(base, "modules"),
        _ => {
            let mut path = "modules/".to_string();
            path.append(uuid);
            path.append("/versions/");
            path.append(version);
            if step == PublishStep::Upload {
                path.append("/upload");
            } else {
                path.append("/publish");
            }
            api_url(base, path.as_str())
        },
    }
}

/// The first request of publishing module `uuid` at `version` on the registry at `base`: create
/// the module.
pub fn publish_start(base: &str, uuid: &str, version: &str) -> (r: PublishAction)
    ensures
        r matches PublishAction::Send { step, url } && step == PublishStep::Create && url@
            == api_url_text(base@, "modules"@),
{
    PublishAction::Send {
        step: PublishStep::Create,
        url: publish_url(base, PublishStep::Create, uuid, version),
    }
}

/// What follows the registry's `reply` to the request of `step`: an unreachable registry ends the
/// upload with 502; a failure ends it with the status [`mapped_status`] forwards; a success leads
/// to the next step's request, and after publishing the upload ends with 200.
pub fn publish_next(
    step: PublishStep,
    reply: &RegistryReply,
    base: &str,
    uuid: &str,
    version: &str,
) -> (r: PublishAction)
    ensures
        match reply {
            RegistryReply::Unreachable => r == PublishAction::Fail(BAD_GATEWAY),
            RegistryReply::Answered { status, content_length } => if !(200 <= *status <= 299) {
                r == PublishAction::Fail(
                    mapped_status(
                        *status,
                        match content_length {
                            Some(v) => Some(v@),
                            None => None,
                        },
                    ),
                )
            } else {
                match step {
                    PublishStep::Create => r matches PublishAction::Send { step: s, url } && s
                        == PublishStep::Upload && url@ == api_url_text(
                        base@,
                        publish_path(PublishStep::Upload, uuid@, version@),
                    ),
                    PublishStep::Upload => r matches PublishAction::Send { step: s, url } && s
                        == PublishStep::Publish && url@ == api_url_text(
                        base@,
                        publish_path(PublishStep::Publish, uuid@, version@),
                    ),
                    PublishStep::Publish => r == PublishAction::Done(200),
                }
            },
        },
{
    match reply {
        RegistryReply::Unreachable => PublishAction::Fail(BAD_GATEWAY),
        RegistryReply::Answered { status, content_length } => {
            if !(200 <= *status && *status <= 299) {
                let length: Option<&str> = match content_length {
                    Some(v) => Some(v.as_str()),
                    None => None,
                };
                PublishAction::Fail(map_status(*status, length))
            } else {
                match step {
                    PublishStep::Create => PublishAction::Send {
                        step: PublishStep::Upload,
                        url: publish_url(base, PublishStep::Upload, uuid, version),
                    },
                    PublishStep::Upload => PublishAction::Send {
                        step: PublishStep::Publish,
                        url: publish_url(base, PublishStep::Publish, uuid, version),
                    },
                    PublishStep::Publish => PublishAction::Done(200),
                }
            }
        },
    }
}

} // verus!
