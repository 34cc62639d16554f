//! Path segments the site's routes accept: module slugs, GitHub user names, collection ids.
use vstd::prelude::*;

use crate::text::{chars_of, is_ascii_alphanumeric, spec_is_ascii_alphanumeric};

verus! {

broadcast use vstd::string::group_string_axioms;

/// A module or collection segment: not empty, starts and ends with an ASCII letter or digit, and
/// holds only ASCII letters, digits, `-`, `_` and `.`.
pub open spec fn spec_is_module_segment(v: Seq<char>) -> bool {
    &&& v.len() > 0
    &&& spec_is_ascii_alphanumeric(v[0])
    &&& spec_is_ascii_alphanumeric(v.last())
    &&& forall|i: int|
        0 <= i < v.len() ==> spec_is_ascii_alphanumeric(#[trigger] v[i]) || v[i] == '-' || v[i]
            == '_' || v[i] == '.'
}

/// A GitHub user name: 1 to 39 characters, ASCII letters, digits and single `-`s between them.
pub open spec fn spec_is_github_username(v: Seq<char>) -> bool {
    &&& 0 < v.len() <= 39
    &&& spec_is_ascii_alphanumeric(v[0])
    &&& spec_is_ascii_alphanumeric(v.last())
    &&& forall|i: int| 0 <= i < v.len() ==> spec_is_ascii_alphanumeric(#[trigger] v[i]) || v[i] == '-'
    &&& forall|i: int| 0 <= i < v.len() - 1 ==> !(#[trigger] v[i] == '-' && v[i + 1] == '-')
}

/// Position of the first `@` in `v`, if any.
pub open spec fn first_at(v: Seq<char>) -> Option<int> {
    if exists|i: int| 0 <= i < v.len() && v[i] == '@' {
        Some(choose|i: int| 0 <= i < v.len() && v[i] == '@' && forall|j: int| 0 <= j < i ==> v[j] != '@')
    } else {
        None
    }
}

fn is_module_segment_chars(v: &Vec<char>) -> (r: bool)
    ensures
        r == spec_is_module_segment(v@),
{
    if v.len() == 0 {
        return false;
    }
    if !is_ascii_alphanumeric(v[0]) || !is_ascii_alphanumeric(v[v.len() - 1]) {
        return false;
    }
    let mut i: usize = 0;
    while i < v.len()
        invariant
            i <= v.len(),
            forall|j: int|
                0 <= j < i ==> spec_is_ascii_alphanumeric(#[trigger] v@[j]) || v@[j] == '-' || v@[j]
                    == '_' || v@[j] == '.',
        decreases v.len() - i,
    {
        let c = v[i];
        if !(is_ascii_alphanumeric(c) || c == '-' || c == '_' || c == '.') {
            return false;
        }
        i = i + 1;
    }
    true
}

fn is_github_username_chars(v: &Vec<char>) -> (r: bool)
    ensures
        r == spec_is_github_username(v@),
{
    if v.len() == 0 || v.len() > 39 {
        return false;
    }
    if !is_ascii_alphanumeric(v[0]) || !is_ascii_alphanumeric(v[v.len() - 1]) {
        return false;
    }
    let mut prev_dash = false;
    let mut i: usize = 0;
    while i < v.len()
        invariant
            0 < v.len() <= 39,
            i <= v.len(),
            forall|j: int| 0 <= j < i ==> spec_is_ascii_alphanumeric(#[trigger] v@[j]) || v@[j] == '-',
            forall|j: int| 0 <= j < i - 1 ==> !(#[trigger] v@[j] == '-' && v@[j + 1] == '-'),
            prev_dash == (i > 0 && v@[i - 1] == '-'),
        decreases v.len() - i,
    {
        let c = v[i];
        if c == '-' {
            if prev_dash {
                assert(v@[i - 1] == '-' && v@[(i - 1) + 1] == '-');
                return false;
            }
            prev_dash = true;
        } else {
            if !is_ascii_alphanumeric(c) {
                return false;
            }
            prev_dash = false;
        }
        i = i + 1;
    }
    true
}

/// Whether `value` is a module or collection segment.
pub fn is_module_segment(value: &str) -> (r: bool)
    ensures
        r == spec_is_module_segment(value@),
{
    let v = chars_of(value);
    is_module_segment_chars(&v)
}

/// Whether `value` is a GitHub user name.
pub fn is_github_username(value: &str) -> (r: bool)
    ensures
        r == spec_is_github_username(value@),
{
    let v = chars_of(value);
    is_github_username_chars(&v)
}

/// Why a module slug was refused.
pub open spec fn slug_error(v: Seq<char>) -> Option<Seq<char>> {
    match first_at(v) {
        None => Some("missing owner"@),
        Some(i) => if !spec_is_module_segment(v.take(i)) {
            Some("invalid module name"@)
        } else if !spec_is_github_username(v.skip(i + 1)) {
            Some("invalid module owner"@)
        } else {
            None
        },
    }
}

/// A module's identifier in a URL: `name@owner`.
#[derive(Debug, Clone, PartialEq, Eq)]
pub struct ModuleSlug(String);

/// A GitHub user name in a URL.
#[derive(Debug, Clone, PartialEq, Eq)]
pub struct GithubUsername(String);

/// A collection's identifier in a URL.
#[derive(Debug, Clone, PartialEq, Eq)]
pub struct CollectionId(String);

impl ModuleSlug {
    /// The slug's text.
    pub closed spec fn text(&self) -> Seq<char> {
        self.0@
    }

    /// The slug's text.
    pub fn as_str(&self) -> (r: &str)
        ensures
            r@ == self.text(),
    {
        self.0.as_str()
    }

    /// Reads `name@owner`, splitting at the first `@`: the name must be a module segment and the
    /// owner a GitHub user name.
    pub fn parse(value: &str) -> (r: Result<ModuleSlug, &'static str>)
        ensures
            match r {
                Ok(slug) => slug_error(value@) is None && slug.text() == value@,
                Err(e) => slug_error(value@) == Some(e@),
            },
    {
        proof {
            reveal_strlit("missing owner");
            reveal_strlit("invalid module name");
            reveal_strlit("invalid module owner");
        }
        let v = chars_of(value);
        let mut at: usize = 0;
        while at < v.len() && v[at] != '@'
            invariant
                at <= v.len(),
                forall|j: int| 0 <= j < at ==> v@[j] != '@',
            decreases v.len() - at,
        {
            at = at + 1;
        }
        if at == v.len() {
            return Err("missing owner");
        }
        assert(first_at(v@) == Some(at as int)) by {
            let w = choose|i: int|
                0 <= i < v@.len() && v@[i] == '@' && forall|j: int| 0 <= j < i ==> v@[j] != '@';
            if w < at {
            } else if w > at {
                assert(v@[at as int] == '@');
            }
        }
        let mut name: Vec<char> = Vec::new();
        let mut k: usize = 0;
        while k < at
            invariant
                k <= at < v.len(),
                name@ == v@.take(k as int),
            decreases at - k,
        {
            name.push(v[k]);
            k = k + 1;
        }
        let mut owner: Vec<char> = Vec::new();
        let mut m: usize = at + 1;
        while m < v.len()
            invariant
                at + 1 <= m <= v.len(),
                owner@ == v@.subrange(at + 1, m as int),
            decreases v.len() - m,
        {
            owner.push(v[m]);
            m = m + 1;
        }
        assert(owner@ == v@.skip(at + 1));
        if !is_module_segment_chars(&name) {
            return Err("invalid module name");
        }
        if !is_github_username_chars(&owner) {
            return Err("invalid module owner");
        }
        Ok(ModuleSlug(value.to_string()))
    }
}

impl GithubUsername {
    /// The user name's text.
    pub closed spec fn text(&self) -> Seq<char> {
        self.0@
    }

    /// The user name's text.
    pub fn as_str(&self) -> (r: &str)
        ensures
            r@ == self.text(),
    {
        self.0.as_str()
    }

    /// Accepts `value` when it is a GitHub user name.
    pub fn parse(value: &str) -> (r: Result<GithubUsername, &'static str>)
        ensures
            match r {
                Ok(name) => spec_is_github_username(value@) && name.text() == value@,
                Err(e) => !spec_is_github_username(value@) && e@ == "invalid username"@,
            },
    {
        if is_github_username(value) {
            Ok(GithubUsername(value.to_string()))
        } else {
            Err("invalid username")
        }
    }
}

impl CollectionId {
    /// The id's text.
    pub closed spec fn text(&self) -> Seq<char> {
        self.0@
    }

    /// The id's text.
    pub fn as_str(&self) -> (r: &str)
        ensures
            r@ == self.text(),
    {
        self.0.as_str()
    }

    /// Accepts `value` when it is a module segment.
    pub fn parse(value: &str) -> (r: Result<CollectionId, &'static str>)
        ensures
            match r {
                Ok(id) => spec_is_module_segment(value@) && id.text() == value@,
                Err(e) => !spec_is_module_segment(value@) && e@ == "invalid collection id"@,
            },
    {
        if is_module_segment(value) {
            Ok(CollectionId(value.to_string()))
        } else {
            Err("invalid collection id")
        }
    }
}

impl std::str::FromStr for ModuleSlug {
    type Err = &'static str;

    fn from_str(value: &str) -> (r: Result<Self, Self::Err>)
        ensures
            match r {
                Ok(slug) => slug_error(value@) is None && slug.text() == value@,
                Err(e) => slug_error(value@) == Some(e@),
            },
    {
        ModuleSlug::parse(value)
    }
}

impl std::str::FromStr for GithubUsername {
    type Err = &'static str;

    fn from_str(value: &str) -> (r: Result<Self, Self::Err>)
        ensures
            match r {
                Ok(name) => spec_is_github_username(value@) && name.text() == value@,
                Err(e) => !spec_is_github_username(value@) && e@ == "invalid username"@,
            },
    {
        GithubUsername::parse(value)
    }
}

impl std::str::FromStr for CollectionId {
    type Err = &'static str;

    fn from_str(value: &str) -> (r: Result<Self, Self::Err>)
        ensures
            match r {
                Ok(id) => spec_is_module_segment(value@) && id.text() == value@,
                Err(e) => !spec_is_module_segment(value@) && e@ == "invalid collection id"@,
            },
    {
        CollectionId::parse(value)
    }
}

} // verus!
