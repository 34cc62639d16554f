//! The collection page: which view it shows, what it lists, who may edit it, and what removing
//! a module leaves.
use vstd::prelude::*;

use crate::model::{Collection, CollectionDetailResponse, CollectionModule, CollectionOwner};
use crate::pages::{normalize_username, normalized_username};
use crate::remote::RemoteState;
use crate::sample_data::{
    is_sample_collection, is_sample_collection_modules, sample_collection,
    sample_collection_modules,
};
use crate::server_config::{parse_i64, parsed_i64};
use crate::text::{contains_str, contains_text, str_eq};

verus! {

broadcast use vstd::string::group_string_axioms;

/// What the collection page shows.
#[derive(Debug, Clone, Copy, PartialEq, Eq, Structural)]
pub enum CollectionPage {
    /// The not-found page (404).
    NotFound,
    /// The loading banner.
    Loading,
    /// The "Collection unavailable" banner; `forbidden` when the page answers 403.
    Failed { forbidden: bool },
    /// The collection itself.
    Show,
}

/// The page for the collection `id` in `state`: an `id` that is no number, or a fetch that
/// failed with a 404, is not found; a fetch under way shows the loading banner; another failure
/// shows the error banner (403 when its message says so); otherwise the collection.
pub open spec fn collection_page_for(
    id: Seq<char>,
    state: RemoteState<CollectionDetailResponse>,
) -> CollectionPage {
    if parsed_i64(id) is None {
        CollectionPage::NotFound
    } else {
        match state {
            RemoteState::Loading => CollectionPage::Loading,
            RemoteState::Error(message) => if contains_text(message@, "404"@) {
                CollectionPage::NotFound
            } else {
                CollectionPage::Failed { forbidden: contains_text(message@, "403"@) }
            },
            _ => CollectionPage::Show,
        }
    }
}

/// Which view the collection page shows (see [`collection_page_for`]).
pub fn collection_page(id: &str, state: &RemoteState<CollectionDetailResponse>) -> (r:
    CollectionPage)
    ensures
        r == collection_page_for(id@, *state),
{
    if parse_i64(id).is_none() {
        return CollectionPage::NotFound;
    }
    match state {
        RemoteState::Loading => CollectionPage::Loading,
        RemoteState::Error(message) => {
            if contains_str(message.as_str(), "404") {
                CollectionPage::NotFound
            } else {
                CollectionPage::Failed { forbidden: contains_str(message.as_str(), "403") }
            }
        },
        _ => CollectionPage::Show,
    }
}

/// The collection and modules the page lists: the fetched ones; the sample collection and its
/// modules when nothing is fetched; the sample collection and no modules otherwise.
pub fn collection_contents(id: &str, state: RemoteState<CollectionDetailResponse>) -> (r: (
    Collection,
    Vec<CollectionModule>,
))
    ensures
        match state {
            RemoteState::Ready(p) => r.0 == p.collection && r.1@ == p.modules@,
            RemoteState::Unavailable => is_sample_collection(id@, r.0)
                && is_sample_collection_modules(r.1@),
            _ => is_sample_collection(id@, r.0) && r.1@.len() == 0,
        },
{
    match state {
        RemoteState::Ready(p) => (p.collection, p.modules),
        RemoteState::Unavailable => (sample_collection(id), sample_collection_modules()),
        _ => (sample_collection(id), Vec::new()),
    }
}

/// Whether the signed-in user `viewer` owns a collection of `owner`: both names agree once
/// normalised; nobody signed in owns nothing.
pub fn is_collection_owner(viewer: Option<&str>, owner: &str) -> (r: bool)
    ensures
        r == match viewer {
            Some(v) => normalized_username(Some(v@)) == normalized_username(Some(owner@)),
            None => false,
        },
{
    match viewer {
        Some(v) => {
            let viewer_login = normalize_username(Some(v));
            let owner_login = normalize_username(Some(owner));
            str_eq(viewer_login.as_str(), owner_login.as_str())
        },
        None => false,
    }
}

/// The name a collection's owner is shown by: the display name, else the username.
pub open spec fn owner_label_of(owner: CollectionOwner) -> Seq<char> {
    match owner.display_name {
        Some(d) => d@,
        None => owner.username@,
    }
}

/// The name a collection's owner is shown by (see [`owner_label_of`]).
pub fn owner_label(owner: &CollectionOwner) -> (r: String)
    ensures
        r@ == owner_label_of(*owner),
{
    match &owner.display_name {
        Some(d) => d.clone(),
        None => owner.username.clone(),
    }
}

/// The noun after a module count: "module" for one, "modules" otherwise.
pub fn module_count_label(count: usize) -> (r: &'static str)
    ensures
        r@ == (if count == 1 {
            "module"@
        } else {
            "modules"@
        }),
{
    if count == 1 {
        "module"
    } else {
        "modules"
    }
}

/// What an empty collection says: its heading, then how to fill it to its owner, or that it is
/// empty to others.
pub fn empty_collection_text(is_owner: bool) -> (r: (&'static str, &'static str))
    ensures
        r.0@ == "This collection is empty"@,
        r.1@ == (if is_owner {
            "Add modules to this collection from their detail pages."@
        } else {
            "No modules have been added to this collection yet."@
        }),
{
    let message = if is_owner {
        "Add modules to this collection from their detail pages."
    } else {
        "No modules have been added to this collection yet."
    };
    ("This collection is empty", message)
}

/// The remove button of the module `uuid` while `removing` is being removed: its label, and
/// whether it is disabled (only the one being removed is).
pub fn remove_button(removing: &Option<String>, uuid: &str) -> (r: (&'static str, bool))
    ensures
        r.1 == (match removing {
            Some(u) => u@ == uuid@,
            None => false,
        }),
        r.0@ == (if r.1 {
            "Removing..."@
        } else {
            "Remove"@
        }),
{
    let busy = match removing {
        Some(u) => str_eq(u.as_str(), uuid),
        None => false,
    };
    if busy {
        ("Removing...", true)
    } else {
        ("Remove", false)
    }
}

/// The remove control a listed module `uuid` gets: only the collection's owner gets one (see
/// [`remove_button`] for its label and state); other visitors get none.
pub fn remove_control(is_owner: bool, removing: &Option<String>, uuid: &str) -> (r: Option<
    (&'static str, bool),
>)
    ensures
        r is Some <==> is_owner,
        r matches Some(b) ==> b.1 == (match removing {
            Some(u) => u@ == uuid@,
            None => false,
        }) && b.0@ == (if b.1 {
            "Removing..."@
        } else {
            "Remove"@
        }),
{
    if is_owner {
        Some(remove_button(removing, uuid))
    } else {
        None
    }
}

/// The entries of `s` other than module `u`, in order.
pub open spec fn without_entry(s: Seq<CollectionModule>, u: Seq<char>) -> Seq<CollectionModule>
    decreases s.len(),
{
    if s.len() == 0 {
        s
    } else {
        let rest = without_entry(s.drop_last(), u);
        if s.last().uuid@ != u {
            rest.push(s.last())
        } else {
            rest
        }
    }
}

fn copy_entry(e: &CollectionModule) -> (r: CollectionModule)
    ensures
        r == *e,
{
    CollectionModule {
        uuid: e.uuid.clone(),
        name: e.name.clone(),
        author: e.author.clone(),
        category: e.category,
        note: e.note.clone(),
        position: e.position,
        added_at: e.added_at.clone(),
    }
}

/// What the page lists once module `uuid` is removed from `modules`.
pub fn without_collection_module(modules: &[CollectionModule], uuid: &str) -> (r: Vec<
    CollectionModule,
>)
    ensures
        r@ == without_entry(modules@, uuid@),
{
    let mut r: Vec<CollectionModule> = Vec::new();
    let mut i: usize = 0;
    while i < modules.len()
        invariant
            i <= modules@.len(),
            r@ == without_entry(modules@.take(i as int), uuid@),
        decreases modules@.len() - i,
    {
        assert(modules@.take(i + 1).drop_last() =~= modules@.take(i as int));
        if !str_eq(modules[i].uuid.as_str(), uuid) {
            r.push(copy_entry(&modules[i]));
        }
        i = i + 1;
    }
    assert(modules@.take(modules@.len() as int) =~= modules@);
    r
}

/// Removing module `u` from a collection's list leaves no entry of `u`, keeps every other entry
/// (each entry left was in the list), and removing it again changes nothing.
pub proof fn lemma_removal_drops_only_the_module(s: Seq<CollectionModule>, u: Seq<char>)
    ensures
        forall|i: int|
            0 <= i < without_entry(s, u).len() ==> (#[trigger] without_entry(s, u)[i]).uuid@ != u
                && s.contains(without_entry(s, u)[i]),
        forall|i: int| 0 <= i < s.len() && (#[trigger] s[i]).uuid@ != u ==> without_entry(s, u).contains(s[i]),
        without_entry(without_entry(s, u), u) == without_entry(s, u),
    decreases s.len(),
{
    if s.len() > 0 {
        let p = s.drop_last();
        lemma_removal_drops_only_the_module(p, u);
        let rest = without_entry(p, u);
        assert forall|i: int|
            0 <= i < without_entry(s, u).len() implies (#[trigger] without_entry(s, u)[i]).uuid@ != u
                && s.contains(without_entry(s, u)[i]) by {
            if i < rest.len() {
                assert(without_entry(s, u)[i] == rest[i]);
                let j = choose|j: int| 0 <= j < p.len() && p[j] == rest[i];
                assert(s[j] == p[j]);
            } else {
                assert(without_entry(s, u)[i] == s.last());
                assert(s[s.len() - 1] == s.last());
            }
        }
        assert forall|i: int| 0 <= i < s.len() && (#[trigger] s[i]).uuid@ != u implies without_entry(
            s,
            u,
        ).contains(s[i]) by {
            if i < s.len() - 1 {
                assert(p[i] == s[i]);
                let j = choose|j: int| 0 <= j < rest.len() && rest[j] == p[i];
                assert(without_entry(s, u)[j] == rest[j]);
            } else {
                assert(without_entry(s, u)[rest.len() as int] == s[i]);
            }
        }
        lemma_without_entry_fixed(without_entry(s, u), u);
    }
}

/// A list with no entry of `u` loses nothing when `u` is removed.
proof fn lemma_without_entry_fixed(s: Seq<CollectionModule>, u: Seq<char>)
    requires
        forall|i: int| 0 <= i < s.len() ==> (#[trigger] s[i]).uuid@ != u,
    ensures
        without_entry(s, u) == s,
    decreases s.len(),
{
    if s.len() > 0 {
        let p = s.drop_last();
        assert forall|i: int| 0 <= i < p.len() implies (#[trigger] p[i]).uuid@ != u by {
            assert(p[i] == s[i]);
        }
        lemma_without_entry_fixed(p, u);
        assert(s[s.len() - 1] == s.last());
        assert(p.push(s.last()) =~= s);
    }
}

} // verus!
