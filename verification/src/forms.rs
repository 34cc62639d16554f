//! The upload and profile forms: what they hold, how they are checked, and what is sent.
use vstd::prelude::*;

use crate::text::{has_prefix, opt_view, starts_with, str_eq, trim, trimmed};
use crate::urls::{parse_url, url_parsed};

verus! {

broadcast use vstd::string::group_string_axioms;

/// A problem with one form field, and the message shown for it.
#[derive(Debug, Clone, Copy, PartialEq, Eq)]
pub struct FieldError {
    pub field: &'static str,
    pub message: &'static str,
}

/// The upload form as typed.
#[derive(Debug, Clone, PartialEq, Eq)]
pub struct UploadFormValues {
    pub name: String,
    pub description: String,
    pub category: String,
    pub repo_url: String,
    pub version: String,
    pub license: String,
    pub package_file: String,
}

impl Default for UploadFormValues {
    fn default() -> (r: Self)
        ensures
            r.name@.len() == 0,
            r.description@.len() == 0,
            r.category@.len() == 0,
            r.repo_url@.len() == 0,
            r.version@.len() == 0,
            r.license@.len() == 0,
            r.package_file@.len() == 0,
    {
        UploadFormValues {
            name: String::new(),
            description: String::new(),
            category: String::new(),
            repo_url: String::new(),
            version: String::new(),
            license: String::new(),
            package_file: String::new(),
        }
    }
}

/// The profile form as typed.
#[derive(Debug, Clone, PartialEq, Eq)]
pub struct ProfileFormValues {
    pub display_name: String,
    pub bio: String,
    pub website_url: String,
    pub github_url: String,
    pub twitter_url: String,
    pub bluesky_url: String,
    pub discord_url: String,
    pub sponsor_url: String,
}

impl Default for ProfileFormValues {
    fn default() -> (r: Self)
        ensures
            r.display_name@.len() == 0,
            r.bio@.len() == 0,
            r.website_url@.len() == 0,
            r.github_url@.len() == 0,
            r.twitter_url@.len() == 0,
            r.bluesky_url@.len() == 0,
            r.discord_url@.len() == 0,
            r.sponsor_url@.len() == 0,
    {
        ProfileFormValues {
            display_name: String::new(),
            bio: String::new(),
            website_url: String::new(),
            github_url: String::new(),
            twitter_url: String::new(),
            bluesky_url: String::new(),
            discord_url: String::new(),
            sponsor_url: String::new(),
        }
    }
}

/// The profile changes sent to the server; a field left blank is sent as nothing.
#[derive(Debug, Clone, PartialEq, Eq)]
pub struct UpdateProfileRequest {
    pub display_name: Option<String>,
    pub bio: Option<String>,
    pub website_url: Option<String>,
    pub github_url: Option<String>,
    pub twitter_url: Option<String>,
    pub bluesky_url: Option<String>,
    pub discord_url: Option<String>,
    pub sponsor_url: Option<String>,
}

/// Where and how the upload form is sent.
#[derive(Debug, Clone, Copy, PartialEq, Eq)]
pub struct UploadRequestSpec {
    pub upload_endpoint: &'static str,
    pub csrf_endpoint: &'static str,
    pub csrf_header: &'static str,
    pub turnstile_field: &'static str,
}

/// Where and how the profile form is sent.
#[derive(Debug, Clone, Copy, PartialEq, Eq)]
pub struct ProfileRequestSpec {
    pub profile_endpoint: &'static str,
    pub csrf_endpoint: &'static str,
    pub csrf_header: &'static str,
}

/// The upload endpoint, the CSRF token endpoint and header, and the Turnstile form field.
pub fn upload_request_spec() -> (r: UploadRequestSpec)
    ensures
        r == (UploadRequestSpec {
            upload_endpoint: "/api/upload",
            csrf_endpoint: "/api/csrf-token",
            csrf_header: "x-csrf-token",
            turnstile_field: "cf-turnstile-response",
        }),
{
    UploadRequestSpec {
        upload_endpoint: "/api/upload",
        csrf_endpoint: "/api/csrf-token",
        csrf_header: "x-csrf-token",
        turnstile_field: "cf-turnstile-response",
    }
}

/// The profile endpoint and the CSRF token endpoint and header.
pub fn profile_request_spec() -> (r: ProfileRequestSpec)
    ensures
        r == (ProfileRequestSpec {
            profile_endpoint: "/api/users/me",
            csrf_endpoint: "/api/csrf-token",
            csrf_header: "x-csrf-token",
        }),
{
    ProfileRequestSpec {
        profile_endpoint: "/api/users/me",
        csrf_endpoint: "/api/csrf-token",
        csrf_header: "x-csrf-token",
    }
}

/// `e` when `cond` holds, nothing otherwise.
pub open spec fn error_if(cond: bool, e: FieldError) -> Seq<FieldError> {
    if cond {
        seq![e]
    } else {
        Seq::empty()
    }
}

/// Nothing but white space.
pub open spec fn blank(s: Seq<char>) -> bool {
    trimmed(s).len() == 0
}

/// The problems with an upload form, field by field in form order: each field is required,
/// and the repository URL must start with `https://`.
pub open spec fn upload_errors(values: UploadFormValues) -> Seq<FieldError> {
    error_if(
        blank(values.name@),
        FieldError { field: "name", message: "Module name is required." },
    ) + error_if(
        blank(values.description@),
        FieldError { field: "description", message: "Description is required." },
    ) + error_if(
        blank(values.category@),
        FieldError { field: "category", message: "Category is required." },
    ) + (if blank(values.repo_url@) {
        seq![FieldError { field: "repo_url", message: "Repository URL is required." }]
    } else {
        error_if(
            !has_prefix(values.repo_url@, "https://"@),
            FieldError { field: "repo_url", message: "Repository URL must start with https://" },
        )
    }) + error_if(
        blank(values.version@),
        FieldError { field: "version", message: "Version is required." },
    ) + error_if(
        blank(values.license@),
        FieldError { field: "license", message: "License is required." },
    ) + error_if(
        blank(values.package_file@),
        FieldError { field: "package_file", message: "Package file is required." },
    )
}

fn is_blank(s: &str) -> (r: bool)
    ensures
        r == blank(s@),
{
    trim(s).unicode_len() == 0
}

fn push_if(errors: &mut Vec<FieldError>, cond: bool, e: FieldError)
    ensures
        final(errors)@ == old(errors)@ + error_if(cond, e),
{
    if cond {
        errors.push(e);
    }
    assert(final(errors)@ =~= old(errors)@ + error_if(cond, e));
}

/// Checks the upload form (see [`upload_errors`]).
pub fn validate_upload_form(values: &UploadFormValues) -> (r: Vec<FieldError>)
    ensures
        r@ == upload_errors(*values),
{
    let mut errors: Vec<FieldError> = Vec::new();
    push_if(
        &mut errors,
        is_blank(values.name.as_str()),
        FieldError { field: "name", message: "Module name is required." },
    );
    push_if(
        &mut errors,
        is_blank(values.description.as_str()),
        FieldError { field: "description", message: "Description is required." },
    );
    push_if(
        &mut errors,
        is_blank(values.category.as_str()),
        FieldError { field: "category", message: "Category is required." },
    );
    if is_blank(values.repo_url.as_str()) {
        push_if(
            &mut errors,
            true,
            FieldError { field: "repo_url", message: "Repository URL is required." },
        );
    } else {
        push_if(
            &mut errors,
            !starts_with(values.repo_url.as_str(), "https://"),
            FieldError { field: "repo_url", message: "Repository URL must start with https://" },
        );
    }
    push_if(
        &mut errors,
        is_blank(values.version.as_str()),
        FieldError { field: "version", message: "Version is required." },
    );
    push_if(
        &mut errors,
        is_blank(values.license.as_str()),
        FieldError { field: "license", message: "License is required." },
    );
    push_if(
        &mut errors,
        is_blank(values.package_file.as_str()),
        FieldError { field: "package_file", message: "Package file is required." },
    );
    assert(errors@ =~= upload_errors(*values));
    errors
}

/// An optional link field is wrong when, trimmed, it is not empty and no absolute URL.
pub open spec fn bad_link(value: Seq<char>) -> bool {
    !blank(value) && url_parsed(trimmed(value)) is None
}

/// The problems with a profile form: a display name over 50 characters, a bio over 500
/// (both counted after trimming), then each link field that is filled in but no URL.
pub open spec fn profile_errors(values: ProfileFormValues) -> Seq<FieldError> {
    error_if(
        trimmed(values.display_name@).len() > 50,
        FieldError { field: "display_name", message: "Display name must be 50 characters or less" },
    ) + error_if(
        trimmed(values.bio@).len() > 500,
        FieldError { field: "bio", message: "Bio must be 500 characters or less" },
    ) + error_if(
        bad_link(values.website_url@),
        FieldError { field: "website_url", message: "Must be a valid URL" },
    ) + error_if(
        bad_link(values.github_url@),
        FieldError { field: "github_url", message: "Must be a valid URL" },
    ) + error_if(
        bad_link(values.twitter_url@),
        FieldError { field: "twitter_url", message: "Must be a valid URL" },
    ) + error_if(
        bad_link(values.bluesky_url@),
        FieldError { field: "bluesky_url", message: "Must be a valid URL" },
    ) + error_if(
        bad_link(values.discord_url@),
        FieldError { field: "discord_url", message: "Must be a valid URL" },
    ) + error_if(
        bad_link(values.sponsor_url@),
        FieldError { field: "sponsor_url", message: "Must be a valid URL" },
    )
}

fn is_bad_link(value: &str) -> (r: bool)
    ensures
        r == bad_link(value@),
{
    let t = trim(value);
    if t.unicode_len() == 0 {
        return false;
    }
    parse_url(t).is_err()
}

/// Checks the profile form (see [`profile_errors`]).
pub fn validate_profile_form(values: &ProfileFormValues) -> (r: Vec<FieldError>)
    ensures
        r@ == profile_errors(*values),
{
    let mut errors: Vec<FieldError> = Vec::new();
    push_if(
        &mut errors,
        trim(values.display_name.as_str()).unicode_len() > 50,
        FieldError { field: "display_name", message: "Display name must be 50 characters or less" },
    );
    push_if(
        &mut errors,
        trim(values.bio.as_str()).unicode_len() > 500,
        FieldError { field: "bio", message: "Bio must be 500 characters or less" },
    );
    push_if(
        &mut errors,
        is_bad_link(values.website_url.as_str()),
        FieldError { field: "website_url", message: "Must be a valid URL" },
    );
    push_if(
        &mut errors,
        is_bad_link(values.github_url.as_str()),
        FieldError { field: "github_url", message: "Must be a valid URL" },
    );
    push_if(
        &mut errors,
        is_bad_link(values.twitter_url.as_str()),
        FieldError { field: "twitter_url", message: "Must be a valid URL" },
    );
    push_if(
        &mut errors,
        is_bad_link(values.bluesky_url.as_str()),
        FieldError { field: "bluesky_url", message: "Must be a valid URL" },
    );
    push_if(
        &mut errors,
        is_bad_link(values.discord_url.as_str()),
        FieldError { field: "discord_url", message: "Must be a valid URL" },
    );
    push_if(
        &mut errors,
        is_bad_link(values.sponsor_url.as_str()),
        FieldError { field: "sponsor_url", message: "Must be a valid URL" },
    );
    assert(errors@ =~= profile_errors(*values));
    errors
}

/// The message of the first problem with `field`, if any.
pub open spec fn first_message(errors: Seq<FieldError>, field: Seq<char>) -> Option<&'static str>
    decreases errors.len(),
{
    if errors.len() == 0 {
        None
    } else if errors[0].field@ == field {
        Some(errors[0].message)
    } else {
        first_message(errors.drop_first(), field)
    }
}

/// The message to show under `field`, from the first problem reported for it.
pub fn field_error_message(errors: &[FieldError], field: &str) -> (r: Option<&'static str>)
    ensures
        r == first_message(errors@, field@),
{
    let mut i: usize = 0;
    assert(errors@.skip(0) =~= errors@);
    while i < errors.len()
        invariant
            i <= errors@.len(),
            first_message(errors@, field@) == first_message(errors@.skip(i as int), field@),
        decreases errors@.len() - i,
    {
        assert(errors@.skip(i as int)[0] == errors@[i as int]);
        assert(errors@.skip(i as int).drop_first() =~= errors@.skip(i + 1));
        if str_eq(errors[i].field, field) {
            return Some(errors[i].message);
        }
        i = i + 1;
    }
    None
}

/// The trimmed text of a field, or nothing when it is blank.
pub open spec fn filled(value: Seq<char>) -> Option<Seq<char>> {
    if blank(value) {
        None
    } else {
        Some(trimmed(value))
    }
}

fn to_option(value: &str) -> (r: Option<String>)
    ensures
        opt_view(r) == filled(value@),
{
    let t = trim(value);
    if t.unicode_len() == 0 {
        None
    } else {
        Some(t.to_string())
    }
}

/// The profile changes to send: each field trimmed, blank ones as nothing.
pub fn update_profile_request(values: &ProfileFormValues) -> (r: UpdateProfileRequest)
    ensures
        opt_view(r.display_name) == filled(values.display_name@),
        opt_view(r.bio) == filled(values.bio@),
        opt_view(r.website_url) == filled(values.website_url@),
        opt_view(r.github_url) == filled(values.github_url@),
        opt_view(r.twitter_url) == filled(values.twitter_url@),
        opt_view(r.bluesky_url) == filled(values.bluesky_url@),
        opt_view(r.discord_url) == filled(values.discord_url@),
        opt_view(r.sponsor_url) == filled(values.sponsor_url@),
{
    UpdateProfileRequest {
        display_name: to_option(values.display_name.as_str()),
        bio: to_option(values.bio.as_str()),
        website_url: to_option(values.website_url.as_str()),
        github_url: to_option(values.github_url.as_str()),
        twitter_url: to_option(values.twitter_url.as_str()),
        bluesky_url: to_option(values.bluesky_url.as_str()),
        discord_url: to_option(values.discord_url.as_str()),
        sponsor_url: to_option(values.sponsor_url.as_str()),
    }
}

/// A collection's fields as sent to the registry; a field left out is sent as nothing.
#[derive(Debug, Clone, PartialEq, Eq)]
pub struct CollectionRequest {
    pub name: Option<String>,
    pub description: Option<String>,
    pub visibility: Option<String>,
}

/// The error shown when a new collection has no name.
pub open spec fn collection_name_required() -> FieldError {
    FieldError { field: "collection_name", message: "Collection name is required." }
}

/// The collection to create from the dashboard's form: refused with a "Collection name is
/// required." error on `collection_name` when the name is blank; otherwise each field trimmed,
/// a blank description or visibility as nothing.
pub fn create_collection_request(name: &str, description: &str, visibility: &str) -> (r: Result<
    CollectionRequest,
    FieldError,
>)
    ensures
        match r {
            Err(e) => blank(name@) && e == collection_name_required(),
            Ok(req) => !blank(name@) && opt_view(req.name) == filled(name@) && opt_view(
                req.description,
            ) == filled(description@) && opt_view(req.visibility) == filled(visibility@),
        },
{
    let name = to_option(name);
    match name {
        None => Err(FieldError { field: "collection_name", message: "Collection name is required." }),
        Some(n) => Ok(
            CollectionRequest {
                name: Some(n),
                description: to_option(description),
                visibility: to_option(visibility),
            },
        ),
    }
}

/// The changes to a collection from its edit form: each field trimmed, blank ones as nothing.
pub fn update_collection_request(name: &str, description: &str, visibility: &str) -> (r:
    CollectionRequest)
    ensures
        opt_view(r.name) == filled(name@),
        opt_view(r.description) == filled(description@),
        opt_view(r.visibility) == filled(visibility@),
{
    CollectionRequest {
        name: to_option(name),
        description: to_option(description),
        visibility: to_option(visibility),
    }
}

/// The state of the account controls on the security settings.
#[derive(Debug, Clone, PartialEq, Eq)]
pub struct AccountControls {
    /// The typed confirmation, trimmed, is the signed-in login.
    pub confirm_matches: bool,
    pub export_disabled: bool,
    pub delete_disabled: bool,
    pub delete_label: &'static str,
    /// What the confirmation box shows before anything is typed.
    pub delete_placeholder: String,
}

/// The account controls for a visitor signed in as `login` (if at all) who typed `confirm` in
/// the confirmation box, while a deletion is `deleting` or not: export needs a session; deletion
/// needs a session, no deletion under way, and the login typed back.
pub fn account_controls(
    authenticated: bool,
    login: Option<&str>,
    confirm: &str,
    deleting: bool,
) -> (r: AccountControls)
    ensures
        r.confirm_matches == (login matches Some(l) && trimmed(confirm@) == l@),
        r.export_disabled == !authenticated,
        r.delete_disabled == (!authenticated || deleting || !r.confirm_matches),
        r.delete_label@ == (if deleting {
            "Deleting..."@
        } else {
            "Delete Account"@
        }),
        r.delete_placeholder@ == match login {
            Some(l) => l@,
            None => "username"@,
        },
{
    let confirm_matches = match login {
        Some(l) => str_eq(trim(confirm), l),
        None => false,
    };
    AccountControls {
        confirm_matches,
        export_disabled: !authenticated,
        delete_disabled: !authenticated || deleting || !confirm_matches,
        delete_label: if deleting {
            "Deleting..."
        } else {
            "Delete Account"
        },
        delete_placeholder: match login {
            Some(l) => l.to_string(),
            None => "username".to_string(),
        },
    }
}

/// A submitted form value: text, or a file (by its name, when one was chosen).
#[derive(Debug, Clone, PartialEq, Eq)]
pub enum FormValue {
    Text(String),
    File(Option<String>),
}

/// The text a form value stands for: the text itself, or the chosen file's name (empty when
/// none was chosen).
pub open spec fn form_value_text(v: FormValue) -> Seq<char> {
    match v {
        FormValue::Text(t) => t@,
        FormValue::File(f) => match f {
            Some(name) => name@,
            None => Seq::empty(),
        },
    }
}

/// The value of the first field named `key`, as text; empty when there is none.
pub open spec fn field_text(values: Seq<(String, FormValue)>, key: Seq<char>) -> Seq<char>
    decreases values.len(),
{
    if values.len() == 0 {
        Seq::empty()
    } else if values[0].0@ == key {
        form_value_text(values[0].1)
    } else {
        field_text(values.drop_first(), key)
    }
}

/// Looks up a submitted field (see [`field_text`]).
pub fn form_value(values: &[(String, FormValue)], key: &str) -> (r: String)
    ensures
        r@ == field_text(values@, key@),
{
    let mut i: usize = 0;
    assert(values@.skip(0) =~= values@);
    while i < values.len()
        invariant
            i <= values@.len(),
            field_text(values@, key@) == field_text(values@.skip(i as int), key@),
        decreases values@.len() - i,
    {
        assert(values@.skip(i as int)[0] == values@[i as int]);
        assert(values@.skip(i as int).drop_first() =~= values@.skip(i + 1));
        if str_eq(values[i].0.as_str(), key) {
            return match &values[i].1 {
                FormValue::Text(t) => t.clone(),
                FormValue::File(f) => match f {
                    Some(name) => name.clone(),
                    None => String::new(),
                },
            };
        }
        i = i + 1;
    }
    String::new()
}

/// The upload form as submitted.
pub fn upload_form_values(values: &[(String, FormValue)]) -> (r: UploadFormValues)
    ensures
        r.name@ == field_text(values@, "name"@),
        r.description@ == field_text(values@, "description"@),
        r.category@ == field_text(values@, "category"@),
        r.repo_url@ == field_text(values@, "repo_url"@),
        r.version@ == field_text(values@, "version"@),
        r.license@ == field_text(values@, "license"@),
        r.package_file@ == field_text(values@, "package_file"@),
{
    UploadFormValues {
        name: form_value(values, "name"),
        description: form_value(values, "description"),
        category: form_value(values, "category"),
        repo_url: form_value(values, "repo_url"),
        version: form_value(values, "version"),
        license: form_value(values, "license"),
        package_file: form_value(values, "package_file"),
    }
}

/// The profile form as submitted.
pub fn profile_form_values(values: &[(String, FormValue)]) -> (r: ProfileFormValues)
    ensures
        r.display_name@ == field_text(values@, "display_name"@),
        r.bio@ == field_text(values@, "bio"@),
        r.website_url@ == field_text(values@, "website_url"@),
        r.github_url@ == field_text(values@, "github_url"@),
        r.twitter_url@ == field_text(values@, "twitter_url"@),
        r.bluesky_url@ == field_text(values@, "bluesky_url"@),
        r.discord_url@ == field_text(values@, "discord_url"@),
        r.sponsor_url@ == field_text(values@, "sponsor_url"@),
{
    ProfileFormValues {
        display_name: form_value(values, "display_name"),
        bio: form_value(values, "bio"),
        website_url: form_value(values, "website_url"),
        github_url: form_value(values, "github_url"),
        twitter_url: form_value(values, "twitter_url"),
        bluesky_url: form_value(values, "bluesky_url"),
        discord_url: form_value(values, "discord_url"),
        sponsor_url: form_value(values, "sponsor_url"),
    }
}

} // verus!
