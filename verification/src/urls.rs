//! Absolute URLs as the `url` crate parses and resolves them, taken apart into plain values.
use vstd::prelude::*;

verus! {

/// `url::ParseError`, carried through as it comes.
#[verifier::external_type_specification]
#[verifier::external_body]
pub struct ExUrlParseError(url::ParseError);

/// Why a text is no absolute URL: the `url` crate's reason.
pub struct UrlError {
    pub cause: url::ParseError,
}

/// The parts of a parsed URL that the site reads.
pub struct UrlParts {
    /// The URL as the parser serialises it.
    pub text: String,
    pub scheme: String,
    /// The host, for URLs that have one.
    pub host: Option<String>,
    pub path: String,
}

impl View for UrlParts {
    type V = (Seq<char>, Seq<char>, Option<Seq<char>>, Seq<char>);

    open spec fn view(&self) -> (Seq<char>, Seq<char>, Option<Seq<char>>, Seq<char>) {
        (
            self.text@,
            self.scheme@,
            match self.host {
                Some(h) => Some(h@),
                None => None,
            },
            self.path@,
        )
    }
}

/// What `url::Url::parse` makes of `text`: the serialised URL, its scheme, host and path, or
/// nothing when `text` is no absolute URL.
pub uninterp spec fn url_parsed(text: Seq<char>) -> Option<
    (Seq<char>, Seq<char>, Option<Seq<char>>, Seq<char>),
>;

/// What `url::Url::join` gives for `input` resolved against the URL `base` parses to, as text,
/// or nothing when `base` does not parse or the result is no URL.
pub uninterp spec fn url_joined(base: Seq<char>, input: Seq<char>) -> Option<Seq<char>>;

/// `url::Url::parse`. The contract ties the parts handed back, or the failure, to the name
/// `url_parsed`; which `ParseError` a failure carries is not stated.
#[verifier::external_body]
pub(crate) fn parse_url(text: &str) -> (r: Result<UrlParts, url::ParseError>)
    ensures
        match r {
            Ok(p) => url_parsed(text@) == Some(p@),
            Err(_) => url_parsed(text@) is None,
        },
{
    url::Url::parse(text).map(
        |u| UrlParts {
            text: u.as_str().to_string(),
            scheme: u.scheme().to_string(),
            host: u.host_str().map(|h| h.to_string()),
            path: u.path().to_string(),
        },
    )
}

/// `url::Url::join` on the URL that `url::Url::parse` makes of `base`, serialised. The contract
/// ties the text, or the failure, to the name `url_joined`; which `ParseError` a failure carries
/// is not stated.
#[verifier::external_body]
pub(crate) fn join_url(base: &str, input: &str) -> (r: Result<String, url::ParseError>)
    ensures
        match r {
            Ok(s) => url_joined(base@, input@) == Some(s@),
            Err(_) => url_joined(base@, input@) is None,
        },
{
    url::Url::parse(base).and_then(|u| u.join(input)).map(|u| u.to_string())
}

/// What `url::Url::parse` of `text` followed by appending the query pair `key`=`value`
/// (`query_pairs_mut().append_pair`) gives, serialised; nothing when `text` does not parse.
pub uninterp spec fn url_with_pair(text: Seq<char>, key: Seq<char>, value: Seq<char>) -> Option<
    Seq<char>,
>;

/// `url::Url::parse`, then `append_pair` on its query, serialised. The contract ties the text,
/// or the failure, to the name `url_with_pair`; which `ParseError` a failure carries is not
/// stated.
#[verifier::external_body]
pub(crate) fn append_query_pair(text: &str, key: &str, value: &str) -> (r: Result<String, url::ParseError>)
    ensures
        match r {
            Ok(s) => url_with_pair(text@, key@, value@) == Some(s@),
            Err(_) => url_with_pair(text@, key@, value@) is None,
        },
{
    let mut u = url::Url::parse(text)?;
    u.query_pairs_mut().append_pair(key, value);
    Ok(u.to_string())
}

/// What `url::Url::parse` of `text` followed by `set_path(path)` gives, serialised; nothing when
/// `text` does not parse.
pub uninterp spec fn url_with_path(text: Seq<char>, path: Seq<char>) -> Option<Seq<char>>;

/// `url::Url::parse`, then `set_path`, serialised. The contract ties the text, or the failure,
/// to the name `url_with_path`, and says that it fails exactly when the parse does (`set_path`
/// itself cannot fail); which `ParseError` a failure carries is not stated.
#[verifier::external_body]
pub(crate) fn set_url_path(text: &str, path: &str) -> (r: Result<String, url::ParseError>)
    ensures
        match r {
            Ok(s) => url_with_path(text@, path@) == Some(s@),
            Err(_) => url_with_path(text@, path@) is None,
        },
        r is Ok <==> url_parsed(text@) is Some,
{
    let mut u = url::Url::parse(text)?;
    u.set_path(path);
    Ok(u.to_string())
}

} // verus!
