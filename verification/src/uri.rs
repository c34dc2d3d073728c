use vstd::prelude::*;
use vstd::string::{StrSliceExecFns, StringExecFns};
use crate::error::ProxyError;
use crate::text::same_text;

verus! {

/// The three components of a URI that the proxy reads, each as text.
///
/// A component that the URI does not have is `None`. A URI that has been
/// read from text has a path-and-query only where something follows the
/// authority in that text; a URI that has been assembled for a request
/// always has one, which is `/` where the path asked for is empty.
#[derive(Debug, Clone, PartialEq, Eq)]
pub struct UriParts {
    pub scheme: Option<String>,
    pub authority: Option<String>,
    pub path_and_query: Option<String>,
}

/// The mathematical value of a [`UriParts`].
pub struct UriText {
    pub scheme: Option<Seq<char>>,
    pub authority: Option<Seq<char>>,
    pub path_and_query: Option<Seq<char>>,
}

/// The characters of an optional string.
pub open spec fn optional_text(text: Option<String>) -> Option<Seq<char>> {
    match text {
        Some(t) => Some(t@),
        None => None,
    }
}

impl View for UriParts {
    type V = UriText;

    open spec fn view(&self) -> UriText {
        UriText {
            scheme: optional_text(self.scheme),
            authority: optional_text(self.authority),
            path_and_query: optional_text(self.path_and_query),
        }
    }
}

/// The URI that `hyper::Uri::from_parts` builds from a scheme, an authority
/// and a path-and-query given as text, read back component by component;
/// `None` where one of the texts is refused or the combination is not a URI.
pub uninterp spec fn assembled_uri(
    scheme: Option<Seq<char>>,
    authority: Option<Seq<char>>,
    path_and_query: Seq<char>,
) -> Option<UriText>;

/// The components of the URI that `hyper::Uri::from_str` reads from a text;
/// `None` where the text is refused.
pub uninterp spec fn parsed_uri(text: Seq<char>) -> Option<UriText>;

/// A text up to its first `#`, and the whole text where it holds none.
pub open spec fn before_fragment(text: Seq<char>) -> Seq<char>
    decreases text.len(),
{
    if text.len() == 0 || text[0] == '#' {
        Seq::empty()
    } else {
        seq![text[0]] + before_fragment(text.skip(1))
    }
}

/// A text without its fragment, and `/` where nothing is left of it.
pub open spec fn path_as_read(text: Seq<char>) -> Seq<char> {
    if before_fragment(text).len() == 0 {
        "/"@
    } else {
        before_fragment(text)
    }
}

/// The path-and-query that an assembled URI has for a text without `#`:
/// the text itself, and `/` where the text is empty.
pub open spec fn whole_or_root(text: Seq<char>) -> Seq<char> {
    if text.len() == 0 {
        "/"@
    } else {
        text
    }
}

/// What an assembled URI keeps of the texts it was assembled from. The
/// scheme and the authority are as given and a path-and-query is present.
/// It is the given text, or `/` for the empty text, where the text holds no
/// `#`; and it is the text up to its first `#`, or `/` where nothing is left
/// of it, where the text is no longer than 65535 characters. Of a longer
/// text with a `#`, no more is said than that a path-and-query is present.
pub open spec fn keeps(
    scheme: Option<Seq<char>>,
    authority: Option<Seq<char>>,
    path_and_query: Seq<char>,
    uri: UriText,
) -> bool {
    &&& uri.scheme == scheme
    &&& uri.authority == authority
    &&& uri.path_and_query is Some
    &&& !path_and_query.contains('#') ==> uri.path_and_query == Some(whole_or_root(path_and_query))
    &&& path_and_query.len() <= u16::MAX ==> uri.path_and_query == Some(
        path_as_read(path_and_query),
    )
}

/// Assembles a URI with `hyper::Uri::from_parts`, each component converted
/// from text by the `TryFrom<&str>` of its type, and reads the components
/// back through `scheme_str`, `authority` and `path_and_query`.
///
/// Trusted: the outcome is [`assembled_uri`] of the arguments, and on
/// success it [`keeps`] them. The two statements on the path-and-query go
/// no further than `PathAndQuery` does: it looks for a `#` to cut the
/// fragment off, but it keeps the place of the first `?` in sixteen bits, and
/// where that place is 65535 it takes the text to have no query and leaves
/// the rest of it unread, a `#` included. A text without `#` comes back whole
/// at any length; a text of at most 65535 characters always has its fragment
/// cut off.
#[verifier::external_body]
fn build_uri(scheme: &Option<String>, authority: &Option<String>, path_and_query: &str) -> (res:
    Result<UriParts, hyper::http::Error>)
    ensures
        res is Ok <==> assembled_uri(
            optional_text(*scheme),
            optional_text(*authority),
            path_and_query@,
        ) is Some,
        res matches Ok(uri) ==> assembled_uri(
            optional_text(*scheme),
            optional_text(*authority),
            path_and_query@,
        ) == Some(uri@),
        res matches Ok(uri) ==> keeps(
            optional_text(*scheme),
            optional_text(*authority),
            path_and_query@,
            uri@,
        ),
{
    let mut parts = hyper::http::uri::Parts::default();
    parts.scheme = scheme.as_deref().map(hyper::http::uri::Scheme::try_from).transpose()?;
    parts.authority = authority.as_deref().map(hyper::http::uri::Authority::try_from).transpose()?;
    parts.path_and_query = Some(hyper::http::uri::PathAndQuery::try_from(path_and_query)?);
    let uri = hyper::Uri::from_parts(parts)?;
    Ok(UriParts {
        scheme: uri.scheme_str().map(str::to_owned),
        authority: uri.authority().map(|a| a.as_str().to_owned()),
        path_and_query: uri.path_and_query().map(|p| p.as_str().to_owned()),
    })
}

/// Reads a URI from text with `hyper::Uri::from_str` and takes its
/// components through `scheme_str`, `authority` and `path_and_query`.
///
/// Trusted: the outcome is [`parsed_uri`] of the text. Nothing is claimed
/// of the components; these accessors give `/` for an empty path, which
/// [`without_implied_path`] sets right on the text.
#[verifier::external_body]
fn parse_uri(text: &str) -> (res: Result<UriParts, hyper::http::Error>)
    ensures
        res is Ok <==> parsed_uri(text@) is Some,
        res matches Ok(uri) ==> parsed_uri(text@) == Some(uri@),
{
    let uri = text.parse::<hyper::Uri>()?;
    Ok(UriParts {
        scheme: uri.scheme_str().map(str::to_owned),
        authority: uri.authority().map(|a| a.as_str().to_owned()),
        path_and_query: uri.path_and_query().map(|p| p.as_str().to_owned()),
    })
}

/// The path-and-query asked of a backend: the backend's own path-and-query,
/// where it has one, followed character for character by the artifact path.
pub open spec fn combined_path(base: Option<Seq<char>>, gav: Seq<char>) -> Seq<char> {
    match base {
        Some(b) => b + gav,
        None => gav,
    }
}

/// What rewriting an artifact path against a backend yields: the assembled
/// URI, or `None` where the combination is no URI.
pub open spec fn rewritten(existing_uri: UriText, gav: Seq<char>) -> Option<UriText> {
    assembled_uri(
        existing_uri.scheme,
        existing_uri.authority,
        combined_path(existing_uri.path_and_query, gav),
    )
}

/// Whether nothing follows the authority in the text of a URI with the
/// given scheme and authority: behind the scheme, the three characters
/// `://` and the authority, the text ends or its fragment begins.
pub open spec fn path_absent(text: Seq<char>, scheme: Seq<char>, authority: Seq<char>) -> bool {
    let start = scheme.len() + 3 + authority.len();
    start >= text.len() || text[start as int] == '#'
}

/// The components of a URI as its text has them. The components as they
/// come from reading the text give `/` both for a path that is written as
/// `/` and for a path that is not written at all; where the text has a
/// scheme and an authority and nothing follows them, the URI has no
/// path-and-query.
pub open spec fn explicit_parts(text: Seq<char>, uri: UriText) -> UriText {
    if uri.scheme is Some && uri.authority is Some && uri.path_and_query == Some("/"@)
        && path_absent(text, uri.scheme->Some_0, uri.authority->Some_0) {
        UriText { scheme: uri.scheme, authority: uri.authority, path_and_query: None }
    } else {
        uri
    }
}

/// The components of the URI that a text stands for; `None` where the text
/// is no URI.
pub open spec fn read_uri(text: Seq<char>) -> Option<UriText> {
    match parsed_uri(text) {
        Some(uri) => Some(explicit_parts(text, uri)),
        None => None,
    }
}

/// Whether nothing follows the authority in the text of a URI.
fn nothing_follows(text: &str, scheme: &str, authority: &str) -> (absent: bool)
    ensures
        absent == path_absent(text@, scheme@, authority@),
{
    let length: usize = text.unicode_len();
    let scheme_length: usize = scheme.unicode_len();
    let authority_length: usize = authority.unicode_len();
    match scheme_length.checked_add(3) {
        None => true,
        Some(behind_scheme) => match behind_scheme.checked_add(authority_length) {
            None => true,
            Some(start) => start >= length || text.get_char(start) == '#',
        },
    }
}

/// Takes the path-and-query out of the components that were read from a
/// text where the text does not have one: a `/` that only stands for an
/// empty path is no part of the URI.
pub fn without_implied_path(text: &str, uri: UriParts) -> (parts: UriParts)
    ensures
        parts@ == explicit_parts(text@, uri@),
{
    let implied = match &uri.scheme {
        Some(scheme) => match &uri.authority {
            Some(authority) => match &uri.path_and_query {
                Some(path) => same_text(path.as_str(), "/") && nothing_follows(
                    text,
                    scheme.as_str(),
                    authority.as_str(),
                ),
                None => false,
            },
            None => false,
        },
        None => false,
    };
    if implied {
        UriParts { scheme: uri.scheme, authority: uri.authority, path_and_query: None }
    } else {
        uri
    }
}

/// A backend without a path-and-query adds nothing to the path: the URI
/// asked of it is assembled from its scheme, its authority and the artifact
/// path alone.
pub proof fn law_base_without_path_adds_nothing(existing_uri: UriText, gav: Seq<char>)
    requires
        existing_uri.path_and_query is None,
    ensures
        combined_path(existing_uri.path_and_query, gav) == gav,
        rewritten(existing_uri, gav) == assembled_uri(
            existing_uri.scheme,
            existing_uri.authority,
            gav,
        ),
{
}

impl UriParts {
    /// Reads the components of a URI from its text. A URI in whose text
    /// nothing follows the authority has no path-and-query.
    pub fn parse(text: &str) -> (res: Result<UriParts, ProxyError>)
        ensures
            match read_uri(text@) {
                Some(uri) => res matches Ok(parts) && parts@ == uri,
                None => res matches Err(ProxyError::HyperHttp(_)),
            },
    {
        match parse_uri(text) {
            Ok(parts) => Ok(without_implied_path(text, parts)),
            Err(e) => Err(ProxyError::HyperHttp(e)),
        }
    }
}

/// Whether a URI is a faithful rewriting of an artifact path against a
/// backend: it has the backend's scheme and authority, and its path is the
/// backend's own path-and-query followed by the artifact path, as far as
/// [`keeps`] says so of the joined text.
pub open spec fn joins(existing_uri: UriText, gav: Seq<char>, uri: UriText) -> bool {
    keeps(
        existing_uri.scheme,
        existing_uri.authority,
        combined_path(existing_uri.path_and_query, gav),
        uri,
    )
}

/// Combines a backend's base address with the artifact path of a request.
///
/// The backend's scheme and authority are kept as they are; the path is the
/// backend's own path-and-query, which adds nothing where the backend has
/// none, followed by the artifact path, and `/` where both are empty. A
/// fragment is no part of what is asked of a backend: it is cut off from
/// every joined text of at most 65535 characters. The result is an error
/// exactly when the combination is not a URI.
pub fn rewrite_uri(existing_uri: &UriParts, gav: &str) -> (res: Result<UriParts, ProxyError>)
    ensures
        match rewritten(existing_uri@, gav@) {
            Some(uri) => res matches Ok(parts) && parts@ == uri,
            None => res matches Err(ProxyError::HyperHttp(_)),
        },
        res matches Ok(parts) ==> joins(existing_uri@, gav@, parts@),
        res matches Ok(parts) ==> parts@.scheme == existing_uri@.scheme && parts@.authority
            == existing_uri@.authority,
        res matches Ok(parts) ==> ({
            let path = combined_path(existing_uri@.path_and_query, gav@);
            path.len() > 0 && !path.contains('#') ==> parts@.path_and_query == Some(path)
        }),
{
    let mut combined = String::new();
    if let Some(base_path) = &existing_uri.path_and_query {
        combined.append(base_path.as_str());
    }
    combined.append(gav);
    match build_uri(&existing_uri.scheme, &existing_uri.authority, combined.as_str()) {
        Ok(parts) => Ok(parts),
        Err(e) => Err(ProxyError::HyperHttp(e)),
    }
}

} // verus!
