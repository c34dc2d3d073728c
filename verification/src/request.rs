use vstd::prelude::*;
use vstd::string::StringExecFns;
use crate::response::{
    bad_body_text, homepage_text, plain_response, Header, SyntheticResponse, SyntheticResponseView,
};
use crate::text::same_text;
use crate::uri::UriParts;

verus! {

/// `hyper::HeaderMap`: the header set of a request. It is handed on as it
/// is; what it holds is [`header_entries`].
#[verifier::external_type_specification]
#[verifier::external_body]
#[verifier::reject_recursive_types(T)]
pub struct ExHeaderMap<T>(hyper::HeaderMap<T>);

/// `hyper::header::HeaderValue`: the value of one header line.
#[verifier::external_type_specification]
#[verifier::external_body]
pub struct ExHeaderValue(hyper::header::HeaderValue);

/// The header lines that a `hyper::HeaderMap` holds, in the order in which
/// its `iter` yields them: each name with the bytes of one of its values.
pub uninterp spec fn header_entries(headers: hyper::HeaderMap<hyper::header::HeaderValue>) -> Seq<
    (Seq<char>, Seq<u8>),
>;

/// Copies a header set with `hyper::HeaderMap::clone`.
///
/// Trusted: the copy holds the same header lines in the same order.
#[verifier::external_body]
fn clone_headers(headers: &hyper::HeaderMap<hyper::header::HeaderValue>) -> (copy: hyper::HeaderMap<
    hyper::header::HeaderValue,
>)
    ensures
        header_entries(copy) == header_entries(*headers),
{
    headers.clone()
}

/// The request methods that the proxy forwards to its backends.
#[derive(Debug, Copy, Clone, PartialEq, Eq, Structural)]
pub enum AllowedMethod {
    GET,
    HEAD,
}

/// The allowed method that a method token names, if it names one.
pub open spec fn allowed_method(method: Seq<char>) -> Option<AllowedMethod> {
    if method == "GET"@ {
        Some(AllowedMethod::GET)
    } else if method == "HEAD"@ {
        Some(AllowedMethod::HEAD)
    } else {
        None
    }
}

/// The response to a request whose method is not allowed: status 405, an
/// `Allow` header that lists the allowed methods, and a text that names
/// them.
pub open spec fn bad_method_response(version: hyper::Version) -> SyntheticResponseView {
    SyntheticResponseView {
        version,
        status: 405,
        headers: seq![("Allow"@, "GET, HEAD"@)],
        body: "Only GET, HEAD requests are allowed to rust-maven-proxy."@,
    }
}

/// The tokens of a list of methods, separated by a comma and a space.
spec fn joined_tokens(methods: Seq<AllowedMethod>) -> Seq<char>
    decreases methods.len(),
{
    if methods.len() == 0 {
        Seq::empty()
    } else if methods.len() == 1 {
        methods[0].token()
    } else {
        joined_tokens(methods.drop_last()) + ", "@ + methods.last().token()
    }
}

/// Every allowed method, in the order in which responses list them.
fn all_allowed() -> (methods: Vec<AllowedMethod>)
    ensures
        methods@ == seq![AllowedMethod::GET, AllowedMethod::HEAD],
{
    let mut methods = Vec::new();
    methods.push(AllowedMethod::GET);
    methods.push(AllowedMethod::HEAD);
    methods
}

impl AllowedMethod {
    /// The method's token as it stands on the request line.
    pub open spec fn token(self) -> Seq<char> {
        match self {
            AllowedMethod::GET => "GET"@,
            AllowedMethod::HEAD => "HEAD"@,
        }
    }

    /// The allowed method that a request's method is, or `None` for any
    /// other method. Tokens are compared as they are written.
    pub fn find_from(method: &str) -> (found: Option<AllowedMethod>)
        ensures
            found == allowed_method(method@),
    {
        if same_text(method, "GET") {
            Some(AllowedMethod::GET)
        } else if same_text(method, "HEAD") {
            Some(AllowedMethod::HEAD)
        } else {
            None
        }
    }

    /// The method's token.
    pub fn value(&self) -> (text: String)
        ensures
            text@ == self.token(),
    {
        match self {
            AllowedMethod::GET => String::from_str("GET"),
            AllowedMethod::HEAD => String::from_str("HEAD"),
        }
    }

    /// The response to a request whose method is not allowed.
    pub fn respond_with_405(version: hyper::Version) -> (response: SyntheticResponse)
        ensures
            response@ == bad_method_response(version),
    {
        let allowed = all_allowed();
        let mut display = String::new();
        let mut i: usize = 0;
        while i < allowed.len()
            invariant
                i <= allowed.len(),
                display@ == joined_tokens(allowed@.take(i as int)),
            decreases allowed.len() - i,
        {
            let token = allowed[i].value();
            if i > 0 {
                display.append(", ");
            }
            display.append(token.as_str());
            proof {
                let before = allowed@.take(i as int);
                let after = allowed@.take(i + 1);
                assert(after.drop_last() =~= before);
                assert(after.last() == allowed@[i as int]);
                if i == 0 {
                    assert(display@ =~= allowed@[0].token());
                }
            }
            i += 1;
        }
        let message = String::from_str("Only ").concat(display.as_str()).concat(
            " requests are allowed to rust-maven-proxy.",
        );
        let mut headers: Vec<Header> = Vec::new();
        headers.push(Header { name: String::from_str("Allow"), value: display });
        let response = SyntheticResponse { version, status: 405, headers, body: message };
        proof {
            reveal_strlit("GET");
            reveal_strlit("HEAD");
            reveal_strlit(", ");
            reveal_strlit("GET, HEAD");
            reveal_strlit("Only ");
            reveal_strlit(" requests are allowed to rust-maven-proxy.");
            reveal_strlit("Only GET, HEAD requests are allowed to rust-maven-proxy.");
            assert(allowed@.take(2) =~= allowed@);
            assert(allowed@.drop_last() =~= seq![AllowedMethod::GET]);
            assert(joined_tokens(seq![AllowedMethod::GET]) == "GET"@);
            assert(display@ =~= "GET, HEAD"@);
            assert(response@.body =~= bad_method_response(version).body);
            assert(response@.headers =~= bad_method_response(version).headers);
        }
        response
    }
}

/// What the proxy reads of a request that reached it.
#[derive(Debug)]
pub struct InboundRequest {
    /// The method token, as the client wrote it.
    pub method: String,
    pub version: hyper::Version,
    /// The path and query of the request target, if it has one.
    pub path_and_query: Option<String>,
    pub headers: hyper::HeaderMap<hyper::header::HeaderValue>,
    /// Whether the request carries a body that is not empty.
    pub body_present: bool,
}

/// The request that goes to one backend. It never has a body.
#[derive(Debug)]
pub struct BackendRequest {
    pub method: String,
    pub version: hyper::Version,
    pub headers: hyper::HeaderMap<hyper::header::HeaderValue>,
    pub uri: UriParts,
}

/// Whether a backend request has the method, the version and the header
/// lines of the inbound request.
pub open spec fn inherits(request: BackendRequest, parts: InboundRequest) -> bool {
    &&& request.method@ == parts.method@
    &&& request.version == parts.version
    &&& header_entries(request.headers) == header_entries(parts.headers)
}

/// Makes the request for one backend: method, version and headers are those
/// of the inbound request, the target is the given URI.
pub fn copy_attributes(parts: &InboundRequest, uri: UriParts) -> (request: BackendRequest)
    ensures
        inherits(request, *parts),
        request.uri == uri,
{
    BackendRequest {
        method: parts.method.clone(),
        version: parts.version,
        headers: clone_headers(&parts.headers),
        uri,
    }
}

/// What is to be done with an inbound request, decided from its method, its
/// path and whether it has a body.
#[derive(Debug, Clone, PartialEq, Eq)]
pub enum Validation {
    /// The proxy's own root: the information page, status 200.
    Home,
    /// A reserved path that is never proxied: status 404, no body.
    NotFoundStatic,
    /// The method is not allowed: status 405.
    BadMethod,
    /// The method is allowed but the request has a body: status 400.
    BadBody,
    /// A request for an artifact, with the artifact's path.
    Proceed(String),
}

/// The mathematical value of a [`Validation`].
pub enum ValidationView {
    Home,
    NotFoundStatic,
    BadMethod,
    BadBody,
    Proceed(Seq<char>),
}

impl View for Validation {
    type V = ValidationView;

    open spec fn view(&self) -> ValidationView {
        match self {
            Validation::Home => ValidationView::Home,
            Validation::NotFoundStatic => ValidationView::NotFoundStatic,
            Validation::BadMethod => ValidationView::BadMethod,
            Validation::BadBody => ValidationView::BadBody,
            Validation::Proceed(path) => ValidationView::Proceed(path@),
        }
    }
}

/// The decision on an inbound request. The method is looked at first, then
/// the path, and the body only where neither has settled the matter.
pub open spec fn validation(
    method: Seq<char>,
    path_and_query: Option<Seq<char>>,
    body_present: bool,
) -> ValidationView {
    if allowed_method(method) is None {
        ValidationView::BadMethod
    } else {
        match path_and_query {
            None => ValidationView::Home,
            Some(path) => if path == "/"@ {
                ValidationView::Home
            } else if path == "/favicon.ico"@ {
                ValidationView::NotFoundStatic
            } else if body_present {
                ValidationView::BadBody
            } else {
                ValidationView::Proceed(path)
            },
        }
    }
}

/// The response that the proxy gives by itself once the decision on a
/// request is made; `None` where the backends are to be asked.
pub open spec fn own_response(version: hyper::Version, decision: ValidationView) -> Option<
    SyntheticResponseView,
> {
    match decision {
        ValidationView::BadMethod => Some(bad_method_response(version)),
        ValidationView::Home => Some(plain_response(version, 200, homepage_text())),
        ValidationView::NotFoundStatic => Some(plain_response(version, 404, Seq::empty())),
        ValidationView::BadBody => Some(plain_response(version, 400, bad_body_text())),
        ValidationView::Proceed(_) => None,
    }
}

/// A request with any method but GET and HEAD is answered with status 405
/// and with one `Allow` header, which lists GET and HEAD and nothing else,
/// whatever its path and whether or not it has a body.
pub proof fn law_other_methods_get_405(
    version: hyper::Version,
    method: Seq<char>,
    path_and_query: Option<Seq<char>>,
    body_present: bool,
)
    requires
        method != "GET"@,
        method != "HEAD"@,
    ensures
        own_response(version, validation(method, path_and_query, body_present)) matches Some(
            response,
        ) && response.status == 405 && response.version == version && response.headers
            == seq![("Allow"@, "GET, HEAD"@)],
{
}

/// A request with an allowed method and a body, for a path that is not one
/// of the proxy's own, is answered with status 400.
pub proof fn law_body_gets_400(
    version: hyper::Version,
    method: Seq<char>,
    path: Seq<char>,
)
    requires
        method == "GET"@ || method == "HEAD"@,
        path != "/"@,
        path != "/favicon.ico"@,
    ensures
        own_response(version, validation(method, Some(path), true)) matches Some(response)
            && response.status == 400 && response.version == version,
{
}

/// Decides what is to be done with an inbound request.
pub fn validate(method: &str, path_and_query: &Option<String>, body_present: bool) -> (decision:
    Validation)
    ensures
        decision@ == validation(method@, crate::uri::optional_text(*path_and_query), body_present),
{
    if AllowedMethod::find_from(method).is_none() {
        return Validation::BadMethod;
    }
    match path_and_query {
        None => Validation::Home,
        Some(path) => {
            if same_text(path.as_str(), "/") {
                Validation::Home
            } else if same_text(path.as_str(), "/favicon.ico") {
                Validation::NotFoundStatic
            } else if body_present {
                Validation::BadBody
            } else {
                Validation::Proceed(path.clone())
            }
        },
    }
}

} // verus!
