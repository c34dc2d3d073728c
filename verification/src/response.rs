use vstd::prelude::*;
use vstd::string::StringExecFns;
use crate::outcome::BackendReply;

verus! {

/// `hyper::Version`: the HTTP version of a request or a response. It is
/// handed on as it is and nothing is read of it.
#[verifier::external_type_specification]
#[verifier::external_body]
pub struct ExVersion(hyper::Version);

/// The version string that the information page shows.
pub const PROGRAM_VERSION: &'static str = "0.1.0";

/// One header line of a response that the proxy writes itself.
#[derive(Debug, Clone, PartialEq, Eq)]
pub struct Header {
    pub name: String,
    pub value: String,
}

impl View for Header {
    type V = (Seq<char>, Seq<char>);

    open spec fn view(&self) -> (Seq<char>, Seq<char>) {
        (self.name@, self.value@)
    }
}

/// A response that the proxy writes itself, without any backend's help.
#[derive(Debug, PartialEq, Eq)]
pub struct SyntheticResponse {
    pub version: hyper::Version,
    pub status: u16,
    pub headers: Vec<Header>,
    pub body: String,
}

/// The mathematical value of a [`SyntheticResponse`].
pub struct SyntheticResponseView {
    pub version: hyper::Version,
    pub status: int,
    pub headers: Seq<(Seq<char>, Seq<char>)>,
    pub body: Seq<char>,
}

impl View for SyntheticResponse {
    type V = SyntheticResponseView;

    open spec fn view(&self) -> SyntheticResponseView {
        SyntheticResponseView {
            version: self.version,
            status: self.status as int,
            headers: self.headers@.map_values(|h: Header| h@),
            body: self.body@,
        }
    }
}

/// The one response that a client gets for its request.
#[derive(Debug)]
pub enum ClientResponse<R> {
    /// Written by the proxy itself.
    Synthetic(SyntheticResponse),
    /// The reply of the backend that won, handed on as it came.
    PassThrough(BackendReply<R>),
}

/// The mathematical value of a [`ClientResponse`].
pub enum ClientResponseView<R> {
    Synthetic(SyntheticResponseView),
    PassThrough(BackendReply<R>),
}

impl<R> View for ClientResponse<R> {
    type V = ClientResponseView<R>;

    open spec fn view(&self) -> ClientResponseView<R> {
        match self {
            ClientResponse::Synthetic(response) => ClientResponseView::Synthetic(response@),
            ClientResponse::PassThrough(reply) => ClientResponseView::PassThrough(*reply),
        }
    }
}

/// A response without headers.
pub open spec fn plain_response(version: hyper::Version, status: int, body: Seq<char>)
    -> SyntheticResponseView {
    SyntheticResponseView { version, status, headers: Seq::empty(), body }
}

/// The text of the information page.
pub open spec fn homepage_text() -> Seq<char> {
    "A maven repository proxy backed by rust-maven-proxy version "@ + PROGRAM_VERSION@
}

/// The text that answers a request with a body.
pub open spec fn bad_body_text() -> Seq<char> {
    "A request must have an empty body"@
}

/// The text that answers a request for an artifact that no backend has.
pub open spec fn not_found_text() -> Seq<char> {
    "No such artifact found in any of the proxy locations"@
}

fn plain(version: hyper::Version, status: u16, body: String) -> (response: SyntheticResponse)
    ensures
        response@ == plain_response(version, status as int, body@),
{
    let response = SyntheticResponse { version, status, headers: Vec::new(), body };
    assert(response@.headers =~= Seq::empty());
    response
}

/// The information page at the proxy's own root: status 200.
pub fn homepage_response(version: hyper::Version) -> (response: SyntheticResponse)
    ensures
        response@ == plain_response(version, 200, homepage_text()),
{
    let message = String::from_str("A maven repository proxy backed by rust-maven-proxy version ")
        .concat(PROGRAM_VERSION);
    plain(version, 200, message)
}

/// The answer to a request for the favicon: status 404 and no body.
pub fn favicon_response(version: hyper::Version) -> (response: SyntheticResponse)
    ensures
        response@ == plain_response(version, 404, Seq::empty()),
{
    plain(version, 404, String::new())
}

/// The answer to a request that carries a body: status 400.
pub fn bad_body_response(version: hyper::Version) -> (response: SyntheticResponse)
    ensures
        response@ == plain_response(version, 400, bad_body_text()),
{
    plain(version, 400, String::from_str("A request must have an empty body"))
}

/// The answer where no backend has the artifact: status 404.
pub fn not_found_response(version: hyper::Version) -> (response: SyntheticResponse)
    ensures
        response@ == plain_response(version, 404, not_found_text()),
{
    plain(version, 404, String::from_str("No such artifact found in any of the proxy locations"))
}

} // verus!
