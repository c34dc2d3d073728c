use vstd::prelude::*;
use crate::config::ProxyTimeout;
use crate::error::ProxyError;
use crate::race::{begun, exhausted_response, Race};
use crate::request::{
    copy_attributes, inherits, own_response, validate, validation, AllowedMethod, BackendRequest,
    InboundRequest, Validation, ValidationView,
};
use crate::response::{
    bad_body_response, favicon_response, homepage_response, SyntheticResponse,
};
use crate::uri::{joins, optional_text, rewrite_uri, rewritten, UriParts, UriText};

verus! {

/// The proxy: the backends it asks, in their configured order, and the time
/// it gives each backend call.
#[derive(Debug)]
pub struct Application {
    repositories: Vec<UriParts>,
    proxy_timeout: ProxyTimeout,
}

/// The mathematical value of an [`Application`].
pub struct ApplicationView {
    pub repositories: Seq<UriText>,
    pub proxy_timeout: ProxyTimeout,
}

impl View for Application {
    type V = ApplicationView;

    closed spec fn view(&self) -> ApplicationView {
        ApplicationView {
            repositories: self.repositories@.map_values(|uri: UriParts| uri@),
            proxy_timeout: self.proxy_timeout,
        }
    }
}

/// What the dispatch of one request has prepared: for each backend, in the
/// configured order, the request to send or the reason why none could be
/// made, and the race over the requests that are sent.
#[derive(Debug)]
pub struct Dispatch {
    pub slots: Vec<Result<BackendRequest, ProxyError>>,
    pub race: Race,
    /// The response to send at once, where no request is sent at all.
    pub immediate: Option<SyntheticResponse>,
}

/// What becomes of an inbound request.
#[derive(Debug)]
pub enum Handling {
    /// The proxy answers by itself.
    Respond(SyntheticResponse),
    /// The backends are asked.
    Dispatch(Dispatch),
}

/// Whether a slot is what dispatching to one backend yields: the request
/// with the rewritten URI and the inbound request's attributes, or the
/// error of a URI that could not be assembled. The URI of the request has
/// the backend's scheme and authority, and its path is the backend's own
/// path-and-query followed by the artifact path.
pub open spec fn slot_for(
    slot: Result<BackendRequest, ProxyError>,
    backend: UriText,
    parts: InboundRequest,
    gav: Seq<char>,
) -> bool {
    match rewritten(backend, gav) {
        Some(uri) => slot matches Ok(request) && request.uri@ == uri && joins(
            backend,
            gav,
            request.uri@,
        ) && inherits(request, parts),
        None => slot matches Err(ProxyError::HyperHttp(_)),
    }
}

/// Fills the slot of one backend from what rewriting the artifact path
/// against it gave: the request to send, which has the rewritten URI and
/// the inbound request's attributes, or the error of the rewriting.
pub fn dispatch_slot(parts: &InboundRequest, backend_uri: Result<UriParts, ProxyError>) -> (slot:
    Result<BackendRequest, ProxyError>)
    ensures
        match backend_uri {
            Ok(uri) => slot matches Ok(request) && request.uri == uri && inherits(request, *parts),
            Err(error) => slot == Err::<BackendRequest, ProxyError>(error),
        },
{
    match backend_uri {
        Ok(uri) => Ok(copy_attributes(parts, uri)),
        Err(error) => Err(error),
    }
}

/// The number of slots that hold a request to send.
pub open spec fn launched(slots: Seq<Result<BackendRequest, ProxyError>>) -> nat
    decreases slots.len(),
{
    if slots.len() == 0 {
        0
    } else {
        launched(slots.drop_last()) + if slots.last() is Ok {
            1nat
        } else {
            0nat
        }
    }
}

/// Whether a dispatch is the one that the given backends, inbound request
/// and artifact path call for.
pub open spec fn dispatched(
    dispatch: Dispatch,
    repositories: Seq<UriText>,
    parts: InboundRequest,
    gav: Seq<char>,
) -> bool {
    &&& dispatch.slots@.len() == repositories.len()
    &&& forall|i: int|
        0 <= i < repositories.len() ==> slot_for(
            #[trigger] dispatch.slots@[i],
            repositories[i],
            parts,
            gav,
        )
    &&& launched(dispatch.slots@) <= usize::MAX
    &&& dispatch.race == begun(parts.version, launched(dispatch.slots@) as usize)
    &&& match dispatch.immediate {
        Some(response) => launched(dispatch.slots@) == 0 && response@ == exhausted_response(
            parts.version,
        ),
        None => launched(dispatch.slots@) > 0,
    }
}

/// No more slots hold a request than there are slots.
pub proof fn lemma_launched_bound(slots: Seq<Result<BackendRequest, ProxyError>>)
    ensures
        launched(slots) <= slots.len(),
    decreases slots.len(),
{
    if slots.len() > 0 {
        lemma_launched_bound(slots.drop_last());
    }
}

/// Without backends nothing is sent: the dispatch holds no request, the
/// race is exhausted from the start, and the 404 of an exhausted race is
/// ready to go out.
pub proof fn law_no_backends_is_not_found(
    dispatch: Dispatch,
    repositories: Seq<UriText>,
    parts: InboundRequest,
    gav: Seq<char>,
)
    requires
        dispatched(dispatch, repositories, parts, gav),
        repositories.len() == 0,
    ensures
        dispatch.slots@.len() == 0,
        dispatch.race.phase is Exhausted,
        dispatch.immediate matches Some(response) && response@ == exhausted_response(parts.version),
{
}

/// A request is sent to a backend exactly where the artifact path could be
/// rewritten against it; it goes to the backend's own scheme and authority,
/// for the backend's path-and-query followed by the artifact path; and the
/// race waits for as many outcomes as requests are sent.
pub proof fn law_one_request_per_backend(
    dispatch: Dispatch,
    repositories: Seq<UriText>,
    parts: InboundRequest,
    gav: Seq<char>,
)
    requires
        dispatched(dispatch, repositories, parts, gav),
    ensures
        dispatch.slots@.len() == repositories.len(),
        forall|i: int|
            0 <= i < repositories.len() ==> ((#[trigger] dispatch.slots@[i]) is Ok <==> rewritten(
                repositories[i],
                gav,
            ) is Some),
        forall|i: int|
            0 <= i < repositories.len() ==> ((#[trigger] dispatch.slots@[i]) matches Ok(request)
                ==> joins(repositories[i], gav, request.uri@) && inherits(request, parts)),
        dispatch.race.pending == launched(dispatch.slots@) <= repositories.len(),
        dispatch.race.wf(),
{
    lemma_launched_bound(dispatch.slots@);
    assert forall|i: int| 0 <= i < repositories.len() implies ((#[trigger] dispatch.slots@[i]) is Ok
        <==> rewritten(repositories[i], gav) is Some) by {
        assert(slot_for(dispatch.slots@[i], repositories[i], parts, gav));
    }
    assert forall|i: int| 0 <= i < repositories.len() implies ((#[trigger] dispatch.slots@[i])
        matches Ok(request) ==> joins(repositories[i], gav, request.uri@) && inherits(
        request,
        parts,
    )) by {
        assert(slot_for(dispatch.slots@[i], repositories[i], parts, gav));
    }
}

impl Application {
    /// A proxy in front of the given backends.
    pub fn new(repositories: Vec<UriParts>, proxy_timeout: ProxyTimeout) -> (application: Self)
        ensures
            application@.repositories == repositories@.map_values(|uri: UriParts| uri@),
            application@.proxy_timeout == proxy_timeout,
    {
        Application { repositories, proxy_timeout }
    }

    /// The time that each backend call is given.
    pub fn proxy_timeout(&self) -> (timeout: ProxyTimeout)
        ensures
            timeout == self@.proxy_timeout,
    {
        self.proxy_timeout
    }

    /// The number of backends.
    pub fn backend_count(&self) -> (count: usize)
        ensures
            count == self@.repositories.len(),
    {
        self.repositories.len()
    }

    /// Decides what becomes of an inbound request: a response of the
    /// proxy's own for a method that is not allowed, for the proxy's own
    /// paths and for a request with a body, and a dispatch to the backends
    /// for every other request.
    pub fn handle_request(&self, request: &InboundRequest) -> (handling: Handling)
        ensures
            match validation(
                request.method@,
                optional_text(request.path_and_query),
                request.body_present,
            ) {
                ValidationView::Proceed(gav) => handling matches Handling::Dispatch(dispatch)
                    && dispatched(dispatch, self@.repositories, *request, gav),
                decision => handling matches Handling::Respond(response) && Some(response@)
                    == own_response(request.version, decision),
            },
    {
        let version = request.version;
        let decision = validate(
            request.method.as_str(),
            &request.path_and_query,
            request.body_present,
        );
        match decision {
            Validation::BadMethod => Handling::Respond(AllowedMethod::respond_with_405(version)),
            Validation::Home => Handling::Respond(homepage_response(version)),
            Validation::NotFoundStatic => Handling::Respond(favicon_response(version)),
            Validation::BadBody => Handling::Respond(bad_body_response(version)),
            Validation::Proceed(gav) => Handling::Dispatch(
                self.contact_proxies(request, gav.as_str()),
            ),
        }
    }

    /// Prepares the race for an artifact: one request for each backend, in
    /// the configured order, each with the artifact path rewritten against
    /// that backend. A backend whose URI cannot be assembled gets no request
    /// and counts as failed; it does not hold up the others.
    pub fn contact_proxies(&self, parts: &InboundRequest, gav: &str) -> (dispatch: Dispatch)
        ensures
            dispatched(dispatch, self@.repositories, *parts, gav@),
    {
        let mut slots: Vec<Result<BackendRequest, ProxyError>> = Vec::new();
        let mut sent: usize = 0;
        let mut i: usize = 0;
        while i < self.repositories.len()
            invariant
                i <= self.repositories.len(),
                slots@.len() == i,
                sent == launched(slots@),
                sent <= i,
                forall|k: int|
                    0 <= k < i ==> slot_for(
                        #[trigger] slots@[k],
                        self.repositories@[k]@,
                        *parts,
                        gav@,
                    ),
            decreases self.repositories.len() - i,
        {
            let ghost before = slots@;
            let backend_uri = rewrite_uri(&self.repositories[i], gav);
            let slot = dispatch_slot(parts, backend_uri);
            if slot.is_ok() {
                sent = sent + 1;
            }
            slots.push(slot);
            proof {
                assert(slots@.drop_last() =~= before);
            }
            i += 1;
        }
        let (race, immediate) = Race::begin(parts.version, sent);
        Dispatch { slots, race, immediate }
    }
}

} // verus!
