use vstd::prelude::*;

verus! {

/// `hyper::Error`: the error of a backend call. Nothing is read of it.
#[verifier::external_type_specification]
#[verifier::external_body]
pub struct ExHyperError(hyper::Error);

/// `hyper::http::Error`: the error of a URI or a request that could not be
/// assembled. Nothing is read of it.
#[verifier::external_type_specification]
#[verifier::external_body]
pub struct ExHttpError(hyper::http::Error);

/// `tokio::time::error::Elapsed`: the error of a timer that ran out.
/// Nothing is read of it.
#[verifier::external_type_specification]
#[verifier::external_body]
pub struct ExElapsed(tokio::time::error::Elapsed);

/// Why one backend could not be asked or did not answer.
#[derive(Debug)]
pub enum ProxyError {
    /// The transport failed while the backend was contacted.
    Hyper(hyper::Error),
    /// The request for the backend could not be assembled.
    HyperHttp(hyper::http::Error),
    /// The backend did not answer within the configured time.
    Timeout(tokio::time::error::Elapsed),
}

impl From<hyper::Error> for ProxyError {
    fn from(e: hyper::Error) -> (error: Self)
    {
        ProxyError::Hyper(e)
    }
}

impl vstd::std_specs::convert::FromSpecImpl<hyper::Error> for ProxyError {
    open spec fn obeys_from_spec() -> bool {
        true
    }

    open spec fn from_spec(e: hyper::Error) -> Self {
        ProxyError::Hyper(e)
    }
}

impl From<hyper::http::Error> for ProxyError {
    fn from(e: hyper::http::Error) -> (error: Self)
    {
        ProxyError::HyperHttp(e)
    }
}

impl vstd::std_specs::convert::FromSpecImpl<hyper::http::Error> for ProxyError {
    open spec fn obeys_from_spec() -> bool {
        true
    }

    open spec fn from_spec(e: hyper::http::Error) -> Self {
        ProxyError::HyperHttp(e)
    }
}

impl From<tokio::time::error::Elapsed> for ProxyError {
    fn from(e: tokio::time::error::Elapsed) -> (error: Self)
    {
        ProxyError::Timeout(e)
    }
}

impl vstd::std_specs::convert::FromSpecImpl<tokio::time::error::Elapsed> for ProxyError {
    open spec fn obeys_from_spec() -> bool {
        true
    }

    open spec fn from_spec(e: tokio::time::error::Elapsed) -> Self {
        ProxyError::Timeout(e)
    }
}

} // verus!
