use vstd::prelude::*;
use crate::error::ProxyError;

verus! {

/// What came back from one backend: its status code and the response itself.
#[derive(Debug)]
pub struct BackendReply<R> {
    pub status: u16,
    pub payload: R,
}

/// Why a backend's outcome counts as failed.
#[derive(Debug)]
pub enum Failure {
    /// The backend was not reached, did not answer in time, or its request
    /// could not be assembled.
    Error(ProxyError),
    /// The backend answered with a status other than 200, 304 and 404.
    BadStatus(u16),
}

/// The verdict on one backend for one request.
#[derive(Debug)]
pub enum BackendOutcome<R> {
    /// The backend has the artifact: its reply goes to the client.
    Accepted(BackendReply<R>),
    /// The backend does not have the artifact.
    Rejected,
    /// The backend could not be asked or answered something else.
    Failed(Failure),
}

/// What a backend call under a timer comes to: the timer ran out, the
/// transport failed, or a reply came.
pub type TimedResult<R> = Result<Result<BackendReply<R>, hyper::Error>, tokio::time::error::Elapsed>;

/// Whether a status code is one with which a backend accepts: 200 or 304.
pub open spec fn accepting_status(status: u16) -> bool {
    status == 200 || status == 304
}

/// Whether a status code says that the backend lacks the artifact: 404.
pub open spec fn rejecting_status(status: u16) -> bool {
    status == 404
}

/// The verdict on a reply by its status code alone.
pub open spec fn reply_verdict<R>(reply: BackendReply<R>) -> BackendOutcome<R> {
    if accepting_status(reply.status) {
        BackendOutcome::Accepted(reply)
    } else if rejecting_status(reply.status) {
        BackendOutcome::Rejected
    } else {
        BackendOutcome::Failed(Failure::BadStatus(reply.status))
    }
}

/// The verdict on what a timed backend call came to.
pub open spec fn classification<R>(result: TimedResult<R>) -> BackendOutcome<R> {
    match result {
        Err(elapsed) => BackendOutcome::Failed(Failure::Error(ProxyError::Timeout(elapsed))),
        Ok(Err(error)) => BackendOutcome::Failed(Failure::Error(ProxyError::Hyper(error))),
        Ok(Ok(reply)) => reply_verdict(reply),
    }
}

/// Turns a result into an option, dropping the error.
pub fn handle_errors<R, E>(result: Result<R, E>) -> (value: Option<R>) where E: std::fmt::Debug
    ensures
        value == match result {
            Ok(v) => Some(v),
            Err(_) => None::<R>,
        },
{
    match result {
        Err(_) => None,
        Ok(value) => Some(value),
    }
}

/// Classifies a reply by its status: 200 and 304 accept, 404 rejects, and
/// every other status is a failure that names the status. A backend that
/// answers with such a status is passed over like one that could not be
/// reached: the race goes on without it.
pub fn classify_reply<R>(reply: BackendReply<R>) -> (outcome: BackendOutcome<R>)
    ensures
        outcome == reply_verdict(reply),
{
    if reply.status == 200 || reply.status == 304 {
        BackendOutcome::Accepted(reply)
    } else if reply.status == 404 {
        BackendOutcome::Rejected
    } else {
        BackendOutcome::Failed(Failure::BadStatus(reply.status))
    }
}

/// Classifies what a timed backend call came to: a timeout and a transport
/// error are failures, and a reply is judged by its status.
pub fn classify<R>(result: TimedResult<R>) -> (outcome: BackendOutcome<R>)
    ensures
        outcome == classification(result),
{
    match result {
        Err(elapsed) => BackendOutcome::Failed(Failure::Error(ProxyError::Timeout(elapsed))),
        Ok(Err(error)) => BackendOutcome::Failed(Failure::Error(ProxyError::Hyper(error))),
        Ok(Ok(reply)) => classify_reply(reply),
    }
}

/// The outcome of a backend whose request could not be made ready for
/// sending: a failure with the error of the assembling. Nothing is sent to
/// such a backend.
pub fn unsent<R>(error: hyper::http::Error) -> (outcome: BackendOutcome<R>)
    ensures
        outcome == BackendOutcome::<R>::Failed(Failure::Error(ProxyError::HyperHttp(error))),
{
    BackendOutcome::Failed(Failure::Error(ProxyError::HyperHttp(error)))
}

/// The verdicts on a sequence of timed backend calls, one for one.
pub open spec fn classified<R>(results: Seq<TimedResult<R>>) -> Seq<BackendOutcome<R>> {
    results.map_values(|result: TimedResult<R>| classification(result))
}

/// A backend is accepted exactly when it replied with status 200 or 304,
/// and then the outcome carries that reply as it came; it is rejected
/// exactly when it replied with status 404; every other end of the call is
/// a failure.
pub proof fn law_classification<R>(result: TimedResult<R>)
    ensures
        classification(result) is Accepted <==> (result matches Ok(Ok(reply)) && accepting_status(
            reply.status,
        )),
        classification(result) matches BackendOutcome::Accepted(reply) ==> result == Ok::<
            Result<BackendReply<R>, hyper::Error>,
            tokio::time::error::Elapsed,
        >(Ok(reply)),
        classification(result) is Rejected <==> (result matches Ok(Ok(reply)) && reply.status
            == 404),
        classification(result) is Failed <==> !(result matches Ok(Ok(reply)) && (accepting_status(
            reply.status,
        ) || reply.status == 404)),
{
}

} // verus!
