use hyper::Version;
use rust_maven_proxy::outcome::{BackendOutcome, BackendReply, Failure};
use rust_maven_proxy::race::{resolve, Race, RaceAction, RacePhase};
use rust_maven_proxy::response::{ClientResponse, SyntheticResponse};

const NOT_FOUND: &str = "No such artifact found in any of the proxy locations";

fn accepted(status: u16, payload: &str) -> BackendOutcome<String> {
    BackendOutcome::Accepted(BackendReply { status, payload: payload.to_string() })
}

fn failed(status: u16) -> BackendOutcome<String> {
    BackendOutcome::Failed(Failure::BadStatus(status))
}

fn not_found(version: Version) -> SyntheticResponse {
    SyntheticResponse { version, status: 404, headers: vec![], body: NOT_FOUND.to_string() }
}

fn assert_passes(response: ClientResponse<String>, status: u16, payload: &str) {
    match response {
        ClientResponse::PassThrough(reply) => {
            assert_eq!(reply.status, status);
            assert_eq!(reply.payload, payload);
        }
        other => panic!("expected a pass-through, got {:?}", other),
    }
}

fn assert_not_found(response: ClientResponse<String>, version: Version) {
    match response {
        ClientResponse::Synthetic(response) => assert_eq!(response, not_found(version)),
        other => panic!("expected the 404, got {:?}", other),
    }
}

#[test]
fn begin_without_calls_is_exhausted_at_once() {
    let (race, immediate) = Race::begin(Version::HTTP_11, 0);
    assert_eq!(race, Race { version: Version::HTTP_11, phase: RacePhase::Exhausted, pending: 0 });
    assert_eq!(immediate, Some(not_found(Version::HTTP_11)));
    assert!(!race.is_racing());
}

#[test]
fn begin_with_calls_is_racing() {
    let (race, immediate) = Race::begin(Version::HTTP_2, 3);
    assert_eq!(race, Race { version: Version::HTTP_2, phase: RacePhase::Racing, pending: 3 });
    assert_eq!(immediate, None);
    assert!(race.is_racing());
}

#[test]
fn first_acceptance_is_answered_at_once_and_the_rest_is_drained() {
    let (race, _) = Race::begin(Version::HTTP_11, 4);
    let (race, action) = race.observe(failed(500));
    assert!(matches!(action, RaceAction::Await));
    assert_eq!(race.pending, 3);
    let (race, action) = race.observe(accepted(200, "the artifact"));
    match action {
        RaceAction::Respond(response) => assert_passes(response, 200, "the artifact"),
        other => panic!("expected a response, got {:?}", other),
    }
    assert_eq!(race, Race { version: Version::HTTP_11, phase: RacePhase::WinnerFound, pending: 2 });
    let (race, action) = race.observe(accepted(200, "a slower copy"));
    assert!(matches!(action, RaceAction::Discard));
    assert_eq!(race.pending, 1);
    let (race, action) = race.observe(BackendOutcome::<String>::Rejected);
    assert!(matches!(action, RaceAction::Discard));
    assert_eq!(race, Race { version: Version::HTTP_11, phase: RacePhase::WinnerFound, pending: 0 });
    let (race, action) = race.observe(failed(502));
    assert!(matches!(action, RaceAction::Discard));
    assert_eq!(race.pending, 0);
}

#[test]
fn last_rejection_is_answered_with_the_404() {
    let (race, _) = Race::begin(Version::HTTP_10, 2);
    let (race, action) = race.observe(BackendOutcome::<String>::Rejected);
    assert!(matches!(action, RaceAction::Await));
    let (race, action) = race.observe(failed(503));
    match action {
        RaceAction::Respond(response) => assert_not_found(response, Version::HTTP_10),
        other => panic!("expected a response, got {:?}", other),
    }
    assert_eq!(race, Race { version: Version::HTTP_10, phase: RacePhase::Exhausted, pending: 0 });
    let (_, action) = race.observe(accepted(200, "too late"));
    assert!(matches!(action, RaceAction::Discard));
}

#[test]
fn resolve_of_nothing_is_the_404() {
    assert_not_found(resolve(Version::HTTP_11, Vec::<BackendOutcome<String>>::new()), Version::HTTP_11);
}

#[test]
fn resolve_passes_the_only_acceptance_through() {
    assert_passes(resolve(Version::HTTP_11, vec![accepted(200, "pom")]), 200, "pom");
    assert_passes(resolve(Version::HTTP_11, vec![accepted(304, "")]), 304, "");
}

#[test]
fn resolve_takes_the_first_acceptance_in_order_of_arrival() {
    let outcomes = vec![
        BackendOutcome::Rejected,
        failed(500),
        accepted(304, "second mirror"),
        accepted(200, "third mirror"),
        BackendOutcome::Rejected,
    ];
    assert_passes(resolve(Version::HTTP_2, outcomes), 304, "second mirror");
    let other_order = vec![
        accepted(200, "third mirror"),
        BackendOutcome::Rejected,
        accepted(304, "second mirror"),
    ];
    assert_passes(resolve(Version::HTTP_2, other_order), 200, "third mirror");
}

#[test]
fn resolve_of_rejections_is_the_404_in_any_order() {
    let version = Version::HTTP_11;
    assert_not_found(resolve(version, vec![BackendOutcome::<String>::Rejected]), version);
    assert_not_found(
        resolve(version, vec![BackendOutcome::Rejected, failed(500), BackendOutcome::Rejected]),
        version,
    );
    assert_not_found(
        resolve(version, vec![failed(500), BackendOutcome::Rejected, BackendOutcome::Rejected]),
        version,
    );
}

#[test]
fn one_acceptance_among_failures_wins_wherever_it_arrives() {
    for at in 0..4 {
        let mut outcomes = vec![failed(500), failed(502), BackendOutcome::Rejected];
        outcomes.insert(at, accepted(200, "winner"));
        let (mut race, _) = Race::begin(Version::HTTP_11, outcomes.len());
        let mut responses = Vec::new();
        for (i, outcome) in outcomes.into_iter().enumerate() {
            let (next, action) = race.observe(outcome);
            race = next;
            match action {
                RaceAction::Respond(response) => responses.push((i, response)),
                RaceAction::Await => assert!(i < at),
                RaceAction::Discard => assert!(i > at),
            }
        }
        assert_eq!(responses.len(), 1);
        let (i, response) = responses.pop().unwrap();
        assert_eq!(i, at);
        assert_passes(response, 200, "winner");
        assert_eq!(race, Race { version: Version::HTTP_11, phase: RacePhase::WinnerFound, pending: 0 });
    }
}
