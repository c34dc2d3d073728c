use vstd::prelude::*;
use crate::outcome::{
    accepting_status, classified, law_classification, BackendOutcome, TimedResult,
};
use crate::race::{
    exhausted_response, first_accepted, lemma_first_accepted, lemma_first_accepted_at,
    race_result, step, Race, RaceActionView, RacePhase,
};
use crate::response::ClientResponseView;

verus! {

/// The race after a sequence of outcomes, observed one after the other, and
/// what the caller was told after each of them.
pub open spec fn run<R>(race: Race, outcomes: Seq<BackendOutcome<R>>) -> (Race, Seq<RaceActionView<R>>)
    decreases outcomes.len(),
{
    if outcomes.len() == 0 {
        (race, Seq::empty())
    } else {
        let first = step(race, outcomes[0]);
        let rest = run(first.0, outcomes.skip(1));
        (rest.0, seq![first.1] + rest.1)
    }
}

/// A count of pending calls after `n` more outcomes.
pub open spec fn less_by(pending: usize, n: nat) -> usize {
    if pending >= n {
        (pending - n) as usize
    } else {
        0
    }
}

/// Each outcome is answered by one action.
pub proof fn lemma_run_len<R>(race: Race, outcomes: Seq<BackendOutcome<R>>)
    ensures
        run(race, outcomes).1.len() == outcomes.len(),
    decreases outcomes.len(),
{
    if outcomes.len() > 0 {
        lemma_run_len(step(race, outcomes[0]).0, outcomes.skip(1));
    }
}

/// Observing two sequences of outcomes one after the other is observing
/// their concatenation.
pub proof fn lemma_run_concat<R>(
    race: Race,
    earlier: Seq<BackendOutcome<R>>,
    later: Seq<BackendOutcome<R>>,
)
    ensures
        run(race, earlier + later).0 == run(run(race, earlier).0, later).0,
        run(race, earlier + later).1 == run(race, earlier).1 + run(run(race, earlier).0, later).1,
    decreases earlier.len(),
{
    if earlier.len() == 0 {
        assert(earlier + later =~= later);
        assert(run(race, earlier).1 + run(race, later).1 =~= run(race, later).1);
    } else {
        let all = earlier + later;
        let first = step(race, earlier[0]);
        assert(all[0] == earlier[0]);
        assert(all.skip(1) =~= earlier.skip(1) + later);
        lemma_run_concat(first.0, earlier.skip(1), later);
        let tail = run(first.0, earlier.skip(1));
        assert(seq![first.1] + (tail.1 + run(tail.0, later).1) =~= (seq![first.1] + tail.1) + run(
            tail.0,
            later,
        ).1);
    }
}

/// Once a response has gone out, no outcome brings another: each outcome
/// that arrives later is dropped, and changes nothing but the count of the
/// calls that are still out.
pub proof fn law_drain_never_responds<R>(race: Race, later: Seq<BackendOutcome<R>>)
    requires
        !(race.phase is Racing),
    ensures
        run(race, later).1.len() == later.len(),
        forall|j: int| 0 <= j < later.len() ==> #[trigger] run(race, later).1[j] is Discard,
        run(race, later).0 == (Race {
            version: race.version,
            phase: race.phase,
            pending: less_by(race.pending, later.len()),
        }),
    decreases later.len(),
{
    lemma_run_len(race, later);
    if later.len() > 0 {
        let first = step(race, later[0]);
        let rest = run(first.0, later.skip(1));
        law_drain_never_responds(first.0, later.skip(1));
        assert forall|j: int| 0 <= j < later.len() implies #[trigger] run(race, later).1[j] is Discard by {
            if j > 0 {
                assert(run(race, later).1[j] == rest.1[j - 1]);
            }
        }
    }
}

/// The winner is answered at once. While the race is on and at least as
/// many calls are out as outcomes have come in, the outcomes that do not
/// accept only make the caller wait, and the first accepted outcome is
/// answered with its own reply the moment it is observed: whatever the calls
/// that are still out come to has no part in it. Those calls are left
/// pending, to be drained.
pub proof fn law_winner_answers_at_once<R>(race: Race, seen: Seq<BackendOutcome<R>>)
    requires
        race.phase is Racing,
        0 < seen.len() <= race.pending,
        seen.last() is Accepted,
        forall|j: int| 0 <= j < seen.len() - 1 ==> !(#[trigger] seen[j] is Accepted),
    ensures
        run(race, seen).1.len() == seen.len(),
        forall|j: int| 0 <= j < seen.len() - 1 ==> #[trigger] run(race, seen).1[j] is Await,
        run(race, seen).1.last() == RaceActionView::Respond(
            ClientResponseView::PassThrough(seen.last()->Accepted_0),
        ),
        run(race, seen).0 == (Race {
            version: race.version,
            phase: RacePhase::WinnerFound,
            pending: (race.pending - seen.len()) as usize,
        }),
    decreases seen.len(),
{
    lemma_run_len(race, seen);
    let first = step(race, seen[0]);
    let rest = run(first.0, seen.skip(1));
    if seen.len() == 1 {
        assert(seen.skip(1).len() == 0);
        assert(run(race, seen).1 =~= seq![first.1]);
    } else {
        assert(!(seen[0] is Accepted));
        let tail = seen.skip(1);
        assert(tail.last() == seen.last());
        assert forall|j: int| 0 <= j < tail.len() - 1 implies !(#[trigger] tail[j] is Accepted) by {
            assert(tail[j] == seen[j + 1]);
        }
        law_winner_answers_at_once(first.0, tail);
        lemma_run_len(first.0, tail);
        assert forall|j: int| 0 <= j < seen.len() - 1 implies #[trigger] run(race, seen).1[j] is Await by {
            if j > 0 {
                assert(run(race, seen).1[j] == rest.1[j - 1]);
            }
        }
        assert(run(race, seen).1.last() == rest.1.last());
    }
}

/// Where every call has ended and none was accepted, the caller waits until
/// the last outcome and then answers with the 404 of an exhausted race.
pub proof fn law_exhausted_answers_not_found<R>(race: Race, outcomes: Seq<BackendOutcome<R>>)
    requires
        race.phase is Racing,
        0 < outcomes.len() == race.pending,
        forall|j: int| 0 <= j < outcomes.len() ==> !(#[trigger] outcomes[j] is Accepted),
    ensures
        run(race, outcomes).1.len() == outcomes.len(),
        forall|j: int| 0 <= j < outcomes.len() - 1 ==> #[trigger] run(race, outcomes).1[j] is Await,
        run(race, outcomes).1.last() == RaceActionView::<R>::Respond(
            ClientResponseView::Synthetic(exhausted_response(race.version)),
        ),
        run(race, outcomes).0 == (Race {
            version: race.version,
            phase: RacePhase::Exhausted,
            pending: 0,
        }),
    decreases outcomes.len(),
{
    lemma_run_len(race, outcomes);
    let first = step(race, outcomes[0]);
    let rest = run(first.0, outcomes.skip(1));
    if outcomes.len() == 1 {
        assert(outcomes.skip(1).len() == 0);
        assert(run(race, outcomes).1 =~= seq![first.1]);
    } else {
        let tail = outcomes.skip(1);
        assert forall|j: int| 0 <= j < tail.len() implies !(#[trigger] tail[j] is Accepted) by {
            assert(tail[j] == outcomes[j + 1]);
        }
        law_exhausted_answers_not_found(first.0, tail);
        lemma_run_len(first.0, tail);
        assert forall|j: int| 0 <= j < outcomes.len() - 1 implies #[trigger] run(
            race,
            outcomes,
        ).1[j] is Await by {
            if j > 0 {
                assert(run(race, outcomes).1[j] == rest.1[j - 1]);
            }
        }
        assert(run(race, outcomes).1.last() == rest.1.last());
    }
}

/// Each request is answered once. When the outcomes of all the calls of a
/// race have been observed, exactly one of them was answered with a
/// response, and that response is the result of the race.
pub proof fn law_one_response<R>(race: Race, outcomes: Seq<BackendOutcome<R>>) -> (at: int)
    requires
        race.phase is Racing,
        0 < outcomes.len() == race.pending,
    ensures
        0 <= at < outcomes.len(),
        run(race, outcomes).1.len() == outcomes.len(),
        run(race, outcomes).1[at] == RaceActionView::Respond(race_result(race.version, outcomes)),
        forall|j: int|
            0 <= j < outcomes.len() && j != at ==> !(#[trigger] run(race, outcomes).1[j] is Respond),
        !(run(race, outcomes).0.phase is Racing),
        run(race, outcomes).0.pending == 0,
{
    lemma_run_len(race, outcomes);
    lemma_first_accepted(outcomes);
    match first_accepted(outcomes) {
        Some(k) => {
            let seen = outcomes.take(k + 1);
            let later = outcomes.skip(k + 1);
            assert(outcomes =~= seen + later);
            assert(seen.last() == outcomes[k]);
            assert forall|j: int| 0 <= j < seen.len() - 1 implies !(#[trigger] seen[j] is Accepted) by {
                assert(seen[j] == outcomes[j]);
            }
            law_winner_answers_at_once(race, seen);
            let middle = run(race, seen);
            law_drain_never_responds(middle.0, later);
            lemma_run_concat(race, seen, later);
            let actions = run(race, outcomes).1;
            assert(actions == middle.1 + run(middle.0, later).1);
            assert(actions[k] == middle.1.last());
            assert forall|j: int| 0 <= j < outcomes.len() && j != k implies !(
            #[trigger] actions[j] is Respond) by {
                if j < k {
                    assert(actions[j] == middle.1[j]);
                } else {
                    assert(actions[j] == run(middle.0, later).1[j - (k + 1)]);
                }
            }
            k
        },
        None => {
            law_exhausted_answers_not_found(race, outcomes);
            outcomes.len() - 1
        },
    }
}

/// Pass-through identity. Where a backend replies with status 200 or 304
/// and no call that ended before it did so, the client gets that backend's
/// reply, status and payload as they came, whatever the other backends do.
pub proof fn law_pass_through_identity<R>(
    version: hyper::Version,
    results: Seq<TimedResult<R>>,
    winner: int,
)
    requires
        0 <= winner < results.len(),
        results[winner] matches Ok(Ok(reply)) && accepting_status(reply.status),
        forall|j: int|
            0 <= j < winner ==> !(#[trigger] results[j] matches Ok(Ok(reply)) && accepting_status(
                reply.status,
            )),
    ensures
        results[winner] matches Ok(Ok(reply)) && race_result(version, classified(results))
            == ClientResponseView::PassThrough(reply),
{
    let outcomes = classified(results);
    law_classification(results[winner]);
    assert forall|j: int| 0 <= j < winner implies !(#[trigger] outcomes[j] is Accepted) by {
        law_classification(results[j]);
    }
    lemma_first_accepted_at(outcomes, winner);
}

/// Where any backend replies with status 200 or 304, the client gets the
/// reply of one such backend, status and payload as they came.
pub proof fn law_some_accepted_reply_wins<R>(
    version: hyper::Version,
    results: Seq<TimedResult<R>>,
) -> (winner: int)
    requires
        exists|i: int|
            0 <= i < results.len() && (#[trigger] results[i] matches Ok(Ok(reply))
                && accepting_status(reply.status)),
    ensures
        0 <= winner < results.len(),
        results[winner] matches Ok(Ok(reply)) && accepting_status(reply.status) && race_result(
            version,
            classified(results),
        ) == ClientResponseView::PassThrough(reply),
{
    let outcomes = classified(results);
    let i = choose|i: int|
        0 <= i < results.len() && (#[trigger] results[i] matches Ok(Ok(reply)) && accepting_status(
            reply.status,
        ));
    law_classification(results[i]);
    assert(outcomes[i] is Accepted);
    lemma_first_accepted(outcomes);
    let k = first_accepted(outcomes).unwrap();
    law_classification(results[k]);
    k
}

/// Where every backend replies with status 404, the client gets the 404 of
/// an exhausted race, in whatever order the replies come in.
pub proof fn law_all_not_found<R>(
    version: hyper::Version,
    results: Seq<TimedResult<R>>,
    reordered: Seq<TimedResult<R>>,
)
    requires
        forall|i: int|
            0 <= i < results.len() ==> (#[trigger] results[i] matches Ok(Ok(reply)) && reply.status
                == 404),
        reordered.to_multiset() == results.to_multiset(),
    ensures
        race_result(version, classified(results)) == ClientResponseView::<R>::Synthetic(
            exhausted_response(version),
        ),
        race_result(version, classified(reordered)) == ClientResponseView::<R>::Synthetic(
            exhausted_response(version),
        ),
{
    assert forall|j: int| 0 <= j < reordered.len() implies (#[trigger] reordered[j] matches Ok(
        Ok(reply),
    ) && reply.status == 404) by {
        reordered.to_multiset_ensures();
        results.to_multiset_ensures();
        assert(reordered.to_multiset().count(reordered[j]) > 0);
        assert(results.contains(reordered[j]));
        let i = choose|i: int| 0 <= i < results.len() && results[i] == reordered[j];
        assert(results[i] matches Ok(Ok(reply)) && reply.status == 404);
    }
    lemma_no_acceptance_is_not_found(version, classified(results));
    lemma_no_acceptance_is_not_found(version, classified(reordered));
}

/// Where no outcome is an acceptance, the result is the 404 of an exhausted
/// race.
pub proof fn lemma_no_acceptance_is_not_found<R>(
    version: hyper::Version,
    outcomes: Seq<BackendOutcome<R>>,
)
    requires
        forall|j: int| 0 <= j < outcomes.len() ==> !(#[trigger] outcomes[j] is Accepted),
    ensures
        race_result(version, outcomes) == ClientResponseView::<R>::Synthetic(
            exhausted_response(version),
        ),
{
    lemma_first_accepted(outcomes);
}

} // verus!
