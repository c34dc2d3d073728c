use vstd::prelude::*;
use crate::outcome::BackendOutcome;
use crate::response::{
    not_found_response, not_found_text, plain_response, ClientResponse, ClientResponseView,
    SyntheticResponse, SyntheticResponseView,
};

verus! {

/// Where the race between the backends of one request stands.
#[derive(Debug, Copy, Clone, PartialEq, Eq, Structural)]
pub enum RacePhase {
    /// No backend has accepted yet and at least one call is still out.
    Racing,
    /// A backend has accepted; the calls still out are only drained.
    WinnerFound,
    /// Every call has ended and no backend accepted.
    Exhausted,
}

/// The race between the backend calls of one inbound request.
#[derive(Debug, PartialEq, Eq)]
pub struct Race {
    /// The version of the inbound request, which the response carries.
    pub version: hyper::Version,
    pub phase: RacePhase,
    /// The number of calls whose outcome has not been observed yet.
    pub pending: usize,
}

/// What the caller does after an outcome has been observed.
#[derive(Debug)]
pub enum RaceAction<R> {
    /// Wait for the next outcome.
    Await,
    /// Send this response to the client now; the calls that are still out
    /// are left to end in the background.
    Respond(ClientResponse<R>),
    /// The response has gone out already: the outcome is dropped.
    Discard,
}

/// The mathematical value of a [`RaceAction`].
pub enum RaceActionView<R> {
    Await,
    Respond(ClientResponseView<R>),
    Discard,
}

impl<R> View for RaceAction<R> {
    type V = RaceActionView<R>;

    open spec fn view(&self) -> RaceActionView<R> {
        match self {
            RaceAction::Await => RaceActionView::Await,
            RaceAction::Respond(response) => RaceActionView::Respond(response@),
            RaceAction::Discard => RaceActionView::Discard,
        }
    }
}

/// The response where no backend accepted.
pub open spec fn exhausted_response(version: hyper::Version) -> SyntheticResponseView {
    plain_response(version, 404, not_found_text())
}

/// The race as it stands when `launched` calls have been started.
pub open spec fn begun(version: hyper::Version, launched: usize) -> Race {
    Race {
        version,
        phase: if launched == 0 {
            RacePhase::Exhausted
        } else {
            RacePhase::Racing
        },
        pending: launched,
    }
}

/// One less than a count of pending calls, and zero for zero.
pub open spec fn one_less(pending: usize) -> usize {
    if pending > 0 {
        (pending - 1) as usize
    } else {
        0
    }
}

/// The race after one more outcome, and what the caller does then.
pub open spec fn step<R>(race: Race, outcome: BackendOutcome<R>) -> (Race, RaceActionView<R>) {
    let left = one_less(race.pending);
    match race.phase {
        RacePhase::Racing => match outcome {
            BackendOutcome::Accepted(reply) => (
                Race { version: race.version, phase: RacePhase::WinnerFound, pending: left },
                RaceActionView::Respond(ClientResponseView::PassThrough(reply)),
            ),
            _ => if left == 0 {
                (
                    Race { version: race.version, phase: RacePhase::Exhausted, pending: 0 },
                    RaceActionView::Respond(
                        ClientResponseView::Synthetic(exhausted_response(race.version)),
                    ),
                )
            } else {
                (
                    Race { version: race.version, phase: RacePhase::Racing, pending: left },
                    RaceActionView::Await,
                )
            },
        },
        _ => (
            Race { version: race.version, phase: race.phase, pending: left },
            RaceActionView::Discard,
        ),
    }
}

/// The index of the first accepted outcome in a sequence of outcomes.
pub open spec fn first_accepted<R>(outcomes: Seq<BackendOutcome<R>>) -> Option<int>
    decreases outcomes.len(),
{
    if outcomes.len() == 0 {
        None
    } else if outcomes[0] is Accepted {
        Some(0)
    } else {
        match first_accepted(outcomes.skip(1)) {
            Some(i) => Some(i + 1),
            None => None,
        }
    }
}

/// The response to a request whose backends came to the given outcomes, in
/// the order in which the calls ended: the reply of the first backend that
/// accepted, and the 404 of an exhausted race where none did.
pub open spec fn race_result<R>(version: hyper::Version, outcomes: Seq<BackendOutcome<R>>)
    -> ClientResponseView<R> {
    match first_accepted(outcomes) {
        Some(i) => ClientResponseView::PassThrough(outcomes[i]->Accepted_0),
        None => ClientResponseView::Synthetic(exhausted_response(version)),
    }
}

impl Race {
    /// A race is well formed when it is racing only while calls are out, and
    /// exhausted only when none is.
    pub open spec fn wf(self) -> bool {
        &&& self.phase is Racing ==> self.pending > 0
        &&& self.phase is Exhausted ==> self.pending == 0
    }

    /// Starts the race over `launched` backend calls. Where none was
    /// launched the race is exhausted at once and the 404 is handed out.
    pub fn begin(version: hyper::Version, launched: usize) -> (start: (
        Race,
        Option<SyntheticResponse>,
    ))
        ensures
            start.0 == begun(version, launched),
            start.0.wf(),
            launched == 0 ==> (start.1 matches Some(response) && response@ == exhausted_response(
                version,
            )),
            launched > 0 ==> start.1 is None,
    {
        if launched == 0 {
            (
                Race { version, phase: RacePhase::Exhausted, pending: 0 },
                Some(not_found_response(version)),
            )
        } else {
            (Race { version, phase: RacePhase::Racing, pending: launched }, None)
        }
    }

    /// Takes the outcome of one backend call, in the order in which the
    /// calls end.
    ///
    /// While racing, the first accepted outcome is answered with its reply
    /// at once, and the last of the others with the 404. Once a response has
    /// gone out, every further outcome is dropped.
    pub fn observe<R>(self, outcome: BackendOutcome<R>) -> (next: (Race, RaceAction<R>))
        ensures
            next.0 == step(self, outcome).0,
            next.1@ == step(self, outcome).1,
            self.wf() ==> next.0.wf(),
    {
        let left: usize = if self.pending > 0 {
            self.pending - 1
        } else {
            0
        };
        match self.phase {
            RacePhase::Racing => match outcome {
                BackendOutcome::Accepted(reply) => (
                    Race { version: self.version, phase: RacePhase::WinnerFound, pending: left },
                    RaceAction::Respond(ClientResponse::PassThrough(reply)),
                ),
                _ => if left == 0 {
                    (
                        Race { version: self.version, phase: RacePhase::Exhausted, pending: 0 },
                        RaceAction::Respond(
                            ClientResponse::Synthetic(not_found_response(self.version)),
                        ),
                    )
                } else {
                    (
                        Race { version: self.version, phase: RacePhase::Racing, pending: left },
                        RaceAction::Await,
                    )
                },
            },
            phase => (Race { version: self.version, phase, pending: left }, RaceAction::Discard),
        }
    }

    /// Whether the race still waits for an outcome to answer the client.
    pub fn is_racing(&self) -> (racing: bool)
        ensures
            racing == (self.phase is Racing),
    {
        match self.phase {
            RacePhase::Racing => true,
            _ => false,
        }
    }
}

/// The first accepted outcome is accepted, none before it is, and where
/// there is none, no outcome is accepted.
pub proof fn lemma_first_accepted<R>(outcomes: Seq<BackendOutcome<R>>)
    ensures
        match first_accepted(outcomes) {
            Some(k) => 0 <= k < outcomes.len() && outcomes[k] is Accepted && forall|j: int|
                0 <= j < k ==> !(#[trigger] outcomes[j] is Accepted),
            None => forall|j: int| 0 <= j < outcomes.len() ==> !(#[trigger] outcomes[j] is Accepted),
        },
    decreases outcomes.len(),
{
    if outcomes.len() > 0 && !(outcomes[0] is Accepted) {
        let rest = outcomes.skip(1);
        lemma_first_accepted(rest);
        match first_accepted(rest) {
            Some(i) => {
                assert(outcomes[i + 1] == rest[i]);
                assert forall|j: int| 0 <= j < i + 1 implies !(#[trigger] outcomes[j] is Accepted) by {
                    if j > 0 {
                        assert(outcomes[j] == rest[j - 1]);
                    }
                }
            },
            None => {
                assert forall|j: int| 0 <= j < outcomes.len() implies !(
                #[trigger] outcomes[j] is Accepted) by {
                    if j > 0 {
                        assert(outcomes[j] == rest[j - 1]);
                    }
                }
            },
        }
    }
}

/// An accepted outcome with none accepted before it is the first accepted.
pub proof fn lemma_first_accepted_at<R>(outcomes: Seq<BackendOutcome<R>>, k: int)
    requires
        0 <= k < outcomes.len(),
        outcomes[k] is Accepted,
        forall|j: int| 0 <= j < k ==> !(#[trigger] outcomes[j] is Accepted),
    ensures
        first_accepted(outcomes) == Some(k),
{
    lemma_first_accepted(outcomes);
}

/// Resolves a whole race at once: the outcomes are observed one after the
/// other, in the order given, until one is answered.
pub fn resolve<R>(version: hyper::Version, outcomes: Vec<BackendOutcome<R>>) -> (response:
    ClientResponse<R>)
    ensures
        response@ == race_result(version, outcomes@),
{
    let ghost all = outcomes@;
    let mut remaining = outcomes;
    let (mut race, immediate) = Race::begin(version, remaining.len());
    if let Some(response) = immediate {
        return ClientResponse::Synthetic(response);
    }
    let ghost mut seen: int = 0;
    loop
        invariant
            all == outcomes@,
            race.phase is Racing,
            race.version == version,
            race.pending == remaining@.len(),
            remaining@.len() > 0,
            0 <= seen <= all.len(),
            remaining@ == all.skip(seen),
            forall|j: int| 0 <= j < seen ==> !(#[trigger] all[j] is Accepted),
        decreases remaining@.len(),
    {
        let outcome = remaining.remove(0);
        assert(outcome == all[seen]);
        let (next, action) = race.observe(outcome);
        proof {
            assert(remaining@ =~= all.skip(seen + 1));
            lemma_first_accepted(all);
            if outcome is Accepted {
                lemma_first_accepted_at(all, seen);
            }
        }
        match action {
            RaceAction::Respond(response) => {
                return response;
            },
            _ => {
                race = next;
                proof {
                    seen = seen + 1;
                }
            },
        }
    }
}

} // verus!
