use vstd::prelude::*;
use vstd::hash_map::HashMapWithView;

use crate::error::ErrorCode;
use crate::risk::RiskResult;

verus! {

/// Where a request stands in its life.
#[derive(Clone, Copy, Debug, PartialEq, Eq, Structural)]
pub enum RequestState {
    Submitted,
    AwaitingResult,
    Resolved(RiskResult),
    Aborted,
}

/// The notification emitted once for each resolved request.
#[derive(Clone, Copy, Debug, PartialEq, Eq, Structural)]
pub struct RiskEvent {
    /// Correlation identifier of the request that was resolved.
    pub position: u64,
    pub is_liquidatable: bool,
    pub equity: u64,
}

pub open spec fn is_terminal(s: RequestState) -> bool {
    s is Resolved || s is Aborted
}

/// Admitting a new request: an identifier already known is refused and
/// changes nothing.
pub open spec fn spec_submit(m: Map<u64, RequestState>, id: u64) -> (
    Map<u64, RequestState>,
    Result<(), ErrorCode>,
) {
    if m.contains_key(id) {
        (m, Err(ErrorCode::DuplicateSubmission))
    } else {
        (m.insert(id, RequestState::Submitted), Ok(()))
    }
}

/// The execution service accepted a submitted request.
pub open spec fn spec_accept(m: Map<u64, RequestState>, id: u64) -> (
    Map<u64, RequestState>,
    Result<(), ErrorCode>,
) {
    if !m.contains_key(id) {
        (m, Err(ErrorCode::UnknownRequest))
    } else if m[id] is Submitted {
        (m.insert(id, RequestState::AwaitingResult), Ok(()))
    } else {
        (m, Err(ErrorCode::InvalidTransition))
    }
}

/// Delivery of a request's outcome: only a request awaiting its result moves,
/// to `Resolved` with an event on a verdict, to `Aborted` on a failure.
pub open spec fn spec_resolve(
    m: Map<u64, RequestState>,
    id: u64,
    outcome: Result<RiskResult, ErrorCode>,
) -> (Map<u64, RequestState>, Result<RiskEvent, ErrorCode>) {
    if !m.contains_key(id) {
        (m, Err(ErrorCode::UnknownRequest))
    } else if !(m[id] is AwaitingResult) {
        (m, Err(ErrorCode::InvalidTransition))
    } else {
        match outcome {
            Ok(v) => (
                m.insert(id, RequestState::Resolved(v)),
                Ok(RiskEvent { position: id, is_liquidatable: v.is_liquidatable, equity: v.equity }),
            ),
            Err(e) => (m.insert(id, RequestState::Aborted), Err(e)),
        }
    }
}

/// The state of every request, keyed by correlation identifier.
pub struct RequestTracker {
    requests: HashMapWithView<u64, RequestState>,
}

impl View for RequestTracker {
    type V = Map<u64, RequestState>;

    closed spec fn view(&self) -> Map<u64, RequestState> {
        self.requests@
    }
}

impl RequestTracker {
    pub fn new() -> (r: RequestTracker)
        ensures
            r@ == Map::<u64, RequestState>::empty(),
    {
        broadcast use vstd::std_specs::hash::axiom_u64_obeys_hash_table_key_model;

        RequestTracker { requests: HashMapWithView::new() }
    }

    /// The state of request `id`, if it was ever submitted.
    pub fn state_of(&self, id: u64) -> (r: Option<RequestState>)
        ensures
            r == (if self@.contains_key(id) {
                Some(self@[id])
            } else {
                None::<RequestState>
            }),
    {
        match self.requests.get(&id) {
            Some(s) => Some(*s),
            None => None,
        }
    }

    /// Admits request `id` as `Submitted`, unless the identifier is known.
    pub fn submit(&mut self, id: u64) -> (r: Result<(), ErrorCode>)
        ensures
            (final(self)@, r) == spec_submit(old(self)@, id),
    {
        if self.requests.contains_key(&id) {
            Err(ErrorCode::DuplicateSubmission)
        } else {
            self.requests.insert(id, RequestState::Submitted);
            Ok(())
        }
    }

    /// Records that the execution service accepted request `id`.
    pub fn accept(&mut self, id: u64) -> (r: Result<(), ErrorCode>)
        ensures
            (final(self)@, r) == spec_accept(old(self)@, id),
    {
        match self.requests.get(&id) {
            None => Err(ErrorCode::UnknownRequest),
            Some(RequestState::Submitted) => {
                self.requests.insert(id, RequestState::AwaitingResult);
                Ok(())
            },
            Some(_) => Err(ErrorCode::InvalidTransition),
        }
    }

    /// Settles request `id` with its outcome; returns the event to emit.
    pub fn resolve(&mut self, id: u64, outcome: Result<RiskResult, ErrorCode>) -> (r: Result<
        RiskEvent,
        ErrorCode,
    >)
        ensures
            (final(self)@, r) == spec_resolve(old(self)@, id, outcome),
    {
        match self.requests.get(&id) {
            None => Err(ErrorCode::UnknownRequest),
            Some(RequestState::AwaitingResult) => match outcome {
                Ok(v) => {
                    self.requests.insert(id, RequestState::Resolved(v));
                    Ok(RiskEvent { position: id, is_liquidatable: v.is_liquidatable, equity: v.equity })
                },
                Err(e) => {
                    self.requests.insert(id, RequestState::Aborted);
                    Err(e)
                },
            },
            Some(_) => Err(ErrorCode::InvalidTransition),
        }
    }
}

/// A second outcome for a resolved request emits no event and leaves every
/// recorded state, the verdict included, as it was.
pub proof fn lemma_resolved_request_is_final(
    m: Map<u64, RequestState>,
    id: u64,
    first: Result<RiskResult, ErrorCode>,
    second: Result<RiskResult, ErrorCode>,
)
    requires
        m.contains_key(id),
        m[id] is AwaitingResult,
    ensures
        ({
            let after = spec_resolve(m, id, first).0;
            spec_resolve(after, id, second) == (after, Err::<RiskEvent, ErrorCode>(
                ErrorCode::InvalidTransition,
            ))
        }),
{
}

/// No transition leaves a terminal state.
pub proof fn lemma_terminal_states_stay(
    m: Map<u64, RequestState>,
    id: u64,
    outcome: Result<RiskResult, ErrorCode>,
)
    requires
        m.contains_key(id),
        is_terminal(m[id]),
    ensures
        spec_submit(m, id).0 == m,
        spec_accept(m, id).0 == m,
        spec_resolve(m, id, outcome).0 == m,
        spec_resolve(m, id, outcome).1 is Err,
{
}

/// Submitting an identifier that awaits its result is refused, and the first
/// request then resolves exactly as it would have without the second
/// submission.
pub proof fn lemma_duplicate_submission_harmless(
    m: Map<u64, RequestState>,
    id: u64,
    outcome: Result<RiskResult, ErrorCode>,
)
    requires
        m.contains_key(id),
        m[id] is AwaitingResult,
    ensures
        spec_submit(m, id).1 == Err::<(), ErrorCode>(ErrorCode::DuplicateSubmission),
        spec_resolve(spec_submit(m, id).0, id, outcome) == spec_resolve(m, id, outcome),
{
}

} // verus!
