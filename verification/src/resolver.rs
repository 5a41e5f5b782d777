//! The resolver: answers a request for an id from the store, or has the
//! document fetched once for all who ask while the fetch is in flight.
//!
//! The resolver never talks to the registry itself. A caller that is told to
//! fetch does so, under a time limit, and reports what came of it to
//! [`Resolver::complete`]; the callers that were told to wait get the same
//! answer then.

use vstd::prelude::*;
use crate::error::{ResolveError, StoreError};
use crate::flights::{joined, nothing_in_flight, role_of, waiting, Flights, Role};
use crate::machine::{delivered, outcome_of, CacheState, StepView};
use crate::records::preserved;
use crate::source::Fetched;
use crate::store::Store;

verus! {

/// An answer with its document as text.
pub open spec fn outcome_view(outcome: Result<String, ResolveError>) -> Result<Seq<char>, ResolveError> {
    match outcome {
        Ok(document) => Ok(document@),
        Err(e) => Err(e),
    }
}

/// What a caller is told when its request is taken up.
#[derive(Debug, PartialEq, Eq)]
pub enum Step {
    /// The request is answered: with the document from the store, or with
    /// the store's failure.
    Ready(Result<String, ResolveError>),
    /// The id is not in the store and nobody fetches it yet: the caller has
    /// to fetch it and report to [`Resolver::complete`].
    Fetch,
    /// The id is being fetched: the caller has to wait for the answer that
    /// the fetch will bring.
    Wait,
}

impl View for Step {
    type V = StepView;

    open spec fn view(&self) -> StepView {
        match self {
            Step::Ready(outcome) => StepView::Ready(outcome_view(*outcome)),
            Step::Fetch => StepView::Fetch,
            Step::Wait => StepView::Wait,
        }
    }
}

/// Whether a caller was turned away because the store failed.
pub open spec fn store_failed(step: StepView) -> bool {
    step matches StepView::Ready(Err(ResolveError::Store(_)))
}

/// The end of a fetch.
#[derive(Debug, PartialEq, Eq)]
pub struct Completion {
    /// The answer, for the owner of the fetch and for each of `waiters`.
    pub outcome: Result<String, ResolveError>,
    /// The callers that waited for this fetch, in the order in which they
    /// came.
    pub waiters: Vec<u64>,
    /// Why the document could not be kept, where it could not. The answer
    /// is the document all the same.
    pub store_error: Option<StoreError>,
}

/// A copy of an answer.
fn copy_of(outcome: &Result<String, ResolveError>) -> (copy: Result<String, ResolveError>)
    ensures
        copy == *outcome,
{
    match outcome {
        Ok(document) => Ok(document.clone()),
        Err(e) => Err(*e),
    }
}

impl Completion {
    /// The answer once for each waiter, in the order in which they came:
    /// every one of them gets what the owner gets.
    pub fn deliveries(&self) -> (out: Vec<(u64, Result<String, ResolveError>)>)
        ensures
            out@.len() == self.waiters@.len(),
            forall|i: int|
                0 <= i < out@.len() ==> out@[i].0 == self.waiters@[i] && out@[i].1 == self.outcome,
            forall|i: int|
                0 <= i < out@.len() ==> (out@[i].0, outcome_view(out@[i].1)) == delivered(
                    self.waiters@,
                    outcome_view(self.outcome),
                )[i],
    {
        let mut out: Vec<(u64, Result<String, ResolveError>)> = Vec::new();
        let mut i: usize = 0;
        while i < self.waiters.len()
            invariant
                i <= self.waiters@.len(),
                out@.len() == i,
                forall|j: int|
                    0 <= j < i ==> out@[j].0 == self.waiters@[j] && out@[j].1 == self.outcome,
            decreases self.waiters@.len() - i,
        {
            out.push((self.waiters[i], copy_of(&self.outcome)));
            i += 1;
        }
        out
    }
}

/// Decides what a caller is told, given what the store found for `id`: a
/// document answers the request, a failure of the store ends it, and a miss
/// enters the caller in the flight for `id`, as owner where none was open and
/// as waiter otherwise.
pub fn decide(
    flights: &mut Flights,
    found: Result<Option<String>, StoreError>,
    id: &str,
    caller: u64,
) -> (step: Step)
    requires
        old(flights).wf(),
    ensures
        final(flights).wf(),
        match found {
            Ok(Some(document)) => step == Step::Ready(Ok(document)) && final(flights)@ == old(flights)@,
            Ok(None) => final(flights)@ == joined(old(flights)@, id@, caller) && step == (match role_of(
                old(flights)@,
                id@,
            ) {
                Role::Owner => Step::Fetch,
                Role::Waiter => Step::Wait,
            }),
            Err(e) => step == Step::Ready(Err(ResolveError::Store(e))) && final(flights)@ == old(
                flights,
            )@,
        },
{
    match found {
        Ok(Some(document)) => Step::Ready(Ok(document)),
        Ok(None) => match flights.join(id, caller) {
            Role::Owner => Step::Fetch,
            Role::Waiter => Step::Wait,
        },
        Err(e) => Step::Ready(Err(ResolveError::Store(e))),
    }
}

/// The answer that a fetch brings.
pub fn outcome(fetched: Fetched) -> (outcome: Result<String, ResolveError>)
    ensures
        outcome_view(outcome) == outcome_of(fetched@),
{
    match fetched {
        Fetched::Document(document) => Ok(document),
        Fetched::NotFound => Err(ResolveError::NotFound),
        Fetched::Failed => Err(ResolveError::Fetch),
        Fetched::TimedOut => Err(ResolveError::Timeout),
    }
}

/// The cache: a store and the fetches in flight.
pub struct Resolver {
    store: Store,
    flights: Flights,
}

impl View for Resolver {
    type V = CacheState;

    closed spec fn view(&self) -> CacheState {
        CacheState { records: self.store@, flights: self.flights@ }
    }
}

impl Resolver {
    /// The resolver is well formed: its store and its registry of flights
    /// are, and no fetch is in flight for an id whose record is in the store.
    pub closed spec fn wf(&self) -> bool {
        self.store.wf() && self.flights.wf() && self@.coherent()
    }

    /// A well-formed resolver is in a coherent state.
    pub proof fn law_coherent(&self)
        requires
            self.wf(),
        ensures
            self@.coherent(),
    {
    }

    /// A resolver on `store`, with nothing in flight.
    pub fn new(store: Store) -> (resolver: Resolver)
        requires
            store.wf(),
        ensures
            resolver.wf(),
            resolver@.records == store@,
            resolver@.flights == nothing_in_flight(),
    {
        Resolver { store, flights: Flights::new() }
    }

    /// The store behind the resolver.
    pub fn store(&self) -> (store: &Store)
        ensures
            store@ == self@.records,
            self.wf() ==> store.wf(),
    {
        &self.store
    }

    /// Whether a fetch for `id` is in flight.
    pub fn in_flight(&self, id: &str) -> (r: bool)
        requires
            self.wf(),
        ensures
            r == self@.flights.contains_key(id@),
    {
        self.flights.contains(id)
    }

    /// Takes up the request of `caller` for `id`.
    ///
    /// The store is asked first. A document found there is the answer, and
    /// nothing changes. On a miss the caller joins the flight for `id`: the
    /// first to come is told to fetch, all who come while that fetch is in
    /// flight are told to wait. The store is never written. Where the
    /// store fails, the failure is the answer and nothing changes.
    pub fn resolve(&mut self, id: &str, caller: u64) -> (step: Step)
        requires
            old(self).wf(),
        ensures
            final(self).wf(),
            final(self)@.records == old(self)@.records,
            old(self)@.records.contains_key(id@) ==> final(self)@ == old(self)@ && (store_failed(step@)
                || step@ == StepView::Ready(Ok(old(self)@.records[id@]))),
            store_failed(step@) ==> step == Step::Ready(Err(ResolveError::Store(StoreError::Read)))
                && final(self)@ == old(self)@,
            !store_failed(step@) ==> step@ == old(self)@.step(id@) && final(self)@ == old(self)@.resolve(
                id@,
                caller,
            ),
    {
        let found = self.store.get(id);
        decide(&mut self.flights, found, id, caller)
    }

    /// Ends the fetch for `id` with what came of it.
    ///
    /// The flight is closed and its waiters are handed out with the answer,
    /// which is the same for the owner and for each of them. A document is
    /// put in the store, unless the id has one already; it is the answer
    /// even where the store fails to keep it, and the failure is reported
    /// beside it. Anything but a document writes nothing, so that a later
    /// request fetches anew.
    pub fn complete(&mut self, id: &str, fetched: Fetched) -> (done: Completion)
        requires
            old(self).wf(),
        ensures
            final(self).wf(),
            preserved(old(self)@.records, final(self)@.records),
            final(self)@.flights == old(self)@.flights.remove(id@),
            outcome_view(done.outcome) == outcome_of(fetched@),
            done.waiters@ == waiting(old(self)@.flights, id@),
            done.store_error is None ==> final(self)@ == old(self)@.complete(id@, fetched@),
            done.store_error is Some ==> fetched is Document && final(self)@.records == old(self)@.records,
            done.store_error matches Some(e) ==> e == StoreError::Read || e == StoreError::Write,
    {
        let ghost before = self@;
        let waiters = self.flights.land(id);
        let store_error = match &fetched {
            Fetched::Document(document) => match self.store.put(id, document.as_str()) {
                Ok(()) => None,
                Err(e) => Some(e),
            },
            _ => None,
        };
        proof {
            assert forall|k: Seq<char>| #[trigger] self@.flights.contains_key(k) implies !self@.records.contains_key(
                k,
            ) by {
                assert(before.flights.contains_key(k) && k != id@);
            }
        }
        Completion { outcome: outcome(fetched), waiters, store_error }
    }
}

} // verus!
