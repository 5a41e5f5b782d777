//! The cache as a state machine: what a request for an id and the end of a
//! fetch do to the records and to the fetches in flight, and what holds of
//! every run.
//!
//! Everything here is mathematics. The resolver's contracts are stated over
//! these definitions.

use vstd::prelude::*;
use crate::error::ResolveError;
use crate::flights::{joined, role_of, waiting, InFlight, Role};
use crate::records::{inserted, lookup, preserved, Records};

verus! {

/// What a fetch from the registry came to, with the document as text.
pub enum FetchedView {
    Document(Seq<char>),
    NotFound,
    Failed,
    TimedOut,
}

/// What a caller is told when its request is taken up, with the document as
/// text.
pub enum StepView {
    /// The request is answered.
    Ready(Result<Seq<char>, ResolveError>),
    /// The caller has to fetch the document and report back.
    Fetch,
    /// The caller has to wait for the fetch that is in flight.
    Wait,
}

/// Where an id stands.
pub enum Phase {
    /// No record and no fetch.
    Uncached,
    /// No record yet; a fetch is in flight.
    FetchInFlight,
    /// The record is in the store.
    Cached,
}

/// The answer that the owner and every waiter get at the end of a fetch.
pub open spec fn outcome_of(fetched: FetchedView) -> Result<Seq<char>, ResolveError> {
    match fetched {
        FetchedView::Document(document) => Ok(document),
        FetchedView::NotFound => Err(ResolveError::NotFound),
        FetchedView::Failed => Err(ResolveError::Fetch),
        FetchedView::TimedOut => Err(ResolveError::Timeout),
    }
}

/// Who is told what at the end of a fetch: each waiter, in the order in which
/// they came, with the answer that the owner gets.
pub open spec fn delivered(
    waiters: Seq<u64>,
    outcome: Result<Seq<char>, ResolveError>,
) -> Seq<(u64, Result<Seq<char>, ResolveError>)> {
    Seq::new(waiters.len(), |i: int| (waiters[i], outcome))
}

/// The records after a fetch for `id` ended: a document is kept, unless the
/// id has one already; anything else writes nothing.
pub open spec fn records_after(records: Records, id: Seq<char>, fetched: FetchedView) -> Records {
    match fetched {
        FetchedView::Document(document) => inserted(records, id, document),
        _ => records,
    }
}

/// The state of the cache.
pub struct CacheState {
    /// The records in the store.
    pub records: Records,
    /// The fetches in flight, each with its waiters.
    pub flights: InFlight,
}

impl CacheState {
    /// No fetch is in flight for an id whose record is in the store.
    pub open spec fn coherent(self) -> bool {
        forall|k: Seq<char>| #[trigger] self.flights.contains_key(k) ==> !self.records.contains_key(k)
    }

    /// Where `id` stands.
    pub open spec fn phase(self, id: Seq<char>) -> Phase {
        if self.records.contains_key(id) {
            Phase::Cached
        } else if self.flights.contains_key(id) {
            Phase::FetchInFlight
        } else {
            Phase::Uncached
        }
    }

    /// What the next caller for `id` is told.
    pub open spec fn step(self, id: Seq<char>) -> StepView {
        match lookup(self.records, id) {
            Some(document) => StepView::Ready(Ok(document)),
            None => match role_of(self.flights, id) {
                Role::Owner => StepView::Fetch,
                Role::Waiter => StepView::Wait,
            },
        }
    }

    /// The state after `caller` asked for `id`: a hit changes nothing, a miss
    /// enters the caller in the flight for `id`.
    pub open spec fn resolve(self, id: Seq<char>, caller: u64) -> CacheState {
        match lookup(self.records, id) {
            Some(_) => self,
            None => CacheState { records: self.records, flights: joined(self.flights, id, caller) },
        }
    }

    /// The state after the fetch for `id` ended with `fetched`.
    pub open spec fn complete(self, id: Seq<char>, fetched: FetchedView) -> CacheState {
        CacheState {
            records: records_after(self.records, id, fetched),
            flights: self.flights.remove(id),
        }
    }

    /// The state after each of `callers` asked for `id`, one after the other.
    pub open spec fn resolve_all(self, id: Seq<char>, callers: Seq<u64>) -> CacheState
        decreases callers.len(),
    {
        if callers.len() == 0 {
            self
        } else {
            self.resolve_all(id, callers.drop_last()).resolve(id, callers.last())
        }
    }

    /// What the caller at position `i` of `callers` was told.
    pub open spec fn step_of(self, id: Seq<char>, callers: Seq<u64>, i: int) -> StepView {
        self.resolve_all(id, callers.take(i)).step(id)
    }
}

/// A request for an id whose record is in the store is answered with exactly
/// that document and changes nothing: no flight is opened, so nobody is sent
/// to the registry.
pub proof fn law_hit(state: CacheState, id: Seq<char>, caller: u64)
    requires
        state.records.contains_key(id),
    ensures
        state.step(id) == StepView::Ready(Ok(state.records[id])),
        state.resolve(id, caller) == state,
{
}

/// A request never touches the records, keeps the state coherent, and
/// leaves every other id where it stands, with the waiters it has.
pub proof fn law_resolve_keeps(state: CacheState, id: Seq<char>, caller: u64)
    requires
        state.coherent(),
    ensures
        state.resolve(id, caller).records == state.records,
        state.resolve(id, caller).coherent(),
        forall|k: Seq<char>| k != id ==> state.resolve(id, caller).phase(k) == state.phase(k),
        forall|k: Seq<char>|
            k != id ==> waiting(state.resolve(id, caller).flights, k) == waiting(state.flights, k),
{
}

/// A request moves its id from uncached to in flight and otherwise leaves it
/// where it stands.
pub proof fn law_resolve_phase(state: CacheState, id: Seq<char>, caller: u64)
    ensures
        state.phase(id) is Uncached ==> state.step(id) is Fetch && state.resolve(id, caller).phase(id)
            is FetchInFlight,
        state.phase(id) is FetchInFlight ==> state.step(id) is Wait && state.resolve(id, caller).phase(
            id,
        ) is FetchInFlight,
        state.phase(id) is Cached ==> state.step(id) is Ready && state.resolve(id, caller).phase(id)
            is Cached,
{
}

/// The end of a fetch closes the flight and leaves the id cached after a
/// document and uncached after anything else, ready for a new fetch. The
/// state stays coherent and no other id moves.
pub proof fn law_complete_phase(state: CacheState, id: Seq<char>, fetched: FetchedView)
    requires
        state.coherent(),
        state.phase(id) is FetchInFlight,
    ensures
        state.complete(id, fetched).coherent(),
        fetched is Document ==> state.complete(id, fetched).phase(id) is Cached,
        !(fetched is Document) ==> state.complete(id, fetched).phase(id) is Uncached,
        forall|k: Seq<char>| k != id ==> state.complete(id, fetched).phase(k) == state.phase(k),
        forall|k: Seq<char>|
            k != id ==> waiting(state.complete(id, fetched).flights, k) == waiting(state.flights, k),
{
}

/// A record, once written, stays as it is: neither a request nor the end of
/// a fetch, for any id, changes or removes it.
pub proof fn law_records_are_permanent(
    state: CacheState,
    id: Seq<char>,
    caller: u64,
    fetched: FetchedView,
)
    ensures
        preserved(state.records, state.resolve(id, caller).records),
        preserved(state.records, state.complete(id, fetched).records),
{
}

/// When the registry has no such organization, nothing is written: the id
/// has no record afterwards, its flight is closed, and the next caller is
/// sent to the registry again.
pub proof fn law_not_found_is_not_cached(state: CacheState, id: Seq<char>)
    requires
        state.coherent(),
        state.flights.contains_key(id),
    ensures
        state.complete(id, FetchedView::NotFound).records == state.records,
        !state.complete(id, FetchedView::NotFound).records.contains_key(id),
        state.complete(id, FetchedView::NotFound).step(id) == StepView::Fetch,
        outcome_of(FetchedView::NotFound) == Err::<Seq<char>, ResolveError>(ResolveError::NotFound),
{
}

/// When the fetch fails or runs out of time, nothing is written: the id has
/// no record afterwards, and the next caller fetches anew.
pub proof fn law_failure_writes_nothing(state: CacheState, id: Seq<char>, fetched: FetchedView)
    requires
        state.coherent(),
        state.flights.contains_key(id),
        fetched is Failed || fetched is TimedOut,
    ensures
        state.complete(id, fetched).records == state.records,
        !state.complete(id, fetched).records.contains_key(id),
        state.complete(id, fetched).step(id) == StepView::Fetch,
        outcome_of(fetched) is Err,
{
}

/// After a document was fetched for an uncached id, the store holds it and
/// every later request is a hit with that document.
pub proof fn law_miss_then_hit(state: CacheState, id: Seq<char>, document: Seq<char>)
    requires
        !state.records.contains_key(id),
    ensures
        outcome_of(FetchedView::Document(document)) == Ok::<Seq<char>, ResolveError>(document),
        lookup(state.complete(id, FetchedView::Document(document)).records, id) == Some(document),
        state.complete(id, FetchedView::Document(document)).step(id) == StepView::Ready(Ok(document)),
{
}

/// While an uncached id has no fetch in flight and any number of callers ask
/// for it, the records stay as they are and the flight holds every caller
/// but the first as a waiter, in the order in which they came.
pub proof fn lemma_resolve_all(state: CacheState, id: Seq<char>, callers: Seq<u64>)
    requires
        !state.records.contains_key(id),
        !state.flights.contains_key(id),
    ensures
        state.resolve_all(id, callers).records == state.records,
        callers.len() == 0 ==> state.resolve_all(id, callers) == state,
        callers.len() > 0 ==> state.resolve_all(id, callers).flights == state.flights.insert(
            id,
            callers.skip(1),
        ),
    decreases callers.len(),
{
    if callers.len() > 0 {
        let front = callers.drop_last();
        lemma_resolve_all(state, id, front);
        if front.len() == 0 {
            assert(callers.skip(1) =~= Seq::<u64>::empty());
        } else {
            assert(front.skip(1).push(callers.last()) =~= callers.skip(1));
            assert(state.flights.insert(id, front.skip(1)).insert(id, callers.skip(1))
                =~= state.flights.insert(id, callers.skip(1)));
        }
    }
}

/// Single flight. When any number of callers ask for an uncached id before
/// the fetch has ended, exactly one of them, the first, is sent to the
/// registry and all others wait; the store is not touched meanwhile. At the
/// end of the fetch the flight is closed, precisely those others are its
/// waiters, and each of them is told the one answer that the owner gets.
pub proof fn law_single_flight(
    state: CacheState,
    id: Seq<char>,
    callers: Seq<u64>,
    fetched: FetchedView,
)
    requires
        state.phase(id) is Uncached,
        callers.len() > 0,
    ensures
        state.step_of(id, callers, 0) == StepView::Fetch,
        forall|i: int| 0 < i < callers.len() ==> state.step_of(id, callers, i) == StepView::Wait,
        state.resolve_all(id, callers).records == state.records,
        waiting(state.resolve_all(id, callers).flights, id) == callers.skip(1),
        forall|j: int|
            0 <= j < callers.len() - 1 ==> #[trigger] delivered(
                waiting(state.resolve_all(id, callers).flights, id),
                outcome_of(fetched),
            )[j] == (callers[j + 1], outcome_of(fetched)),
        !state.resolve_all(id, callers).complete(id, fetched).flights.contains_key(id),
        state.resolve_all(id, callers).complete(id, fetched).records == records_after(
            state.records,
            id,
            fetched,
        ),
{
    lemma_resolve_all(state, id, callers);
    lemma_resolve_all(state, id, callers.take(0));
    assert forall|i: int| 0 < i < callers.len() implies state.step_of(id, callers, i)
        == StepView::Wait by {
        lemma_resolve_all(state, id, callers.take(i));
    }
}

} // verus!
