//! The registry of fetches in flight: for each organization id that is being
//! fetched right now, the callers that wait for the answer.

use vstd::prelude::*;

verus! {

/// What is in flight: each id under fetch, with its waiters in the order in
/// which they came.
pub type InFlight = Map<Seq<char>, Seq<u64>>;

/// Nothing in flight.
pub open spec fn nothing_in_flight() -> InFlight {
    Map::empty()
}

/// The part a caller has in the fetch of an id.
#[derive(Clone, Copy, Debug, PartialEq, Eq)]
pub enum Role {
    /// No fetch was in flight: the caller has to make it.
    Owner,
    /// A fetch is in flight: the caller waits for its answer.
    Waiter,
}

/// The part that falls to the next caller for `key`.
pub open spec fn role_of(flights: InFlight, key: Seq<char>) -> Role {
    if flights.contains_key(key) {
        Role::Waiter
    } else {
        Role::Owner
    }
}

/// What is in flight after `caller` has joined for `key`: a first caller opens
/// the flight, with nobody waiting; a later one is added to the waiters.
pub open spec fn joined(flights: InFlight, key: Seq<char>, caller: u64) -> InFlight {
    if flights.contains_key(key) {
        flights.insert(key, flights[key].push(caller))
    } else {
        flights.insert(key, Seq::empty())
    }
}

/// The callers that wait for `key`; nobody where no fetch is in flight.
pub open spec fn waiting(flights: InFlight, key: Seq<char>) -> Seq<u64> {
    if flights.contains_key(key) {
        flights[key]
    } else {
        Seq::empty()
    }
}

/// One fetch in flight.
struct Flight {
    key: String,
    waiters: Vec<u64>,
}

/// The fetches in flight.
pub struct Flights {
    entries: Vec<Flight>,
}

impl View for Flights {
    type V = InFlight;

    closed spec fn view(&self) -> InFlight {
        Map::new(
            |k: Seq<char>| self.has(k),
            |k: Seq<char>| self.entries[self.position(k)].waiters@,
        )
    }
}

impl Flights {
    /// The registry is well formed: no id has two entries. Every registry
    /// that [`Flights::new`] made and the methods below changed is.
    pub closed spec fn wf(&self) -> bool {
        forall|i: int, j: int|
            0 <= i < j < self.entries.len() ==> self.entries[i].key@ != self.entries[j].key@
    }

    spec fn has(&self, k: Seq<char>) -> bool {
        exists|i: int| 0 <= i < self.entries.len() && #[trigger] self.entries[i].key@ == k
    }

    spec fn position(&self, k: Seq<char>) -> int {
        choose|i: int| 0 <= i < self.entries.len() && #[trigger] self.entries[i].key@ == k
    }

    /// In a well-formed registry the entry at `i` is the one that the view
    /// shows for its key.
    proof fn lemma_entry(&self, i: int)
        requires
            self.wf(),
            0 <= i < self.entries.len(),
        ensures
            self.has(self.entries[i].key@),
            self.position(self.entries[i].key@) == i,
            self@.contains_key(self.entries[i].key@),
            self@[self.entries[i].key@] == self.entries[i].waiters@,
    {
        let k = self.entries[i].key@;
        assert(self.has(k));
        assert(self.position(k) == i);
    }

    /// A registry with nothing in flight.
    pub fn new() -> (flights: Flights)
        ensures
            flights.wf(),
            flights@ == nothing_in_flight(),
    {
        let flights = Flights { entries: Vec::new() };
        assert(flights@ =~= nothing_in_flight());
        flights
    }

    fn find(&self, key: &String) -> (found: Option<usize>)
        requires
            self.wf(),
        ensures
            found matches Some(i) ==> i < self.entries.len() && self.entries[i as int].key@ == key@
                && self@.contains_key(key@) && self@[key@] == self.entries[i as int].waiters@,
            found is None ==> !self@.contains_key(key@),
    {
        let mut i: usize = 0;
        while i < self.entries.len()
            invariant
                self.wf(),
                i <= self.entries.len(),
                forall|j: int| 0 <= j < i ==> self.entries[j].key@ != key@,
            decreases self.entries.len() - i,
        {
            if self.entries[i].key == *key {
                proof {
                    assert(self.has(key@));
                    assert(self.position(key@) == i);
                }
                return Some(i);
            }
            i += 1;
        }
        None
    }

    /// Enters `caller` for `key`, in one step: the caller becomes the owner
    /// of a new flight if none was open for `key`, and a waiter of the open
    /// one otherwise. So of all callers that join for a key while its fetch
    /// is in flight, exactly the first is the owner.
    pub fn join(&mut self, key: &str, caller: u64) -> (role: Role)
        requires
            old(self).wf(),
        ensures
            final(self).wf(),
            role == role_of(old(self)@, key@),
            final(self)@ == joined(old(self)@, key@, caller),
    {
        let ghost before = *self;
        let owned = key.to_owned();
        let role = match self.find(&owned) {
            Some(i) => {
                self.entries[i].waiters.push(caller);
                Role::Waiter
            },
            None => {
                self.entries.push(Flight { key: owned, waiters: Vec::new() });
                Role::Owner
            },
        };
        proof {
            let after = joined(before@, key@, caller);
            assert(self.wf());
            assert(self.entries.len() >= before.entries.len());
            assert forall|j: int| 0 <= j < before.entries.len() implies self.entries[j].key@
                == before.entries[j].key@ by {}
            assert forall|k: Seq<char>| self@.contains_key(k) implies #[trigger] after.contains_key(k)
                && after[k] == self@[k] by {
                let j = self.position(k);
                self.lemma_entry(j);
                if j < before.entries.len() {
                    before.lemma_entry(j);
                }
            }
            assert forall|k: Seq<char>| #[trigger] after.contains_key(k) implies self@.contains_key(k) by {
                if before@.contains_key(k) {
                    let j = before.position(k);
                    before.lemma_entry(j);
                    self.lemma_entry(j);
                } else {
                    self.lemma_entry(self.entries.len() - 1);
                }
            }
            assert(self@ =~= after);
        }
        role
    }

    /// Closes the flight for `key` and hands out its waiters, in the order
    /// in which they came. Where no flight was open, nothing changes and
    /// nobody waits.
    pub fn land(&mut self, key: &str) -> (waiters: Vec<u64>)
        requires
            old(self).wf(),
        ensures
            final(self).wf(),
            final(self)@ == old(self)@.remove(key@),
            waiters@ == waiting(old(self)@, key@),
    {
        let ghost before = *self;
        let owned = key.to_owned();
        match self.find(&owned) {
            Some(i) => {
                let flight = self.entries.remove(i);
                proof {
                    let after = before@.remove(key@);
                    assert(self.wf());
                    assert forall|k: Seq<char>| self@.contains_key(k) implies #[trigger] after.contains_key(k)
                        && after[k] == self@[k] by {
                        let j = self.position(k);
                        self.lemma_entry(j);
                        if j < i {
                            before.lemma_entry(j);
                        } else {
                            before.lemma_entry(j + 1);
                        }
                        before.lemma_entry(i as int);
                    }
                    assert forall|k: Seq<char>| #[trigger] after.contains_key(k) implies self@.contains_key(k) by {
                        let j = before.position(k);
                        before.lemma_entry(j);
                        if j < i {
                            self.lemma_entry(j);
                        } else {
                            self.lemma_entry(j - 1);
                        }
                    }
                    assert(self@ =~= after);
                }
                flight.waiters
            },
            None => {
                assert(self@ =~= before@.remove(key@));
                Vec::new()
            },
        }
    }

    /// Whether a fetch for `key` is in flight.
    pub fn contains(&self, key: &str) -> (r: bool)
        requires
            self.wf(),
        ensures
            r == self@.contains_key(key@),
    {
        let owned = key.to_owned();
        self.find(&owned).is_some()
    }
}

} // verus!
