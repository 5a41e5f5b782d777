use orgcache::error::ResolveError;
use orgcache::resolver::{decide, outcome, Completion, Resolver, Step};
use orgcache::flights::Flights;
use orgcache::source::Fetched;
use orgcache::error::StoreError;
use orgcache::store::Store;

const DOC: &str = "{\"organisasjonsnummer\":\"999888777\"}";

fn empty_resolver() -> Resolver {
    Resolver::new(Store::open_in_memory().unwrap())
}

fn document(text: &str) -> Fetched {
    Fetched::Document(text.to_string())
}

/// Serves one request the way a single caller would: asks the resolver and,
/// where it is told to fetch, asks `registry` and reports the answer.
fn serve(
    resolver: &mut Resolver,
    id: &str,
    caller: u64,
    registry: &dyn Fn(&str) -> Fetched,
    fetches: &mut u32,
) -> Result<String, ResolveError> {
    match resolver.resolve(id, caller) {
        Step::Ready(outcome) => outcome,
        Step::Fetch => {
            *fetches += 1;
            resolver.complete(id, registry(id)).outcome
        }
        Step::Wait => panic!("a single caller never waits"),
    }
}

fn registry_with_one_org(id: &str) -> Fetched {
    if id == "999888777" {
        Fetched::Document(DOC.to_string())
    } else {
        Fetched::NotFound
    }
}

#[test]
fn miss_then_hit() {
    let mut resolver = empty_resolver();
    let mut fetches = 0;
    let first = serve(&mut resolver, "999888777", 1, &registry_with_one_org, &mut fetches);
    assert_eq!(first, Ok(DOC.to_string()));
    assert_eq!(fetches, 1);
    assert_eq!(resolver.store().get("999888777"), Ok(Some(DOC.to_string())));
    let second = serve(&mut resolver, "999888777", 2, &registry_with_one_org, &mut fetches);
    assert_eq!(second, Ok(DOC.to_string()));
    assert_eq!(fetches, 1);
}

#[test]
fn not_found_is_reported_and_not_stored() {
    let mut resolver = empty_resolver();
    let mut fetches = 0;
    let answer = serve(&mut resolver, "000000000", 1, &registry_with_one_org, &mut fetches);
    assert_eq!(answer, Err(ResolveError::NotFound));
    assert_eq!(fetches, 1);
    assert_eq!(resolver.store().get("000000000"), Ok(None));
}

#[test]
fn a_hit_is_answered_from_the_store_without_a_fetch() {
    let mut store = Store::open_in_memory().unwrap();
    store.put("123456789", "{\"navn\":\"A\"}").unwrap();
    let mut resolver = Resolver::new(store);
    for caller in 0..5 {
        assert_eq!(
            resolver.resolve("123456789", caller),
            Step::Ready(Ok("{\"navn\":\"A\"}".to_string()))
        );
        assert!(!resolver.in_flight("123456789"));
    }
    assert_eq!(resolver.store().get("123456789"), Ok(Some("{\"navn\":\"A\"}".to_string())));
}

#[test]
fn concurrent_misses_share_one_fetch() {
    let mut resolver = empty_resolver();
    let callers: Vec<u64> = vec![100, 101, 102, 103, 104, 105, 106, 107];
    let mut told_to_fetch = Vec::new();
    let mut told_to_wait = Vec::new();
    for caller in &callers {
        match resolver.resolve("999888777", *caller) {
            Step::Fetch => told_to_fetch.push(*caller),
            Step::Wait => told_to_wait.push(*caller),
            Step::Ready(outcome) => panic!("unexpected answer {:?}", outcome),
        }
    }
    assert_eq!(told_to_fetch, vec![100]);
    assert_eq!(told_to_wait, vec![101, 102, 103, 104, 105, 106, 107]);
    assert!(resolver.in_flight("999888777"));
    assert_eq!(resolver.store().get("999888777"), Ok(None));

    let done = resolver.complete("999888777", document(DOC));
    assert_eq!(
        done,
        Completion {
            outcome: Ok(DOC.to_string()),
            waiters: vec![101, 102, 103, 104, 105, 106, 107],
            store_error: None,
        }
    );
    assert!(!resolver.in_flight("999888777"));
    assert_eq!(resolver.store().get("999888777"), Ok(Some(DOC.to_string())));
    assert_eq!(resolver.resolve("999888777", 108), Step::Ready(Ok(DOC.to_string())));
}

#[test]
fn waiters_of_a_failed_fetch_get_the_failure() {
    let mut resolver = empty_resolver();
    assert_eq!(resolver.resolve("1", 1), Step::Fetch);
    assert_eq!(resolver.resolve("1", 2), Step::Wait);
    assert_eq!(resolver.resolve("1", 3), Step::Wait);
    let done = resolver.complete("1", Fetched::Failed);
    assert_eq!(
        done,
        Completion { outcome: Err(ResolveError::Fetch), waiters: vec![2, 3], store_error: None }
    );
}

#[test]
fn not_found_is_retried_by_the_next_request() {
    let mut resolver = empty_resolver();
    assert_eq!(resolver.resolve("000000000", 1), Step::Fetch);
    let done = resolver.complete("000000000", Fetched::NotFound);
    assert_eq!(done.outcome, Err(ResolveError::NotFound));
    assert_eq!(done.waiters, Vec::<u64>::new());
    assert_eq!(done.store_error, None);
    assert_eq!(resolver.store().get("000000000"), Ok(None));
    assert!(!resolver.in_flight("000000000"));
    assert_eq!(resolver.resolve("000000000", 2), Step::Fetch);
    let done = resolver.complete("000000000", document("{\"ny\":true}"));
    assert_eq!(done.outcome, Ok("{\"ny\":true}".to_string()));
    assert_eq!(resolver.resolve("000000000", 3), Step::Ready(Ok("{\"ny\":true}".to_string())));
}

#[test]
fn a_failed_fetch_writes_nothing() {
    let mut resolver = empty_resolver();
    assert_eq!(resolver.resolve("5", 1), Step::Fetch);
    let done = resolver.complete("5", Fetched::Failed);
    assert_eq!(done.outcome, Err(ResolveError::Fetch));
    assert_eq!(resolver.store().get("5"), Ok(None));
    assert_eq!(resolver.resolve("5", 2), Step::Fetch);
}

#[test]
fn a_timed_out_fetch_writes_nothing_and_clears_the_flight() {
    let mut resolver = empty_resolver();
    assert_eq!(resolver.resolve("5", 1), Step::Fetch);
    assert_eq!(resolver.resolve("5", 2), Step::Wait);
    let done = resolver.complete("5", Fetched::TimedOut);
    assert_eq!(
        done,
        Completion { outcome: Err(ResolveError::Timeout), waiters: vec![2], store_error: None }
    );
    assert_eq!(resolver.store().get("5"), Ok(None));
    assert!(!resolver.in_flight("5"));
    assert_eq!(resolver.resolve("5", 3), Step::Fetch);
}

#[test]
fn fetches_of_different_ids_are_independent() {
    let mut resolver = empty_resolver();
    assert_eq!(resolver.resolve("a", 1), Step::Fetch);
    assert_eq!(resolver.resolve("b", 2), Step::Fetch);
    assert_eq!(resolver.resolve("a", 3), Step::Wait);
    assert_eq!(resolver.resolve("b", 4), Step::Wait);
    let done_b = resolver.complete("b", Fetched::NotFound);
    assert_eq!(done_b.waiters, vec![4]);
    assert!(resolver.in_flight("a"));
    assert_eq!(resolver.resolve("a", 5), Step::Wait);
    let done_a = resolver.complete("a", document("{}"));
    assert_eq!(done_a.waiters, vec![3, 5]);
    assert_eq!(done_a.outcome, Ok("{}".to_string()));
    assert_eq!(resolver.store().get("a"), Ok(Some("{}".to_string())));
    assert_eq!(resolver.store().get("b"), Ok(None));
}

#[test]
fn a_record_is_never_overwritten_by_a_later_fetch() {
    let mut store = Store::open_in_memory().unwrap();
    store.put("9", "{\"v\":1}").unwrap();
    let mut resolver = Resolver::new(store);
    let done = resolver.complete("9", document("{\"v\":2}"));
    assert_eq!(done.outcome, Ok("{\"v\":2}".to_string()));
    assert_eq!(done.store_error, None);
    assert_eq!(resolver.store().get("9"), Ok(Some("{\"v\":1}".to_string())));
    assert_eq!(resolver.resolve("9", 1), Step::Ready(Ok("{\"v\":1}".to_string())));
}

#[test]
fn the_document_is_stored_as_it_was_fetched() {
    let mut resolver = empty_resolver();
    let text = " { \"a\" : [ 1, 2 ],\n \"b\":\"\u{e6}\u{f8}\u{e5}\" } ";
    assert_eq!(resolver.resolve("x", 1), Step::Fetch);
    assert_eq!(resolver.complete("x", document(text)).outcome, Ok(text.to_string()));
    assert_eq!(resolver.store().get("x"), Ok(Some(text.to_string())));
}

#[test]
fn each_kind_of_fetch_has_its_answer() {
    assert_eq!(outcome(document("[]")), Ok("[]".to_string()));
    assert_eq!(outcome(Fetched::NotFound), Err(ResolveError::NotFound));
    assert_eq!(outcome(Fetched::Failed), Err(ResolveError::Fetch));
    assert_eq!(outcome(Fetched::TimedOut), Err(ResolveError::Timeout));
}

#[test]
fn a_store_failure_is_the_answer_and_opens_no_flight() {
    let mut flights = Flights::new();
    for e in [StoreError::Open, StoreError::Schema, StoreError::Read, StoreError::Write] {
        assert_eq!(
            decide(&mut flights, Err(e), "7", 1),
            Step::Ready(Err(ResolveError::Store(e)))
        );
        assert!(!flights.contains("7"));
    }
}

#[test]
fn a_found_document_is_the_answer_and_opens_no_flight() {
    let mut flights = Flights::new();
    assert_eq!(
        decide(&mut flights, Ok(Some("{\"a\":1}".to_string())), "7", 1),
        Step::Ready(Ok("{\"a\":1}".to_string()))
    );
    assert!(!flights.contains("7"));
}

#[test]
fn a_miss_opens_a_flight_or_joins_the_open_one() {
    let mut flights = Flights::new();
    assert_eq!(decide(&mut flights, Ok(None), "7", 1), Step::Fetch);
    assert_eq!(decide(&mut flights, Ok(None), "7", 2), Step::Wait);
    assert_eq!(decide(&mut flights, Ok(None), "8", 3), Step::Fetch);
    assert_eq!(flights.land("7"), vec![2]);
    assert_eq!(flights.land("8"), Vec::<u64>::new());
}
