//! The mathematical model of the stored records: a map from organization id
//! to document, with lookup and insert-if-absent.

use vstd::prelude::*;

verus! {

/// The records of a store: at most one document per organization id.
pub type Records = Map<Seq<char>, Seq<char>>;

/// No record at all.
pub open spec fn no_records() -> Records {
    Map::empty()
}

/// The document kept under `key`, if there is one.
pub open spec fn lookup(records: Records, key: Seq<char>) -> Option<Seq<char>> {
    if records.contains_key(key) {
        Some(records[key])
    } else {
        None
    }
}

/// The records after `value` was offered for `key`: the first document kept
/// under a key stays, a later one is dropped.
pub open spec fn inserted(records: Records, key: Seq<char>, value: Seq<char>) -> Records {
    if records.contains_key(key) {
        records
    } else {
        records.insert(key, value)
    }
}

/// Every record of `before` is still in `after`, with the same document.
pub open spec fn preserved(before: Records, after: Records) -> bool {
    forall|k: Seq<char>| #[trigger]
        before.contains_key(k) ==> after.contains_key(k) && after[k] == before[k]
}

/// Round trip: a document put under a key is what a lookup of that key then
/// finds, unless the key held another document before, which then stays.
pub proof fn law_round_trip(records: Records, key: Seq<char>, value: Seq<char>)
    requires
        records.contains_key(key) ==> records[key] == value,
    ensures
        lookup(inserted(records, key, value), key) == Some(value),
{
}

/// Whatever is put under a key, a lookup of that key then finds the document
/// that was there first: the earlier one if the key was taken, else the new
/// one.
pub proof fn law_first_put_wins(records: Records, key: Seq<char>, value: Seq<char>)
    ensures
        lookup(inserted(records, key, value), key) == Some(
            if records.contains_key(key) {
                records[key]
            } else {
                value
            },
        ),
{
}

/// A put to a key that is taken changes nothing.
pub proof fn law_put_is_idempotent(records: Records, key: Seq<char>, value: Seq<char>, again: Seq<char>)
    ensures
        inserted(inserted(records, key, value), key, again) == inserted(records, key, value),
{
}

/// A put never changes or removes a record, and leaves every other key as
/// it was.
pub proof fn law_put_preserves(records: Records, key: Seq<char>, value: Seq<char>)
    ensures
        preserved(records, inserted(records, key, value)),
        forall|k: Seq<char>|
            k != key ==> lookup(inserted(records, key, value), k) == lookup(records, k),
{
}

} // verus!
