//! The store: the one place where records are kept.

use vstd::prelude::*;
use rusqlite::Connection;
use crate::error::StoreError;
use crate::records::{inserted, lookup, no_records, preserved, Records};
use crate::sqlite::{
    create_table, insert_object, open_in_memory, schema_is_ours, select_object, table_rows,
};

verus! {

/// Decides what a put has to do, given what the lookup of its key found: a
/// key that is taken needs nothing more and the put has succeeded, a key
/// that is free needs the insert, and a lookup that failed ends the put with
/// its error.
pub fn needs_insert(found: Result<Option<String>, StoreError>) -> (next: Result<bool, StoreError>)
    ensures
        match found {
            Ok(Some(_)) => next == Ok::<bool, StoreError>(false),
            Ok(None) => next == Ok::<bool, StoreError>(true),
            Err(e) => next == Err::<bool, StoreError>(e),
        },
{
    match found {
        Ok(Some(_)) => Ok(false),
        Ok(None) => Ok(true),
        Err(e) => Err(e),
    }
}

/// A store of records, kept in the table `objects` of a SQLite database.
pub struct Store {
    conn: Connection,
}

impl View for Store {
    type V = Records;

    /// The records in the store.
    closed spec fn view(&self) -> Records {
        table_rows(self.conn)
    }
}

impl Store {
    /// The store is well formed: its database has no table of records but
    /// the store's own. Every store that [`Store::open_in_memory`] opened
    /// is, whatever was done with it since.
    pub closed spec fn wf(&self) -> bool {
        schema_is_ours(self.conn)
    }

    /// Opens a new store in memory, with its table made: it holds nothing.
    pub fn open_in_memory() -> (r: Result<Store, StoreError>)
        ensures
            r matches Ok(store) ==> store.wf() && store.has_table() && store@ == no_records(),
            r matches Err(e) ==> e == StoreError::Open || e == StoreError::Schema,
    {
        match open_in_memory() {
            Err(_) => Err(StoreError::Open),
            Ok(conn) => {
                let mut store = Store { conn };
                match store.init() {
                    Ok(()) => Ok(store),
                    Err(e) => Err(e),
                }
            },
        }
    }

    /// Makes the table if it is not there yet, so that it is there after
    /// success; a failure leaves it there or missing, as it was. Safe at
    /// every start: no record is touched.
    pub fn init(&mut self) -> (r: Result<(), StoreError>)
        requires
            old(self).wf(),
        ensures
            final(self).wf(),
            final(self)@ == old(self)@,
            r is Ok ==> final(self).has_table(),
            r is Err ==> final(self).has_table() == old(self).has_table(),
            r matches Err(e) ==> e == StoreError::Schema,
    {
        match create_table(&mut self.conn) {
            Ok(_) => Ok(()),
            Err(_) => Err(StoreError::Schema),
        }
    }

    /// Looks `key` up. An answer is the truth about the store: the document
    /// kept under `key`, or `None` where there is none.
    pub fn get(&self, key: &str) -> (r: Result<Option<String>, StoreError>)
        requires
            self.wf(),
        ensures
            r matches Ok(Some(value)) ==> lookup(self@, key@) == Some(value@),
            r matches Ok(None) ==> lookup(self@, key@) is None,
            r matches Err(e) ==> e == StoreError::Read,
    {
        match select_object(&self.conn, key) {
            Ok(found) => Ok(found),
            Err(_) => Err(StoreError::Read),
        }
    }

    /// Keeps `value` under `key` unless the key has a document already, in
    /// which case nothing changes and the call still succeeds. A call that
    /// fails has changed nothing. The key is looked up first; only a key
    /// that is free is written, so a write never fails on a key that is
    /// taken.
    pub fn put(&mut self, key: &str, value: &str) -> (r: Result<(), StoreError>)
        requires
            old(self).wf(),
        ensures
            final(self).wf(),
            final(self).has_table() == old(self).has_table(),
            r is Ok ==> final(self)@ == inserted(old(self)@, key@, value@),
            r is Err ==> final(self)@ == old(self)@,
            preserved(old(self)@, final(self)@),
            r matches Err(e) ==> e == StoreError::Read || e == StoreError::Write,
            r == Err::<(), StoreError>(StoreError::Write) ==> !old(self)@.contains_key(key@),
    {
        let found = self.get(key);
        match needs_insert(found) {
            Err(e) => Err(e),
            Ok(false) => Ok(()),
            Ok(true) => match insert_object(&mut self.conn, key, value) {
                Ok(_) => Ok(()),
                Err(_) => Err(StoreError::Write),
            },
        }
    }

    /// Whether the table of records has been made.
    pub closed spec fn has_table(&self) -> bool {
        crate::sqlite::has_table(self.conn)
    }
}

} // verus!
