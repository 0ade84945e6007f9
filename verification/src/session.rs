//! The open-or-closed state of a database handle.
use vstd::prelude::*;

use crate::error::Error;

verus! {

/// Holds an open database until it is closed; every use of a closed one is refused.
#[derive(Debug)]
pub struct IdbSlot<T> {
    idb: Option<T>,
}

impl<T> IdbSlot<T> {
    /// The database held, or none once closed.
    pub closed spec fn view(&self) -> Option<T> {
        self.idb
    }

    /// A slot holding the freshly opened database `idb`.
    pub fn new(idb: T) -> (r: IdbSlot<T>)
        ensures
            r@ == Some(idb),
    {
        IdbSlot { idb: Some(idb) }
    }

    /// Closes the database: it is dropped, and the slot refuses every later use. Closing a
    /// closed slot changes nothing.
    pub fn close(&mut self)
        ensures
            final(self)@ is None,
    {
        self.idb = None;
    }

    /// Whether the database is still open.
    pub fn is_open(&self) -> (r: bool)
        ensures
            r == self@ is Some,
    {
        self.idb.is_some()
    }

    /// The open database, or `DatabaseClosed`.
    pub fn get(&self) -> (r: Result<&T, Error>)
        ensures
            self@ matches Some(t) ==> r matches Ok(x) && *x == t,
            self@ is None ==> r matches Err(Error::DatabaseClosed),
    {
        match &self.idb {
            Some(t) => Ok(t),
            None => Err(Error::DatabaseClosed),
        }
    }

    /// The open database for changes, or `DatabaseClosed` (and the slot stays closed).
    pub fn get_mut(&mut self) -> (r: Result<&mut T, Error>)
        ensures
            old(self)@ matches Some(t) ==> r matches Ok(x) && *x == t && final(self)@ == Some(
                *final(x),
            ),
            old(self)@ is None ==> (r matches Err(Error::DatabaseClosed)),
            old(self)@ is None ==> final(self)@ is None,
    {
        match self.idb.as_mut() {
            Some(t) => Ok(t),
            None => Err(Error::DatabaseClosed),
        }
    }
}

} // verus!
