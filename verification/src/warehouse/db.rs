//! The storage engine: a map from string keys to entries of bytes.

use bytes::Bytes;
use crate::buffers::bytes_contents;
use crate::protocol::ServerError;
use crate::warehouse::storage_map::found_contents;
use crate::warehouse::storage_map::lookup;
use crate::warehouse::storage_map::StorageView;
use vstd::hash_map::StringHashMap;
use vstd::prelude::*;

verus! {

/// One stored value.
struct Entry {
    data: Bytes,
}

/// The storage engine. A read borrows the engine, a write borrows it
/// exclusively, and each works on the whole map: a read finds an entry as one
/// write left it, or nothing.
pub struct Db {
    hashmap: StringHashMap<Entry>,
}

impl View for Db {
    type V = StorageView;

    closed spec fn view(&self) -> StorageView {
        self.hashmap@.map_values(|entry: Entry| bytes_contents(entry.data))
    }
}

impl Db {
    /// An engine that holds nothing.
    pub fn new() -> (db: Self)
        ensures
            db@ == Map::<Seq<char>, Seq<u8>>::empty(),
    {
        let db = Db { hashmap: StringHashMap::new() };
        assert(db@ =~= Map::<Seq<char>, Seq<u8>>::empty());
        db
    }

    /// Reads the value stored under `key`: a second handle on its bytes, or
    /// nothing where the key was never written.
    pub fn get(&self, key: &str) -> (found: Option<Bytes>)
        ensures
            found_contents(found) == lookup(self@, key@),
    {
        match self.hashmap.get(key) {
            Some(entry) => Some(entry.data.clone()),
            None => None,
        }
    }

    /// Stores `val` under `key`, replacing what was stored there before and
    /// leaving every other key as it was. Nothing makes a write fail; the
    /// result is there for limits to come.
    pub fn set(&mut self, key: &str, val: Bytes) -> (result: Result<(), ServerError>)
        ensures
            result is Ok,
            final(self)@ == old(self)@.insert(key@, bytes_contents(val)),
    {
        let entry = Entry { data: val };
        self.hashmap.insert(key.to_owned(), entry);
        assert(self@ =~= old(self)@.insert(key@, bytes_contents(val)));
        Ok(())
    }
}

} // verus!
