//! An in-memory cache of messages keyed by their numeric id.
//!
//! The cache only remembers what it is given: looking a key up never
//! invents an entry.  The caller that misses fetches the row from its
//! backing store and hands it to [`MessageCache::store`]; the cache then
//! answers for that key from memory.

use std::collections::HashMap;
use vstd::prelude::*;

verus! {

/// One message row: its id and its text.
pub struct HelloJson {
    /// The row's key.
    pub id: i64,
    /// The message itself.
    pub message: String,
}

/// A map from id to the row last stored under that id.
pub struct MessageCache {
    messages: HashMap<i64, HelloJson>,
}

impl View for MessageCache {
    type V = Map<i64, HelloJson>;

    closed spec fn view(&self) -> Map<i64, HelloJson> {
        self.messages@
    }
}

impl MessageCache {
    /// An empty cache.
    pub fn new() -> (c: MessageCache)
        ensures
            c@ == Map::<i64, HelloJson>::empty(),
    {
        MessageCache { messages: HashMap::new() }
    }

    /// The row stored under `id`, if one is: `None` exactly when the
    /// cache has never been given a row with this id.
    pub fn lookup(&self, id: i64) -> (r: Option<&HelloJson>)
        ensures
            match r {
                Some(row) => self@.contains_key(id) && *row == self@[id],
                None => !self@.contains_key(id),
            },
    {
        self.messages.get(&id)
    }

    /// Remember `row` under its own id, replacing any earlier row with
    /// the same id.
    pub fn store(&mut self, row: HelloJson)
        ensures
            final(self)@ == old(self)@.insert(row.id, row),
    {
        let id = row.id;
        self.messages.insert(id, row);
    }

    /// How many ids the cache holds a row for.
    pub fn len(&self) -> (n: usize)
        ensures
            n == self@.dom().len(),
    {
        self.messages.len()
    }
}

} // verus!
