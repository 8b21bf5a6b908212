//! Parsed documents, kept by the path of the file they were read from.

use vstd::hash_map::StringHashMap;
use vstd::prelude::*;
use crate::json::{json_of, Json};

verus! {

/// The documents parsed so far, each under the path of its file.
///
/// A document stays as it was when it was first stored: nothing is ever taken
/// out or replaced, and a document comes in only when an invocation needs a
/// file for the first time.
pub struct JsonCache {
    documents: StringHashMap<serde_json::Value>,
}

impl View for JsonCache {
    type V = Map<Seq<char>, Json>;

    closed spec fn view(&self) -> Map<Seq<char>, Json> {
        self.documents@.map_values(|document: serde_json::Value| json_of(document))
    }
}

impl JsonCache {
    /// A cache that holds no document.
    pub fn new() -> (cache: Self)
        ensures
            cache@ == Map::<Seq<char>, Json>::empty(),
    {
        let cache = JsonCache { documents: StringHashMap::new() };
        assert(cache@ =~= Map::<Seq<char>, Json>::empty());
        cache
    }

    /// Whether a document is stored under `path`.
    pub fn contains(&self, path: &str) -> (found: bool)
        ensures
            found == self@.contains_key(path@),
    {
        self.documents.contains_key(path)
    }

    /// The document stored under `path`.
    pub fn get(&self, path: &str) -> (found: Option<&serde_json::Value>)
        ensures
            match found {
                Some(document) => self@.contains_key(path@) && json_of(*document) == self@[path@],
                None => !self@.contains_key(path@),
            },
    {
        self.documents.get(path)
    }

    /// Stores `document` under a path that holds none yet.
    pub(crate) fn insert(&mut self, path: String, document: serde_json::Value)
        requires
            !old(self)@.contains_key(path@),
        ensures
            final(self)@ == old(self)@.insert(path@, json_of(document)),
    {
        self.documents.insert(path, document);
        assert(self@ =~= old(self)@.insert(path@, json_of(document)));
    }
}

} // verus!
