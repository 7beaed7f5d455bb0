//! The query or form parameters of a request: names mapped to text.

use vstd::prelude::*;
use vstd::hash_map::StringHashMap;

verus! {

/// A mapping from parameter names to their values.
pub struct QueryParams {
    map: StringHashMap<String>,
}

impl View for QueryParams {
    type V = Map<Seq<char>, Seq<char>>;

    closed spec fn view(&self) -> Map<Seq<char>, Seq<char>> {
        self.map@.map_values(|value: String| value@)
    }
}

impl QueryParams {
    /// No parameters.
    pub fn new() -> (params: Self)
        ensures
            params@ == Map::<Seq<char>, Seq<char>>::empty(),
    {
        QueryParams { map: StringHashMap::new() }
    }

    /// Sets `key` to `value`; an earlier value of `key` is replaced.
    pub fn insert(&mut self, key: String, value: String)
        ensures
            final(self)@ == old(self)@.insert(key@, value@),
    {
        self.map.insert(key, value);
    }

    /// Whether no parameter is set.
    pub fn is_empty(&self) -> (empty: bool)
        ensures
            empty == self@.is_empty(),
    {
        self.map.is_empty()
    }

    /// Whether `key` is set.
    pub fn contains_key(&self, key: &str) -> (present: bool)
        ensures
            present == self@.contains_key(key@),
    {
        self.map.contains_key(key)
    }

    /// The value of `key`, if it is set.
    pub fn get(&self, key: &str) -> (value: Option<&String>)
        ensures
            match value {
                Some(text) => self@.contains_key(key@) && text@ == self@[key@],
                None => !self@.contains_key(key@),
            },
    {
        self.map.get(key)
    }
}

} // verus!
