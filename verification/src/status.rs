//! Values that are kept from one run to the next.

use vstd::prelude::*;
use crate::options::{text_or_empty, Options};
use crate::text::same_text;
use crate::text_map::TextMap;

verus! {

/// Values that are kept from one run to the next.
pub struct Status {
    pub values: TextMap<String>,
}

impl Default for Status {
    fn default() -> (r: Self)
        ensures
            r.values@ == Options::empty(),
    {
        Status { values: TextMap::new() }
    }
}

/// The value under a key, with the empty text where there is none.
pub open spec fn value_of(values: Options, k: Seq<char>) -> Seq<char> {
    if values.contains_key(k) {
        values[k]
    } else {
        Seq::empty()
    }
}

impl Status {
    /// The value under a key, with the empty text where there is none.
    pub fn get(&self, k: &str) -> (r: String)
        ensures
            r@ == value_of(self.values@, k@),
            self.values@.contains_key(k@) ==> r@ == self.values@[k@],
            !self.values@.contains_key(k@) ==> r@.len() == 0,
    {
        match self.values.get(k) {
            Some(v) => v.clone(),
            None => text_or_empty(None),
        }
    }

    /// Sets the value under a key. Tells whether there is something to store.
    pub fn set(&mut self, k: &str, v: String) -> (store: bool)
        ensures
            store == (value_of(old(self).values@, k@) != v@),
            final(self).values@ == (if store {
                old(self).values@.insert(k@, v@)
            } else {
                old(self).values@
            }),
    {
        let present = self.get(k);
        if same_text(present.as_str(), v.as_str()) {
            return false;
        }
        self.values.insert(k.to_owned(), v);
        true
    }
}

// ---------------------------------------------------------------------------------------------
// Laws
// ---------------------------------------------------------------------------------------------

/// A value that was set is read back, and the other values stay as they were.
pub proof fn law_value_is_read_back(values: Options, k: Seq<char>, v: Seq<char>, other: Seq<char>)
    ensures
        ({
            let after = if value_of(values, k) != v {
                values.insert(k, v)
            } else {
                values
            };
            value_of(after, k) == v && (other != k ==> value_of(after, other) == value_of(
                values,
                other,
            ))
        }),
{
}

/// A value that was never set is empty, and one that was put there is what was put there.
pub proof fn law_value_is_what_was_put_there(values: Options, k: Seq<char>, v: Seq<char>)
    ensures
        value_of(values.insert(k, v), k) == v,
        value_of(values.remove(k), k).len() == 0,
{
}

} // verus!
