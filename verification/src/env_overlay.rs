//! The environment variables that a command string sets for its command.

use crate::text_map::{distinct_keys, has_key, mapping, TextMap};
use vstd::prelude::*;

verus! {

/// The mapping from names to the characters of their values.
pub open spec fn value_texts(vars: Map<Seq<char>, String>) -> Map<Seq<char>, Seq<char>> {
    Map::new(|name: Seq<char>| vars.contains_key(name), |name: Seq<char>| vars[name]@)
}

/// The environment variables that one command adds to what it inherits.
/// Each name occurs once. Its view maps each name to its value.
#[derive(Debug)]
pub struct EnvOverlay {
    vars: TextMap<String>,
}

impl View for EnvOverlay {
    type V = Map<Seq<char>, Seq<char>>;

    closed spec fn view(&self) -> Map<Seq<char>, Seq<char>> {
        value_texts(self.vars@)
    }
}

impl EnvOverlay {
    /// The overlay that adds nothing.
    pub fn new() -> (overlay: Self)
        ensures
            overlay@ == Map::<Seq<char>, Seq<char>>::empty(),
    {
        let overlay = EnvOverlay { vars: TextMap::new() };
        assert(overlay@ =~= Map::<Seq<char>, Seq<char>>::empty());
        overlay
    }

    /// Whether the overlay adds nothing.
    pub fn is_empty(&self) -> (empty: bool)
        ensures
            empty == (self@ == Map::<Seq<char>, Seq<char>>::empty()),
    {
        let empty = self.vars.is_empty();
        proof {
            if empty {
                assert(self@ =~= Map::<Seq<char>, Seq<char>>::empty());
            } else {
                assert(!(self.vars@ =~= Map::<Seq<char>, String>::empty()));
                let name = choose|name: Seq<char>| self.vars@.contains_key(name);
                assert(self@.contains_key(name));
            }
        }
        empty
    }

    /// Gives the variable `name` the value `value`, in place of any value
    /// it had.
    pub fn set(&mut self, name: String, value: String)
        ensures
            final(self)@ == old(self)@.insert(name@, value@),
    {
        self.vars.insert(name, value);
        assert(self@ =~= old(self)@.insert(name@, value@));
    }

    /// The value of the variable `name`, if the overlay sets it.
    pub fn get(&self, name: &str) -> (value: Option<&String>)
        ensures
            match value {
                Some(v) => self@.contains_key(name@) && v@ == self@[name@],
                None => !self@.contains_key(name@),
            },
    {
        self.vars.get(name)
    }

    /// The variables as pairs of name and value, each name once: every
    /// pair gives a variable with its value, and every variable has its pair.
    pub fn pairs(&self) -> (list: &Vec<(String, String)>)
        ensures
            distinct_keys(list@),
            self@ == value_texts(mapping(list@)),
            forall|i: int|
                0 <= i < list@.len() ==> self@.contains_key(#[trigger] list@[i].0@)
                    && self@[list@[i].0@] == list@[i].1@,
            forall|name: Seq<char>| #[trigger] self@.contains_key(name) ==> has_key(list@, name),
    {
        self.vars.entries()
    }
}

} // verus!
