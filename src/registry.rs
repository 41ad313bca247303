//! The listener registry: slot identifier to listener.

use std::collections::HashMap;
use vstd::prelude::*;

verus! {

broadcast use vstd::std_specs::hash::group_hash_axioms;

/// Maps each bound slot identifier to its listener.
pub struct ListenerRegistry<L> {
    map: HashMap<u32, L>,
}

impl<L> View for ListenerRegistry<L> {
    type V = Map<u32, L>;

    closed spec fn view(&self) -> Map<u32, L> {
        self.map@
    }
}

impl<L> ListenerRegistry<L> {
    pub fn new() -> (r: Self)
        ensures
            r@ == Map::<u32, L>::empty(),
    {
        ListenerRegistry { map: HashMap::new() }
    }

    /// Binds `id` to `listener`, replacing any earlier binding of `id`.
    pub fn insert(&mut self, id: u32, listener: L)
        ensures
            final(self)@ == old(self)@.insert(id, listener),
    {
        self.map.insert(id, listener);
    }

    /// The listener bound to `id`, or `None` when nothing is bound there.
    pub fn resolve(&self, id: u32) -> (r: Option<&L>)
        ensures
            match r {
                Some(l) => self@.contains_key(id) && *l == self@[id],
                None => !self@.contains_key(id),
            },
    {
        self.map.get(&id)
    }
}

} // verus!
