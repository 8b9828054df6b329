//! A cell for state that is derived from a key and made anew when the key
//! changes.

use vstd::prelude::*;
use vstd::std_specs::cmp::PartialEqSpec;

verus! {

/// State of the view that is derived from other data. The cell holds the
/// key that the state was made for beside the state; the state is stale, and
/// made again, when it is asked for under another key. A key should be
/// cheap to compare.
pub struct StateCell<K, V> {
    state: Option<(K, V)>,
}

impl<K, V> StateCell<K, V> {
    /// The key that the state was made for, if the cell holds any state.
    pub closed spec fn key(&self) -> Option<K> {
        match self.state {
            Some(pair) => Some(pair.0),
            None => None,
        }
    }

    /// The state that the cell holds, if it holds any.
    pub closed spec fn value(&self) -> Option<V> {
        match self.state {
            Some(pair) => Some(pair.1),
            None => None,
        }
    }

    /// Two cells hold the same.
    pub open spec fn same_as(&self, other: &StateCell<K, V>) -> bool {
        self.key() == other.key() && self.value() == other.value()
    }

    /// An empty cell.
    pub fn new() -> (cell: StateCell<K, V>)
        ensures
            cell.key() is None,
            cell.value() is None,
    {
        StateCell { state: None }
    }

    /// The state for `key`. Where the cell holds state for an equal key that
    /// state is kept; where it is empty or holds state for another key,
    /// `init` makes the state anew.
    pub fn get_or_update<F: FnOnce() -> V>(&mut self, key: K, init: F) -> (value: &V) where
        K: PartialEq,

        requires
            init.requires(()),
        ensures
            final(self).value() == Some(*value),
            final(self).key() is Some,
            final(self).same_as(old(self)) || (final(self).key() == Some(key) && init.ensures(
                (),
                *value,
            )),
            K::obeys_eq_spec() && old(self).key() is Some && old(self).key()->0.eq_spec(&key)
                ==> final(self).same_as(old(self)),
            K::obeys_eq_spec() && !(old(self).key() is Some && old(self).key()->0.eq_spec(&key))
                ==> final(self).key() == Some(key) && init.ensures((), *value),
    {
        let fresh = match &self.state {
            Some(state) => !(state.0 == key),
            None => true,
        };
        if fresh {
            self.state = Some((key, init()));
        }
        match &self.state {
            Some(state) => &state.1,
            None => vstd::pervasive::unreached(),
        }
    }

    /// The state that the cell holds, if it holds any.
    pub fn get(&self) -> (value: Option<&V>)
        ensures
            match value {
                Some(v) => self.value() == Some(*v),
                None => self.value() is None,
            },
    {
        match &self.state {
            Some(state) => Some(&state.1),
            None => None,
        }
    }

    /// The state that the cell holds, to be changed in place. The key stays
    /// as it is.
    pub fn get_mut(&mut self) -> (value: Option<&mut V>)
        ensures
            match value {
                Some(v) => {
                    &&& old(self).value() == Some(*v)
                    &&& final(self).value() == Some(*final(v))
                    &&& final(self).key() == old(self).key()
                },
                None => old(self).value() is None && final(self).same_as(old(self)),
            },
    {
        match &mut self.state {
            Some(state) => Some(&mut state.1),
            None => None,
        }
    }
}

impl<K, V> Default for StateCell<K, V> {
    fn default() -> (cell: StateCell<K, V>)
        ensures
            cell.key() is None,
            cell.value() is None,
    {
        StateCell::new()
    }
}

} // verus!
