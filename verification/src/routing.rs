//! Which index a message type has. The indexes of all types are kept by
//! the caller, one after the other; the registry maps the identity of a
//! type to the place of its index, so that a value whose type is known
//! only at run time finds the index of its own type, or none.

use vstd::prelude::*;
use std::collections::HashMap;

verus! {

broadcast use vstd::std_specs::hash::group_hash_axioms;

/// The identity of a message type.
pub type MessageTypeKey = u64;

/// The places of the indexes, by message type. The places are the
/// numbers below the number of types, each given to one type.
pub struct TypeRegistry {
    slots: HashMap<MessageTypeKey, usize>,
}

impl View for TypeRegistry {
    type V = Map<MessageTypeKey, usize>;

    closed spec fn view(&self) -> Map<MessageTypeKey, usize> {
        self.slots@
    }
}

/// Whether every type has a place of its own below the number of types.
pub open spec fn places_apart(places: Map<MessageTypeKey, usize>) -> bool {
    &&& places.dom().finite()
    &&& forall|key: MessageTypeKey| #[trigger]
        places.contains_key(key) ==> places[key] < places.len()
    &&& forall|a: MessageTypeKey, b: MessageTypeKey|
        places.contains_key(a) && places.contains_key(b) && a != b ==> #[trigger] places[a]
            != #[trigger] places[b]
}

/// Where a value of the type `key` goes: to the place of its type, or
/// nowhere when its type has no index.
pub open spec fn route(places: Map<MessageTypeKey, usize>, key: MessageTypeKey) -> Option<usize> {
    if places.contains_key(key) {
        Some(places[key])
    } else {
        None
    }
}

impl TypeRegistry {
    /// Every type has a place of its own.
    #[verifier::type_invariant]
    closed spec fn in_order(&self) -> bool {
        places_apart(self.slots@)
    }

    /// No type has an index.
    pub fn new() -> (registry: Self)
        ensures
            registry@ == Map::<MessageTypeKey, usize>::empty(),
    {
        TypeRegistry { slots: HashMap::new() }
    }

    /// The number of types that have an index.
    pub fn len(&self) -> (n: usize)
        ensures
            n == self@.len(),
    {
        self.slots.len()
    }

    /// The place of the index of a type. A value is forwarded to the
    /// index at this place and to no other; a value whose type has no
    /// index is dropped.
    pub fn slot_of(&self, key: MessageTypeKey) -> (slot: Option<usize>)
        ensures
            places_apart(self@),
            slot == route(self@, key),
            slot matches Some(i) ==> i < self@.len(),
    {
        proof {
            use_type_invariant(self);
        }
        match self.slots.get(&key) {
            Some(slot) => Some(*slot),
            None => None,
        }
    }

    /// The place of the index of a type, which is given the next free place
    /// when it has none. The second result tells whether the place is
    /// new, so that the caller adds an empty index there.
    pub fn slot_or_insert(&mut self, key: MessageTypeKey) -> (out: (usize, bool))
        ensures
            places_apart(final(self)@),
            route(final(self)@, key) == Some(out.0),
            out.1 == !old(self)@.contains_key(key),
            out.1 ==> final(self)@ == old(self)@.insert(key, out.0) && out.0 == old(self)@.len(),
            !out.1 ==> final(self)@ == old(self)@,
    {
        proof {
            use_type_invariant(&*self);
        }
        match self.slot_of(key) {
            Some(i) => (i, false),
            None => {
                let slot = self.slots.len();
                // The places are taken out, extended and put back at once,
                // so that the registry is never seen out of order.
                let mut slots: HashMap<MessageTypeKey, usize> = HashMap::new();
                std::mem::swap(&mut self.slots, &mut slots);
                slots.insert(key, slot);
                self.slots = slots;
                (slot, true)
            },
        }
    }
}

/// Values of different types never reach the same index: two types with
/// an index have different places, and a type without one has none.
pub proof fn lemma_types_are_apart(
    places: Map<MessageTypeKey, usize>,
    a: MessageTypeKey,
    b: MessageTypeKey,
)
    requires
        places_apart(places),
        a != b,
    ensures
        route(places, a) is Some && route(places, b) is Some ==> route(places, a) != route(
            places,
            b,
        ),
        route(places, a) matches Some(i) ==> i < places.len(),
        !places.contains_key(a) ==> route(places, a) is None,
{
}

} // verus!
