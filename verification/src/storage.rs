//! Component storage.
//!
//! An entity is a number. Each kind of component is stored in a vector of its
//! own, indexed by entity: slot `i` holds `Some(c)` where entity `i` has the
//! component `c`, and `None`, or no slot at all, where it has none. A system
//! visits the entities that have every component it needs.

use vstd::prelude::*;

verus! {

/// Whether `entity` has a component in both storages.
pub open spec fn joined<A, B>(first: Seq<Option<A>>, second: Seq<Option<B>>, entity: int) -> bool {
    &&& 0 <= entity < first.len()
    &&& entity < second.len()
    &&& first[entity] is Some
    &&& second[entity] is Some
}

} // verus!
