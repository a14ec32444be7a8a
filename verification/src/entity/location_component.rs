//! Entity Location Component
use vstd::prelude::*;
use crate::types::ID;

verus! {

/// Where an entity is.
#[derive(Debug, Clone, Copy)]
pub struct LocationComponent {
    /// The location of this entity, for entities that can have a location.
    pub id: ID,
}

impl LocationComponent {
    /// Create a new component; the entity starts out in LIMBO.
    pub fn new() -> (res: Self)
        ensures
            res.id == crate::world::LIMBO,
    {
        Self { id: crate::world::LIMBO }
    }
}

} // verus!
