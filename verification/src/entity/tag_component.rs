//! TagComponent: the basic identifier for an entity, its ID and its string tag.
use vstd::prelude::*;
use crate::types::ID;

verus! {

/// The identifier for an entity.  All entities have a TagComponent.
#[derive(Debug, Clone)]
pub struct TagComponent {
    /// The entity's ID
    pub id: ID,
    /// The entity's tag, used for identification and lookups.
    pub tag: String,
}

impl TagComponent {
    /// Creates the component.
    pub fn new(id: ID, tag: &str) -> (res: Self)
        ensures
            res.id == id,
            res.tag@ == tag@,
    {
        Self { id, tag: crate::types::to_string(tag) }
    }

    /// A copy of the component.
    pub fn copy(&self) -> (res: Self)
        ensures
            res == *self,
    {
        Self { id: self.id, tag: self.tag.clone() }
    }
}

} // verus!
