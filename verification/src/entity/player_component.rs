//! Player Data Module
use vstd::prelude::*;

verus! {

/// Information specific to Player Entities.  At present, this component serves only
/// as a marker that the entity is a (the) player.
#[derive(Debug, Clone, Copy)]
pub struct PlayerComponent {}

impl PlayerComponent {
    /// Create a new PlayerComponent
    pub fn new() -> (res: Self)
        ensures
            res == (PlayerComponent {}),
    {
        Self {  }
    }
}

} // verus!
