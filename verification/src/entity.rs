//! Entities and their components.
use vstd::prelude::*;

pub mod flag_set_component;
pub mod inventory_component;
pub mod location_component;
pub mod player_component;
pub mod prose_component;
pub mod room_component;
pub mod rule_component;
pub mod tag_component;
pub mod thing_component;

verus! {

pub use crate::types::ID;

} // verus!
