//! The area that removes obstacles and tokens that left the screen.
use vstd::prelude::*;

verus! {

/// The area that removes what leaves the screen.
#[derive(Clone, Copy, Debug, PartialEq, Eq, Structural)]
pub struct DespawnArea {}

impl DespawnArea {
    /// A node entered the area: it is freed when it is an obstacle or a token.
    pub fn destroy_entity(in_obstacles_group: bool, in_tokens_group: bool) -> (destroy: bool)
        ensures
            destroy == (in_obstacles_group || in_tokens_group),
    {
        in_obstacles_group || in_tokens_group
    }
}

} // verus!
