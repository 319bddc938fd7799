use vstd::prelude::*;

pub mod fov_changer;
pub mod offsets;
pub mod planted_c4;
pub mod player;
pub mod weapon;

use crate::cs2::offsets::Offsets;
use crate::cs2::player::Player;

verus! {

/// The field of view the game uses when nothing overrides it.
pub const DEFAULT_FOV: u32 = 90;

/// The smallest field of view the changer applies.
pub const MIN_FOV: u32 = 1;

/// The largest field of view the changer applies.
pub const MAX_FOV: u32 = 179;

/// Which slot of the entity list holds the local player.
#[derive(Debug, Default, Clone, Copy)]
pub struct Target {
    pub local_pawn_index: u64,
}

/// What the tool knows about the running game: the offsets it found and the
/// players it cached during the last scan.
pub struct CS2 {
    pub offsets: Offsets,
    pub players: Vec<Player>,
    pub target: Target,
}

impl CS2 {
    /// A game state with the given offsets and no cached players.
    pub fn new(offsets: Offsets) -> (cs2: CS2)
        ensures
            cs2.offsets == offsets,
            cs2.players@.len() == 0,
            cs2.target.local_pawn_index == 0,
    {
        CS2 { offsets, players: Vec::new(), target: Target { local_pawn_index: 0 } }
    }
}

} // verus!
