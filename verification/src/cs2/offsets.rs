use vstd::prelude::*;

verus! {

/// Base addresses of the game's shared libraries.
#[derive(Debug, Default, Clone, Copy)]
pub struct LibraryOffsets {
    pub client: u64,
    pub engine: u64,
    pub tier0: u64,
    pub input: u64,
    pub sdl: u64,
    pub matchmaking: u64,
}

/// Addresses of the engine interfaces that the tool walks.
#[derive(Debug, Default, Clone, Copy)]
pub struct InterfaceOffsets {
    pub resource: u64,
    pub entity: u64,
    pub cvar: u64,
    pub player: u64,
    pub input: u64,
}

/// Addresses of global variables found by pattern scanning.
#[derive(Debug, Default, Clone, Copy)]
pub struct DirectOffsets {
    pub local_player: u64,
    pub button_state: u64,
    pub planted_c4: u64,
    pub game_types: u64,
    pub sdl_window: u64,
    pub global_vars: u64,
}

/// Addresses of console variables.
#[derive(Debug, Default, Clone, Copy)]
pub struct ConvarOffsets {
    pub ffa: u64,
    pub sensitivity: u64,
}

/// Field offsets inside a player controller.
#[derive(Debug, Default, Clone, Copy)]
pub struct PlayerControllerOffsets {
    /// Pointer to the sanitized player name.
    pub name: u64,
    /// Entity handle of the pawn (`i32`).
    pub pawn: u64,
    /// Desired field of view (`u32`).
    pub desired_fov: u64,
}

impl PlayerControllerOffsets {
    pub open spec fn spec_all_found(&self) -> bool {
        self.name != 0 && self.pawn != 0 && self.desired_fov != 0
    }

    /// Every offset of the controller was found (none is zero).
    pub fn all_found(&self) -> (found: bool)
        ensures
            found == self.spec_all_found(),
    {
        self.name != 0 && self.pawn != 0 && self.desired_fov != 0
    }
}

/// Field offsets inside a player pawn.
#[derive(Debug, Default, Clone, Copy)]
pub struct PawnOffsets {
    pub health: u64,
    pub armor: u64,
    pub team: u64,
    pub life_state: u64,
    pub weapon: u64,
    pub fov_multiplier: u64,
    pub game_scene_node: u64,
    pub eye_offset: u64,
    pub velocity: u64,
    pub aim_punch_cache: u64,
    pub shots_fired: u64,
    pub view_angles: u64,
    pub spotted_state: u64,
    pub glow: u64,
    pub flash_alpha: u64,
    pub flash_duration: u64,
    pub camera_services: u64,
}

impl PawnOffsets {
    /// Every offset that the tool needs is non-zero; the velocity offset is
    /// optional and not checked.
    pub open spec fn spec_all_found(&self) -> bool {
        &&& self.health != 0
        &&& self.armor != 0
        &&& self.team != 0
        &&& self.life_state != 0
        &&& self.weapon != 0
        &&& self.fov_multiplier != 0
        &&& self.game_scene_node != 0
        &&& self.eye_offset != 0
        &&& self.aim_punch_cache != 0
        &&& self.shots_fired != 0
        &&& self.view_angles != 0
        &&& self.spotted_state != 0
        &&& self.glow != 0
        &&& self.flash_alpha != 0
        &&& self.flash_duration != 0
        &&& self.camera_services != 0
    }

    /// Every pawn offset except `velocity` was found.
    pub fn all_found(&self) -> (found: bool)
        ensures
            found == self.spec_all_found(),
    {
        self.health != 0 && self.armor != 0 && self.team != 0 && self.life_state != 0
            && self.weapon != 0 && self.fov_multiplier != 0 && self.game_scene_node != 0
            && self.eye_offset != 0 && self.aim_punch_cache != 0 && self.shots_fired != 0
            && self.view_angles != 0 && self.spotted_state != 0 && self.glow != 0
            && self.flash_alpha != 0 && self.flash_duration != 0 && self.camera_services != 0
    }
}

/// Field offsets inside a game scene node.
#[derive(Debug, Default, Clone, Copy)]
pub struct GameSceneNodeOffsets {
    pub dormant: u64,
    pub origin: u64,
    pub model_state: u64,
}

impl GameSceneNodeOffsets {
    pub open spec fn spec_all_found(&self) -> bool {
        self.dormant != 0 && self.origin != 0 && self.model_state != 0
    }

    /// Every scene node offset was found.
    pub fn all_found(&self) -> (found: bool)
        ensures
            found == self.spec_all_found(),
    {
        self.dormant != 0 && self.origin != 0 && self.model_state != 0
    }
}

/// Field offsets inside the spotted state of a pawn.
#[derive(Debug, Default, Clone, Copy)]
pub struct SpottedStateOffsets {
    pub spotted: u64,
    pub mask: u64,
}

impl SpottedStateOffsets {
    pub open spec fn spec_all_found(&self) -> bool {
        self.spotted != 0 && self.mask != 0
    }

    /// Every spotted state offset was found.
    pub fn all_found(&self) -> (found: bool)
        ensures
            found == self.spec_all_found(),
    {
        self.spotted != 0 && self.mask != 0
    }
}

/// Field offsets inside the planted bomb entity.
#[derive(Debug, Default, Clone, Copy)]
pub struct BombOffsets {
    pub is_ticking: u64,
    pub bomb_site: u64,
    pub blow_time: u64,
    pub is_activated: u64,
    pub being_defused: u64,
}

impl BombOffsets {
    pub open spec fn spec_all_found(&self) -> bool {
        self.is_ticking != 0 && self.bomb_site != 0 && self.blow_time != 0
    }

    /// The ticking, site and blow time offsets were found.
    pub fn all_found(&self) -> (found: bool)
        ensures
            found == self.spec_all_found(),
    {
        self.is_ticking != 0 && self.bomb_site != 0 && self.blow_time != 0
    }
}

/// Field offsets inside the glow property of a pawn.
#[derive(Debug, Default, Clone, Copy)]
pub struct GlowOffsets {
    pub is_glowing: u64,
    pub glow_type: u64,
    pub color_override: u64,
}

impl GlowOffsets {
    pub open spec fn spec_all_found(&self) -> bool {
        self.is_glowing != 0 && self.glow_type != 0 && self.color_override != 0
    }

    /// Every glow offset was found.
    pub fn all_found(&self) -> (found: bool)
        ensures
            found == self.spec_all_found(),
    {
        self.is_glowing != 0 && self.glow_type != 0 && self.color_override != 0
    }
}

/// Field offsets inside the camera services of a pawn.
#[derive(Debug, Default, Clone, Copy)]
pub struct CameraServicesOffsets {
    pub fov: u64,
}

impl CameraServicesOffsets {
    pub open spec fn spec_all_found(&self) -> bool {
        self.fov != 0
    }

    /// The field of view offset was found.
    pub fn all_found(&self) -> (found: bool)
        ensures
            found == self.spec_all_found(),
    {
        self.fov != 0
    }
}

/// Every offset the tool works with.
#[derive(Debug, Default, Clone, Copy)]
pub struct Offsets {
    pub library: LibraryOffsets,
    pub interface: InterfaceOffsets,
    pub direct: DirectOffsets,
    pub convar: ConvarOffsets,
    pub controller: PlayerControllerOffsets,
    pub pawn: PawnOffsets,
    pub game_scene_node: GameSceneNodeOffsets,
    pub spotted_state: SpottedStateOffsets,
    pub bomb: BombOffsets,
    pub glow: GlowOffsets,
    pub camera_services: CameraServicesOffsets,
}

impl Offsets {
    /// The schema offsets are complete: every group that the tool checks is.
    pub open spec fn spec_all_found(&self) -> bool {
        &&& self.controller.spec_all_found()
        &&& self.pawn.spec_all_found()
        &&& self.game_scene_node.spec_all_found()
        &&& self.spotted_state.spec_all_found()
        &&& self.bomb.spec_all_found()
        &&& self.glow.spec_all_found()
        &&& self.camera_services.spec_all_found()
    }

    /// All checked offset groups are complete.
    pub fn all_found(&self) -> (found: bool)
        ensures
            found == self.spec_all_found(),
    {
        self.controller.all_found() && self.pawn.all_found() && self.game_scene_node.all_found()
            && self.spotted_state.all_found() && self.bomb.all_found() && self.glow.all_found()
            && self.camera_services.all_found()
    }
}

} // verus!
