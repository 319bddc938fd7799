use vstd::prelude::*;

verus! {

/// The sidebar tabs of the settings window.
#[derive(PartialEq, Eq, Structural, Clone, Copy, Debug)]
pub enum Tab {
    Aimbot,
    Player,
    Hud,
    Unsafe,
    Config,
}

/// Whether the aimbot settings show the global or a per-weapon configuration.
#[derive(PartialEq, Eq, Structural, Clone, Copy, Debug)]
pub enum AimbotTab {
    Global,
    Weapon,
}

} // verus!
