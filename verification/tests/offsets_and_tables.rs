use deadlocked::cs2::offsets::{
    BombOffsets, CameraServicesOffsets, GameSceneNodeOffsets, GlowOffsets, Offsets, PawnOffsets,
    PlayerControllerOffsets, SpottedStateOffsets,
};
use deadlocked::cs2::planted_c4::BombSite;
use deadlocked::cs2::weapon::Weapon;
use deadlocked::gui::{AimbotTab, Tab};

fn complete_offsets() -> Offsets {
    let mut o = Offsets::default();
    o.controller = PlayerControllerOffsets { name: 1, pawn: 2, desired_fov: 3 };
    o.pawn = PawnOffsets {
        health: 1,
        armor: 2,
        team: 3,
        life_state: 4,
        weapon: 5,
        fov_multiplier: 6,
        game_scene_node: 7,
        eye_offset: 8,
        velocity: 0,
        aim_punch_cache: 10,
        shots_fired: 11,
        view_angles: 12,
        spotted_state: 13,
        glow: 14,
        flash_alpha: 15,
        flash_duration: 16,
        camera_services: 17,
    };
    o.game_scene_node = GameSceneNodeOffsets { dormant: 1, origin: 2, model_state: 3 };
    o.spotted_state = SpottedStateOffsets { spotted: 1, mask: 2 };
    o.bomb = BombOffsets { is_ticking: 1, bomb_site: 2, blow_time: 3, is_activated: 0, being_defused: 0 };
    o.glow = GlowOffsets { is_glowing: 1, glow_type: 2, color_override: 3 };
    o.camera_services = CameraServicesOffsets { fov: 1 };
    o
}

#[test]
fn default_offsets_are_not_found() {
    let o = Offsets::default();
    assert!(!o.all_found());
    assert!(!o.controller.all_found());
    assert!(!o.pawn.all_found());
    assert!(!o.game_scene_node.all_found());
    assert!(!o.spotted_state.all_found());
    assert!(!o.bomb.all_found());
    assert!(!o.glow.all_found());
    assert!(!o.camera_services.all_found());
}

#[test]
fn complete_offsets_are_found() {
    let o = complete_offsets();
    assert!(o.controller.all_found());
    assert!(o.pawn.all_found());
    assert!(o.all_found());
}

#[test]
fn velocity_and_bomb_extras_are_not_required() {
    let o = complete_offsets();
    assert_eq!(o.pawn.velocity, 0);
    assert_eq!(o.bomb.is_activated, 0);
    assert!(o.all_found());
}

#[test]
fn one_missing_offset_fails_the_whole_table() {
    let mut o = complete_offsets();
    o.pawn.flash_duration = 0;
    assert!(!o.pawn.all_found());
    assert!(!o.all_found());
    let mut o = complete_offsets();
    o.camera_services.fov = 0;
    assert!(!o.all_found());
    let mut o = complete_offsets();
    o.glow.glow_type = 0;
    assert!(!o.glow.all_found());
    assert!(!o.all_found());
}

#[test]
fn bomb_site_numbers() {
    assert_eq!(BombSite::from_int(0), Some(BombSite::A));
    assert_eq!(BombSite::from_int(1), Some(BombSite::B));
    assert_eq!(BombSite::from_int(2), None);
    assert_eq!(BombSite::from_int(-1), None);
}

#[test]
fn weapon_names() {
    assert_eq!(Weapon::from_str("ak47"), Weapon::Ak47);
    assert_eq!(Weapon::from_str("awp"), Weapon::Awp);
    assert_eq!(Weapon::from_str("deagle"), Weapon::Deagle);
    assert_eq!(Weapon::from_str("elite"), Weapon::DualBerettas);
    assert_eq!(Weapon::from_str("hkp2000"), Weapon::P2000);
    assert_eq!(Weapon::from_str("smokegrenade"), Weapon::Smoke);
    assert_eq!(Weapon::from_str("incgrenade"), Weapon::Incendiary);
    assert_eq!(Weapon::from_str("c4"), Weapon::C4);
    assert_eq!(Weapon::from_str("taser"), Weapon::Taser);
}

#[test]
fn every_knife_is_a_knife() {
    for name in [
        "bayonet",
        "knife",
        "knife_bowie",
        "knife_butterfly",
        "knife_karambit",
        "knife_m9_bayonet",
        "knife_t",
        "knife_widowmaker",
    ] {
        assert_eq!(Weapon::from_str(name), Weapon::Knife, "{name}");
    }
}

#[test]
fn silencer_states_are_one_weapon() {
    assert_eq!(Weapon::from_str("usp_silencer"), Weapon::Usp);
    assert_eq!(Weapon::from_str("usp_silencer_off"), Weapon::Usp);
    assert_eq!(Weapon::from_str("m4a1_silencer"), Weapon::M4A1);
    assert_eq!(Weapon::from_str("m4a1_silencer_off"), Weapon::M4A1);
    assert_eq!(Weapon::from_str("m4a1"), Weapon::M4A4);
}

#[test]
fn unknown_weapon_names() {
    assert_eq!(Weapon::from_str(""), Weapon::Unknown);
    assert_eq!(Weapon::from_str("AK47"), Weapon::Unknown);
    assert_eq!(Weapon::from_str("weapon_ak47"), Weapon::Unknown);
    assert_eq!(Weapon::from_str("knife_"), Weapon::Unknown);
    assert_eq!(Weapon::default(), Weapon::Unknown);
}

#[test]
fn tabs_compare() {
    assert!(Tab::Aimbot == Tab::Aimbot);
    assert!(Tab::Aimbot != Tab::Config);
    assert!(AimbotTab::Global != AimbotTab::Weapon);
}
