use std::collections::HashMap;

use deadlocked::cs2::fov_changer::{fov_value, FovConfig};
use deadlocked::cs2::offsets::Offsets;
use deadlocked::cs2::player::{PlayerCache, Player};
use deadlocked::cs2::CS2;
use deadlocked::memory::{Read, ReadMachine, Step, Width, Write};
use deadlocked::process::strings::{CachedString, StringCache};

/// Memory of a fake process, byte by byte; unmapped bytes read as zero.
#[derive(Default)]
struct Memory {
    bytes: HashMap<u64, u8>,
    reads: usize,
}

impl Memory {
    fn put(&mut self, address: u64, value: u64, size: u64) {
        for i in 0..size {
            self.bytes.insert(address.wrapping_add(i), (value >> (8 * i)) as u8);
        }
    }

    fn put_u64(&mut self, address: u64, value: u64) {
        self.put(address, value, 8);
    }

    fn put_u32(&mut self, address: u64, value: u32) {
        self.put(address, value as u64, 4);
    }

    fn put_u8(&mut self, address: u64, value: u8) {
        self.put(address, value as u64, 1);
    }

    fn put_str(&mut self, address: u64, s: &str) {
        for (i, b) in s.bytes().enumerate() {
            self.put_u8(address + i as u64, b);
        }
        self.put_u8(address + s.len() as u64, 0);
    }

    fn read(&mut self, read: Read) -> u64 {
        self.reads += 1;
        let size = match read.width {
            Width::U8 => 1,
            Width::U16 => 2,
            Width::U32 => 4,
            Width::U64 => 8,
        };
        let mut value = 0u64;
        for i in 0..size {
            let b = *self.bytes.get(&read.address.wrapping_add(i)).unwrap_or(&0) as u64;
            value |= b << (8 * i);
        }
        value
    }
}

fn drive<M: ReadMachine>(mut step: Step<M, M::Output>, memory: &mut Memory) -> M::Output {
    loop {
        match step {
            Step::Read(machine, read) => {
                let value = memory.read(read);
                step = machine.resume(value);
            }
            Step::Done(output) => return output,
        }
    }
}

const ENTITY_LIST: u64 = 0x1000;
const PLAYER_LIST: u64 = 0x2000;
const LOCAL_PLAYER: u64 = 0x3000;

fn offsets() -> Offsets {
    let mut o = Offsets::default();
    o.interface.entity = ENTITY_LIST;
    o.interface.player = PLAYER_LIST;
    o.direct.local_player = LOCAL_PLAYER;
    o.controller.pawn = 0x60;
    o.controller.desired_fov = 0x70;
    o.pawn.health = 0x10;
    o.pawn.armor = 0x14;
    o.pawn.team = 0x18;
    o.pawn.life_state = 0x1c;
    o.pawn.weapon = 0x20;
    o.pawn.game_scene_node = 0x28;
    o.pawn.shots_fired = 0x30;
    o.pawn.spotted_state = 0x40;
    o.spotted_state.mask = 0x8;
    o.pawn.glow = 0x100;
    o.glow.is_glowing = 0x1;
    o.glow.glow_type = 0x4;
    o.glow.color_override = 0x8;
    o.pawn.camera_services = 0x50;
    o.camera_services.fov = 0x20;
    o.game_scene_node.dormant = 0x5;
    o
}

const CHUNK: u64 = 0x10000;
const PAWN_CHUNK: u64 = 0x20000;

/// Puts a player with controller `controller` and pawn `pawn` at entity
/// index `index`, with pawn handle `handle`.
fn add_player(m: &mut Memory, index: u64, handle: u32, controller: u64, pawn: u64, health: u32) {
    m.put_u64(ENTITY_LIST + 8 * (index >> 9) + 0x10, CHUNK);
    m.put_u64(CHUNK + 120 * (index & 0x1ff), controller);
    m.put_u32(controller + 0x60, handle);
    m.put_u64(PLAYER_LIST + 8 * (((handle as u64) & 0x7fff) >> 9), PAWN_CHUNK);
    m.put_u64(PAWN_CHUNK + 120 * ((handle as u64) & 0x1ff), pawn);
    m.put_u32(pawn + 0x10, health);
    let node = pawn + 0x800;
    m.put_u64(pawn + 0x28, node);
    m.put_u8(node + 0x5, 0);
    m.put_u8(pawn + 0x1c, 0);
}

fn game() -> CS2 {
    CS2::new(offsets())
}

#[test]
fn index_finds_controller_and_pawn() {
    let mut m = Memory::default();
    add_player(&mut m, 3, 7, 0x5000, 0x6000, 100);
    let cs2 = game();
    assert_eq!(drive(Player::index(&cs2, 3), &mut m), Some(Player { controller: 0x5000, pawn: 0x6000 }));
    assert_eq!(m.reads, 5);
}

#[test]
fn index_without_entity_is_none() {
    let mut m = Memory::default();
    let cs2 = game();
    assert_eq!(drive(Player::index(&cs2, 3), &mut m), None);
    assert_eq!(m.reads, 1);
}

#[test]
fn null_pawn_handle_is_none() {
    let mut m = Memory::default();
    add_player(&mut m, 3, 0xffff_ffff, 0x5000, 0x6000, 100);
    let cs2 = game();
    assert_eq!(drive(Player::index(&cs2, 3), &mut m), None);
}

#[test]
fn local_player_lookup() {
    let mut m = Memory::default();
    add_player(&mut m, 1, 9, 0x5000, 0x6000, 100);
    let cs2 = game();
    assert_eq!(drive(Player::local_player(&cs2), &mut m), None);
    m.put_u64(LOCAL_PLAYER, 0x5000);
    assert_eq!(drive(Player::local_player(&cs2), &mut m), Some(Player { controller: 0x5000, pawn: 0x6000 }));
}

#[test]
fn health_is_clamped() {
    let mut m = Memory::default();
    let cs2 = game();
    let p = Player { controller: 0x5000, pawn: 0x6000 };
    m.put_u32(0x6010, 57);
    assert_eq!(drive(p.health(&cs2), &mut m), 57);
    m.put_u32(0x6010, 100);
    assert_eq!(drive(p.health(&cs2), &mut m), 100);
    m.put_u32(0x6010, 101);
    assert_eq!(drive(p.health(&cs2), &mut m), 0);
    m.put_u32(0x6010, (-5i32) as u32);
    assert_eq!(drive(p.health(&cs2), &mut m), 0);
}

#[test]
fn plain_fields() {
    let mut m = Memory::default();
    let cs2 = game();
    let p = Player { controller: 0x5000, pawn: 0x6000 };
    m.put_u32(0x6014, (-3i32) as u32);
    m.put_u32(0x6018, 0x0302);
    m.put_u8(0x601c, 2);
    m.put_u32(0x6030, 4);
    m.put_u64(0x6048, u64::MAX);
    assert_eq!(drive(p.armor(&cs2), &mut m), -3);
    assert_eq!(drive(p.team(&cs2), &mut m), 2);
    assert_eq!(drive(p.life_state(&cs2), &mut m), 2);
    assert_eq!(drive(p.shots_fired(&cs2), &mut m), 4);
    assert_eq!(drive(p.spotted_mask(&cs2), &mut m), -1);
}

#[test]
fn validity() {
    let mut m = Memory::default();
    add_player(&mut m, 1, 9, 0x5000, 0x6000, 100);
    let cs2 = game();
    let p = Player { controller: 0x5000, pawn: 0x6000 };
    assert!(drive(p.is_valid(&cs2), &mut m));
    assert!(!drive(p.is_dormant(&cs2), &mut m));
    m.put_u8(0x6800 + 0x5, 1);
    assert!(drive(p.is_dormant(&cs2), &mut m));
    assert!(!drive(p.is_valid(&cs2), &mut m));
    m.put_u8(0x6800 + 0x5, 0);
    m.put_u32(0x6010, 0);
    assert!(!drive(p.is_valid(&cs2), &mut m));
    m.put_u32(0x6010, 50);
    m.put_u8(0x601c, 1);
    assert!(!drive(p.is_valid(&cs2), &mut m));
}

#[test]
fn glow_writes() {
    let cs2 = game();
    let p = Player { controller: 0x5000, pawn: 0x6000 };
    let writes = p.glow(&cs2, 0xff00ff00);
    assert_eq!(
        writes,
        vec![
            Write { address: 0x6101, width: Width::U8, value: 1 },
            Write { address: 0x6104, width: Width::U32, value: 3 },
            Write { address: 0x6108, width: Width::U32, value: 0xff00ff00 },
        ]
    );
}

#[test]
fn set_fov_writes_only_when_different() {
    let mut m = Memory::default();
    let cs2 = game();
    let p = Player { controller: 0x5000, pawn: 0x6000 };
    assert_eq!(drive(p.set_fov(&cs2, 100), &mut m), None);
    m.put_u64(0x6050, 0x9000);
    m.put_u32(0x9020, 90);
    assert_eq!(
        drive(p.set_fov(&cs2, 100), &mut m),
        Some(Write { address: 0x5070, width: Width::U32, value: 100 })
    );
    assert_eq!(drive(p.set_fov(&cs2, 90), &mut m), None);
}

#[test]
fn fov_value_clamps() {
    assert_eq!(fov_value(&FovConfig { fov_changer: false, desired_fov: 120 }), 90);
    assert_eq!(fov_value(&FovConfig { fov_changer: true, desired_fov: 120 }), 120);
    assert_eq!(fov_value(&FovConfig { fov_changer: true, desired_fov: 0 }), 1);
    assert_eq!(fov_value(&FovConfig { fov_changer: true, desired_fov: 500 }), 179);
}

#[test]
fn fov_changer_targets_local_player() {
    let mut m = Memory::default();
    add_player(&mut m, 1, 9, 0x5000, 0x6000, 100);
    let cs2 = game();
    let config = FovConfig { fov_changer: true, desired_fov: 110 };
    assert_eq!(drive(cs2.fov_changer(&config), &mut m), None);
    m.put_u64(LOCAL_PLAYER, 0x5000);
    m.put_u64(0x6050, 0x9000);
    m.put_u32(0x9020, 90);
    assert_eq!(
        drive(cs2.fov_changer(&config), &mut m),
        Some(Write { address: 0x5070, width: Width::U32, value: 110 })
    );
    let off = FovConfig { fov_changer: false, desired_fov: 110 };
    assert_eq!(drive(cs2.fov_changer(&off), &mut m), None);
}

#[test]
fn cache_players_skips_local_and_invalid() {
    let mut m = Memory::default();
    add_player(&mut m, 1, 1, 0x5000, 0x6000, 100);
    add_player(&mut m, 2, 2, 0x5100, 0x6100, 80);
    add_player(&mut m, 3, 3, 0x5200, 0x6200, 0);
    add_player(&mut m, 64, 64, 0x5300, 0x6300, 5);
    m.put_u64(LOCAL_PLAYER, 0x5000);
    let mut cs2 = game();
    let cache = drive(cs2.cache_players(true), &mut m);
    cs2.apply_player_cache(cache);
    assert_eq!(
        cs2.players,
        vec![Player { controller: 0x5100, pawn: 0x6100 }, Player { controller: 0x5300, pawn: 0x6300 }]
    );
    assert_eq!(cs2.target.local_pawn_index, 0);
}

#[test]
fn cache_players_without_local_player_keeps_cache() {
    let mut m = Memory::default();
    add_player(&mut m, 2, 2, 0x5100, 0x6100, 80);
    let mut cs2 = game();
    cs2.players = vec![Player { controller: 1, pawn: 2 }];
    cs2.target.local_pawn_index = 7;
    let cache = drive(cs2.cache_players(true), &mut m);
    assert!(matches!(cache, PlayerCache::Keep));
    cs2.apply_player_cache(cache);
    assert_eq!(cs2.players, vec![Player { controller: 1, pawn: 2 }]);
    assert_eq!(cs2.target.local_pawn_index, 7);
}

#[test]
fn cache_players_of_a_dead_process_is_empty() {
    let mut m = Memory::default();
    let mut cs2 = game();
    cs2.players = vec![Player { controller: 1, pawn: 2 }];
    cs2.target.local_pawn_index = 7;
    let cache = drive(cs2.cache_players(false), &mut m);
    cs2.apply_player_cache(cache);
    assert!(cs2.players.is_empty());
    assert_eq!(cs2.target.local_pawn_index, 7);
    assert_eq!(m.reads, 0);
}

#[test]
fn weapon_name_reads_designer_name() {
    let mut m = Memory::default();
    let cs2 = game();
    let p = Player { controller: 0x5000, pawn: 0x6000 };
    let mut cache = StringCache::new();
    let pointer = drive(p.weapon_name(&cs2), &mut m);
    assert_eq!(pointer, None);
    match cache.resolve_weapon_name(pointer) {
        CachedString::Hit(s) => assert_eq!(s, "unknown"),
        CachedString::Miss(_) => panic!("no read expected"),
    }
    m.put_u64(0x6020, 0xa000);
    m.put_u64(0xa010, 0xb000);
    m.put_u64(0xb020, 0xc000);
    m.put_str(0xc000, "ak47");
    let pointer = drive(p.weapon_name(&cs2), &mut m);
    assert_eq!(pointer, Some(0xc000));
    let name = match cache.resolve_weapon_name(pointer) {
        CachedString::Hit(_) => panic!("cache is empty"),
        CachedString::Miss(step) => {
            let bytes = drive(step, &mut m);
            cache.store(0xc000, bytes)
        }
    };
    assert_eq!(name, "ak47");
    m.put_str(0xc000, "awp");
    match cache.resolve_weapon_name(pointer) {
        CachedString::Hit(s) => assert_eq!(s, "ak47"),
        CachedString::Miss(_) => panic!("cached"),
    }
}
