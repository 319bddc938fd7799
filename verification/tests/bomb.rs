use std::collections::HashMap;

use deadlocked::cs2::offsets::Offsets;
use deadlocked::cs2::planted_c4::{BombSite, PlantedC4};
use deadlocked::cs2::CS2;
use deadlocked::memory::{Read, ReadMachine, Step, Width};

#[derive(Default)]
struct Memory {
    values: HashMap<u64, u64>,
}

impl Memory {
    fn read(&self, read: Read) -> u64 {
        let v = *self.values.get(&read.address).unwrap_or(&0);
        match read.width {
            Width::U8 => v & 0xff,
            Width::U16 => v & 0xffff,
            Width::U32 => v & 0xffff_ffff,
            Width::U64 => v,
        }
    }
}

fn drive<M: ReadMachine>(mut step: Step<M, M::Output>, memory: &Memory) -> M::Output {
    loop {
        match step {
            Step::Read(machine, read) => step = machine.resume(memory.read(read)),
            Step::Done(output) => return output,
        }
    }
}

fn game() -> CS2 {
    let mut o = Offsets::default();
    o.direct.planted_c4 = 0x100;
    o.bomb.is_activated = 0x10;
    o.bomb.is_ticking = 0x11;
    o.bomb.being_defused = 0x12;
    o.bomb.bomb_site = 0x14;
    CS2::new(o)
}

#[test]
fn no_bomb() {
    let mut m = Memory::default();
    let cs2 = game();
    assert_eq!(drive(PlantedC4::get(&cs2), &m), None);
    m.values.insert(0x100, 0x200);
    assert_eq!(drive(PlantedC4::get(&cs2), &m), None);
}

#[test]
fn planted_bomb() {
    let mut m = Memory::default();
    let cs2 = game();
    m.values.insert(0x100, 0x200);
    m.values.insert(0x200, 0x4000);
    let bomb = drive(PlantedC4::get(&cs2), &m).unwrap();
    assert_eq!(bomb, PlantedC4 { handle: 0x4000 });
    assert!(!drive(bomb.is_planted(&cs2), &m));
    m.values.insert(0x4010, 1);
    assert!(!drive(bomb.is_planted(&cs2), &m));
    m.values.insert(0x4011, 1);
    assert!(drive(bomb.is_planted(&cs2), &m));
    m.values.insert(0x4010, 0x100);
    assert!(!drive(bomb.is_planted(&cs2), &m));
}

#[test]
fn defuse_and_site() {
    let mut m = Memory::default();
    let cs2 = game();
    let bomb = PlantedC4 { handle: 0x4000 };
    assert!(!drive(bomb.is_being_defused(&cs2), &m));
    m.values.insert(0x4012, 1);
    assert!(drive(bomb.is_being_defused(&cs2), &m));
    assert_eq!(drive(bomb.bomb_site(&cs2), &m), Some(BombSite::A));
    m.values.insert(0x4014, 1);
    assert_eq!(drive(bomb.bomb_site(&cs2), &m), Some(BombSite::B));
    m.values.insert(0x4014, 0xffff_ffff);
    assert_eq!(drive(bomb.bomb_site(&cs2), &m), None);
}
