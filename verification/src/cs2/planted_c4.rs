//! The planted bomb.
use vstd::prelude::*;

use crate::cs2::offsets::Offsets;
use crate::cs2::player::{pointer_read, read_pointer};
use crate::cs2::CS2;
use crate::memory::{run, Oracle, Read, ReadMachine, Step, Width};

verus! {

/// The bomb site a bomb was planted at.
#[derive(Debug, Clone, Copy, PartialEq, Eq, Structural)]
pub enum BombSite {
    A,
    B,
}

pub open spec fn spec_bomb_site(site: i32) -> Option<BombSite> {
    if site == 0 {
        Some(BombSite::A)
    } else if site == 1 {
        Some(BombSite::B)
    } else {
        None
    }
}

impl BombSite {
    /// The site the game numbers `site`: 0 is A, 1 is B, any other number none.
    pub fn from_int(site: i32) -> (bomb_site: Option<BombSite>)
        ensures
            bomb_site == spec_bomb_site(site),
    {
        match site {
            0 => Some(BombSite::A),
            1 => Some(BombSite::B),
            _ => None,
        }
    }
}

/// The planted bomb entity.
#[derive(Debug, Clone, Copy, PartialEq, Eq, Structural)]
pub struct PlantedC4 {
    pub handle: u64,
}

/// The planted bomb: the entity behind the pointer that the planted bomb
/// global points to; none where either pointer is null.
pub open spec fn spec_planted_c4(oracle: Oracle, offsets: Offsets) -> Option<PlantedC4> {
    let list = oracle(pointer_read(offsets.direct.planted_c4));
    if list == 0 {
        None
    } else {
        let handle = oracle(pointer_read(list));
        if handle == 0 {
            None
        } else {
            Some(PlantedC4 { handle })
        }
    }
}

/// Finds the planted bomb.
pub enum BombLookup {
    /// Waiting for the pointer that the global holds.
    Global,
    /// Waiting for the bomb entity pointer.
    Entity,
}

impl ReadMachine for BombLookup {
    type Output = Option<PlantedC4>;

    open spec fn next(self, reply: u64) -> Step<BombLookup, Option<PlantedC4>> {
        match self {
            BombLookup::Global => if reply == 0 {
                Step::Done(None)
            } else {
                Step::Read(BombLookup::Entity, pointer_read(reply))
            },
            BombLookup::Entity => if reply == 0 {
                Step::Done(None)
            } else {
                Step::Done(Some(PlantedC4 { handle: reply }))
            },
        }
    }

    fn resume(self, reply: u64) -> (step: Step<BombLookup, Option<PlantedC4>>) {
        match self {
            BombLookup::Global => if reply == 0 {
                Step::Done(None)
            } else {
                Step::Read(BombLookup::Entity, read_pointer(reply))
            },
            BombLookup::Entity => if reply == 0 {
                Step::Done(None)
            } else {
                Step::Done(Some(PlantedC4 { handle: reply }))
            },
        }
    }
}

/// Whether the bomb is activated and ticking.
pub open spec fn spec_is_planted(oracle: Oracle, offsets: Offsets, bomb: PlantedC4) -> bool {
    oracle(bomb.flag_read(offsets.bomb.is_activated)) as u8 != 0 && oracle(bomb.flag_read(offsets.bomb.is_ticking)) as u8
        != 0
}

/// Checks whether the bomb is planted: activated, then ticking.
pub enum PlantCheck {
    /// Waiting for the activated flag.
    Activated { ticking: Read },
    /// Waiting for the ticking flag.
    Ticking,
}

impl ReadMachine for PlantCheck {
    type Output = bool;

    open spec fn next(self, reply: u64) -> Step<PlantCheck, bool> {
        match self {
            PlantCheck::Activated { ticking } => if reply as u8 == 0 {
                Step::Done(false)
            } else {
                Step::Read(PlantCheck::Ticking, ticking)
            },
            PlantCheck::Ticking => Step::Done(reply as u8 != 0),
        }
    }

    fn resume(self, reply: u64) -> (step: Step<PlantCheck, bool>) {
        match self {
            PlantCheck::Activated { ticking } => if reply as u8 == 0 {
                Step::Done(false)
            } else {
                Step::Read(PlantCheck::Ticking, ticking)
            },
            PlantCheck::Ticking => Step::Done(reply as u8 != 0),
        }
    }
}

/// Reads a flag of the bomb.
pub struct FlagRead;

impl ReadMachine for FlagRead {
    type Output = bool;

    open spec fn next(self, reply: u64) -> Step<FlagRead, bool> {
        Step::Done(reply as u8 != 0)
    }

    fn resume(self, reply: u64) -> (step: Step<FlagRead, bool>) {
        Step::Done(reply as u8 != 0)
    }
}

/// Reads the site of the bomb.
pub struct SiteRead;

impl ReadMachine for SiteRead {
    type Output = Option<BombSite>;

    open spec fn next(self, reply: u64) -> Step<SiteRead, Option<BombSite>> {
        Step::Done(spec_bomb_site(reply as u32 as i32))
    }

    fn resume(self, reply: u64) -> (step: Step<SiteRead, Option<BombSite>>) {
        Step::Done(BombSite::from_int(reply as u32 as i32))
    }
}

impl PlantedC4 {
    /// The read of a one-byte flag of the bomb at `field`.
    pub open spec fn flag_read(self, field: u64) -> Read {
        Read { address: self.handle.wrapping_add(field), width: Width::U8 }
    }

    pub open spec fn spec_get_start(offsets: Offsets) -> Step<BombLookup, Option<PlantedC4>> {
        Step::Read(BombLookup::Global, pointer_read(offsets.direct.planted_c4))
    }

    /// Starts looking for the planted bomb (see `lemma_get`).
    pub fn get(cs2: &CS2) -> (step: Step<BombLookup, Option<PlantedC4>>)
        ensures
            step == Self::spec_get_start(cs2.offsets),
    {
        Step::Read(BombLookup::Global, read_pointer(cs2.offsets.direct.planted_c4))
    }

    pub open spec fn spec_is_planted_start(self, offsets: Offsets) -> Step<PlantCheck, bool> {
        Step::Read(
            PlantCheck::Activated { ticking: self.flag_read(offsets.bomb.is_ticking) },
            self.flag_read(offsets.bomb.is_activated),
        )
    }

    /// Starts checking whether the bomb is activated and ticking (see
    /// `lemma_is_planted`).
    pub fn is_planted(&self, cs2: &CS2) -> (step: Step<PlantCheck, bool>)
        ensures
            step == self.spec_is_planted_start(cs2.offsets),
    {
        Step::Read(
            PlantCheck::Activated {
                ticking: Read { address: self.handle.wrapping_add(cs2.offsets.bomb.is_ticking), width: Width::U8 },
            },
            Read { address: self.handle.wrapping_add(cs2.offsets.bomb.is_activated), width: Width::U8 },
        )
    }

    /// Reads whether the bomb is being defused.
    pub fn is_being_defused(&self, cs2: &CS2) -> (step: Step<FlagRead, bool>)
        ensures
            step == Step::<FlagRead, bool>::Read(FlagRead, self.flag_read(cs2.offsets.bomb.being_defused)),
    {
        Step::Read(
            FlagRead,
            Read { address: self.handle.wrapping_add(cs2.offsets.bomb.being_defused), width: Width::U8 },
        )
    }

    /// Reads the site of the bomb: the 32-bit site number, 0 for A and 1 for B.
    pub fn bomb_site(&self, cs2: &CS2) -> (step: Step<SiteRead, Option<BombSite>>)
        ensures
            step == Step::<SiteRead, Option<BombSite>>::Read(
                SiteRead,
                Read { address: self.handle.wrapping_add(cs2.offsets.bomb.bomb_site), width: Width::U32 },
            ),
    {
        Step::Read(SiteRead, Read { address: self.handle.wrapping_add(cs2.offsets.bomb.bomb_site), width: Width::U32 })
    }
}

/// Looking for the planted bomb reads at most two pointers and gives the bomb
/// that `spec_planted_c4` states.
pub proof fn lemma_get(oracle: Oracle, offsets: Offsets)
    ensures
        run(PlantedC4::spec_get_start(offsets), oracle, 2) == Some(spec_planted_c4(oracle, offsets)),
{
    reveal_with_fuel(run, 3);
}

/// The plant check reads at most two flags and tells whether both are set.
pub proof fn lemma_is_planted(oracle: Oracle, offsets: Offsets, bomb: PlantedC4)
    ensures
        run(bomb.spec_is_planted_start(offsets), oracle, 2) == Some(spec_is_planted(oracle, offsets, bomb)),
{
    reveal_with_fuel(run, 3);
}

} // verus!
