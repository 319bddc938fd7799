//! Overriding the local player's field of view.
use vstd::prelude::*;

use crate::cs2::offsets::Offsets;
use crate::cs2::player::{
    lemma_local_player, lemma_set_fov, spec_local_player, spec_set_fov, FovUpdate, Player, PlayerLookup,
};
use crate::cs2::{CS2, DEFAULT_FOV, MAX_FOV, MIN_FOV};
use crate::memory::{lemma_run_monotonic, lemma_run_read, run, Oracle, Read, ReadMachine, Step, Write};

verus! {

/// The settings of the field of view changer.
#[derive(Debug, Default, Clone, Copy)]
pub struct FovConfig {
    /// Whether the changer is on.
    pub fov_changer: bool,
    /// The field of view to apply while it is on.
    pub desired_fov: u32,
}

/// The field of view to apply: the desired one clamped to 1..=179 while the
/// changer is on, the game's default otherwise.
pub open spec fn spec_fov_value(config: FovConfig) -> u32 {
    if !config.fov_changer {
        DEFAULT_FOV
    } else if config.desired_fov < MIN_FOV {
        MIN_FOV
    } else if config.desired_fov > MAX_FOV {
        MAX_FOV
    } else {
        config.desired_fov
    }
}

/// The field of view to apply for `config`.
pub fn fov_value(config: &FovConfig) -> (fov: u32)
    ensures
        fov == spec_fov_value(*config),
        MIN_FOV <= fov <= MAX_FOV,
{
    if !config.fov_changer {
        DEFAULT_FOV
    } else if config.desired_fov < MIN_FOV {
        MIN_FOV
    } else if config.desired_fov > MAX_FOV {
        MAX_FOV
    } else {
        config.desired_fov
    }
}

/// The write that the changer asks for: none without a local player,
/// otherwise the local player's field of view update.
pub open spec fn spec_fov_changer(oracle: Oracle, offsets: Offsets, config: FovConfig) -> Option<Write> {
    match spec_local_player(oracle, offsets) {
        None => None,
        Some(local) => spec_set_fov(oracle, offsets, local, spec_fov_value(config)),
    }
}

/// Applies the field of view changer to the local player.
pub enum FovChange {
    /// Looking up the local player.
    Local { lookup: PlayerLookup, offsets: Offsets, value: u32 },
    /// Updating the local player's field of view.
    Update(FovUpdate),
}

/// The changer step after the local player lookup stepped to `step`.
pub open spec fn after_local_lookup(offsets: Offsets, value: u32, step: Step<PlayerLookup, Option<Player>>) -> Step<
    FovChange,
    Option<Write>,
> {
    match step {
        Step::Read(lookup, read) => Step::Read(FovChange::Local { lookup, offsets, value }, read),
        Step::Done(None) => Step::Done(None),
        Step::Done(Some(local)) => match local.spec_set_fov_start(offsets, value) {
            Step::Read(update, read) => Step::Read(FovChange::Update(update), read),
            Step::Done(write) => Step::Done(write),
        },
    }
}

impl ReadMachine for FovChange {
    type Output = Option<Write>;

    open spec fn next(self, reply: u64) -> Step<FovChange, Option<Write>> {
        match self {
            FovChange::Local { lookup, offsets, value } => after_local_lookup(offsets, value, lookup.next(reply)),
            FovChange::Update(update) => match update.next(reply) {
                Step::Read(update, read) => Step::Read(FovChange::Update(update), read),
                Step::Done(write) => Step::Done(write),
            },
        }
    }

    fn resume(self, reply: u64) -> (step: Step<FovChange, Option<Write>>) {
        match self {
            FovChange::Local { lookup, offsets, value } => match lookup.resume(reply) {
                Step::Read(lookup, read) => Step::Read(FovChange::Local { lookup, offsets, value }, read),
                Step::Done(None) => Step::Done(None),
                Step::Done(Some(local)) => {
                    let cs2 = CS2::new(offsets);
                    match local.set_fov(&cs2, value) {
                        Step::Read(update, read) => Step::Read(FovChange::Update(update), read),
                        Step::Done(write) => Step::Done(write),
                    }
                },
            },
            FovChange::Update(update) => match update.resume(reply) {
                Step::Read(update, read) => Step::Read(FovChange::Update(update), read),
                Step::Done(write) => Step::Done(write),
            },
        }
    }
}

impl CS2 {
    pub open spec fn spec_fov_changer_start(offsets: Offsets, config: FovConfig) -> Step<FovChange, Option<Write>> {
        after_local_lookup(offsets, spec_fov_value(config), Player::spec_local_player_start(offsets))
    }

    /// Starts the field of view changer: the machine ends with the write to
    /// perform, if any (see `lemma_fov_changer`).
    pub fn fov_changer(&self, config: &FovConfig) -> (step: Step<FovChange, Option<Write>>)
        ensures
            step == Self::spec_fov_changer_start(self.offsets, *config),
    {
        let value = fov_value(config);
        match Player::local_player(self) {
            Step::Read(lookup, read) => Step::Read(FovChange::Local { lookup, offsets: self.offsets, value }, read),
            Step::Done(_) => Step::Done(None),
        }
    }
}

proof fn lemma_lift_update(oracle: Oracle, update: FovUpdate, read: Read, fuel: nat)
    requires
        run(Step::Read(update, read), oracle, fuel) is Some,
    ensures
        run(Step::Read(FovChange::Update(update), read), oracle, fuel) == run(Step::Read(update, read), oracle, fuel),
    decreases fuel,
{
    lemma_run_read(update, read, oracle, fuel);
    lemma_run_read(FovChange::Update(update), read, oracle, fuel);
    if let Step::Read(u2, r2) = update.next(oracle(read)) {
        lemma_lift_update(oracle, u2, r2, (fuel - 1) as nat);
    }
}

proof fn lemma_lift_local(
    oracle: Oracle,
    offsets: Offsets,
    value: u32,
    lookup: PlayerLookup,
    read: Read,
    sub_fuel: nat,
    rest: nat,
    fuel: nat,
)
    requires
        run(Step::Read(lookup, read), oracle, sub_fuel) is Some,
        run(
            after_local_lookup(offsets, value, Step::Done(run(Step::Read(lookup, read), oracle, sub_fuel)->0)),
            oracle,
            rest,
        )
            is Some,
        fuel >= sub_fuel + rest,
    ensures
        run(Step::Read(FovChange::Local { lookup, offsets, value }, read), oracle, fuel) == run(
            after_local_lookup(offsets, value, Step::Done(run(Step::Read(lookup, read), oracle, sub_fuel)->0)),
            oracle,
            rest,
        ),
    decreases sub_fuel,
{
    let o = run(Step::Read(lookup, read), oracle, sub_fuel)->0;
    lemma_run_read(lookup, read, oracle, sub_fuel);
    lemma_run_read(FovChange::Local { lookup, offsets, value }, read, oracle, fuel);
    match lookup.next(oracle(read)) {
        Step::Read(l2, r2) => {
            lemma_lift_local(oracle, offsets, value, l2, r2, (sub_fuel - 1) as nat, rest, (fuel - 1) as nat);
        },
        Step::Done(_) => {
            lemma_run_monotonic(after_local_lookup(offsets, value, Step::Done(o)), oracle, rest, (fuel - 1) as nat);
        },
    }
}

/// The field of view changer reads at most six values and asks for the write
/// that `spec_fov_changer` states.
pub proof fn lemma_fov_changer(oracle: Oracle, offsets: Offsets, config: FovConfig)
    ensures
        run(CS2::spec_fov_changer_start(offsets, config), oracle, 6) == Some(
            spec_fov_changer(oracle, offsets, config),
        ),
{
    let value = spec_fov_value(config);
    lemma_local_player(oracle, offsets);
    match spec_local_player(oracle, offsets) {
        None => {
            reveal_with_fuel(run, 1);
        },
        Some(local) => {
            lemma_set_fov(oracle, offsets, local, value);
            if let Step::Read(update, read) = local.spec_set_fov_start(offsets, value) {
                lemma_lift_update(oracle, update, read, 2);
            }
        },
    }
    if let Step::Read(lookup, read) = Player::spec_local_player_start(offsets) {
        lemma_lift_local(oracle, offsets, value, lookup, read, 4, 2, 6);
    }
}

} // verus!
