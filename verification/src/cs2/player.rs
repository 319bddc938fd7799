//! Players: a controller entity and the pawn it controls, found through the
//! game's entity lists, and the per-player values the tool reads and writes.
use vstd::prelude::*;

use crate::cs2::offsets::Offsets;
use crate::cs2::CS2;
use crate::process::strings::{CachedString, StringCache, StringRead};
use crate::memory::{lemma_run_monotonic, lemma_run_read, run, Oracle, Read, ReadMachine, Step, Width, Write};

verus! {

/// A player: the address of its controller entity and of its pawn entity.
#[derive(Debug, Clone, Copy, PartialEq, Eq, Structural)]
pub struct Player {
    pub controller: u64,
    pub pawn: u64,
}

/// A read of one pointer (eight bytes).
pub open spec fn pointer_read(address: u64) -> Read {
    Read { address, width: Width::U64 }
}

/// Reads one pointer at `address`.
#[verifier::allow_in_spec]
pub fn read_pointer(address: u64) -> Read
    returns
        pointer_read(address),
{
    Read { address, width: Width::U64 }
}

/// Where the entity list keeps the chunk that holds entity `index`: chunks of
/// 512 entries, one pointer each, after a 16-byte header.
#[verifier::allow_in_spec]
pub fn client_chunk_address(entity_list: u64, index: u64) -> u64
    returns
        entity_list.wrapping_add((index >> 9u64).wrapping_mul(8)).wrapping_add(0x10),
{
    entity_list.wrapping_add((index >> 9u64).wrapping_mul(8)).wrapping_add(0x10)
}

/// Where a chunk keeps the entity in `slot`: entries of 120 bytes, indexed by
/// the low nine bits of the slot.
#[verifier::allow_in_spec]
pub fn chunk_entry_address(chunk: u64, slot: u64) -> u64
    returns
        chunk.wrapping_add((slot & 0x1ff).wrapping_mul(120)),
{
    chunk.wrapping_add((slot & 0x1ff).wrapping_mul(120))
}

/// Where the pawn list keeps the chunk for a pawn handle: the handle's low
/// fifteen bits, in chunks of 512, one pointer each.
#[verifier::allow_in_spec]
pub fn pawn_chunk_address(player_list: u64, handle: u64) -> u64
    returns
        player_list.wrapping_add(((handle & 0x7fff) >> 9u64).wrapping_mul(8)),
{
    player_list.wrapping_add(((handle & 0x7fff) >> 9u64).wrapping_mul(8))
}

/// A pawn handle of -1 stands for "no pawn".
pub open spec fn is_null_handle(reply: u64) -> bool {
    reply as u32 == 0xffff_ffffu32
}

// ---------------------------------------------------------------------------
// Controller lookup by entity index.

/// The controller at `index` of the entity list: `None` where the chunk or the
/// entry is null.
pub open spec fn spec_client_entity(oracle: Oracle, entity_list: u64, index: u64) -> Option<u64> {
    let chunk = oracle(pointer_read(client_chunk_address(entity_list, index)));
    if chunk == 0 {
        None
    } else {
        let entity = oracle(pointer_read(chunk_entry_address(chunk, index)));
        if entity == 0 {
            None
        } else {
            Some(entity)
        }
    }
}

/// Looks up the entity at an index of the entity list.
pub enum EntityLookup {
    /// Waiting for the chunk pointer.
    Chunk { index: u64 },
    /// Waiting for the entity pointer.
    Entry,
}

impl EntityLookup {
    pub open spec fn spec_start(entity_list: u64, index: u64) -> Step<EntityLookup, Option<u64>> {
        Step::Read(
            EntityLookup::Chunk { index },
            pointer_read(client_chunk_address(entity_list, index)),
        )
    }

    /// Starts the lookup of entity `index` in the list at `entity_list`.
    pub fn start(entity_list: u64, index: u64) -> (step: Step<EntityLookup, Option<u64>>)
        ensures
            step == Self::spec_start(entity_list, index),
    {
        Step::Read(EntityLookup::Chunk { index }, read_pointer(client_chunk_address(entity_list, index)))
    }
}

impl ReadMachine for EntityLookup {
    type Output = Option<u64>;

    open spec fn next(self, reply: u64) -> Step<EntityLookup, Option<u64>> {
        match self {
            EntityLookup::Chunk { index } => if reply == 0 {
                Step::Done(None)
            } else {
                Step::Read(EntityLookup::Entry, pointer_read(chunk_entry_address(reply, index)))
            },
            EntityLookup::Entry => if reply == 0 {
                Step::Done(None)
            } else {
                Step::Done(Some(reply))
            },
        }
    }

    fn resume(self, reply: u64) -> (step: Step<EntityLookup, Option<u64>>) {
        match self {
            EntityLookup::Chunk { index } => if reply == 0 {
                Step::Done(None)
            } else {
                Step::Read(EntityLookup::Entry, read_pointer(chunk_entry_address(reply, index)))
            },
            EntityLookup::Entry => if reply == 0 {
                Step::Done(None)
            } else {
                Step::Done(Some(reply))
            },
        }
    }
}

/// The entity lookup reads at most two pointers and gives the entity at the index.
pub proof fn lemma_entity_lookup(oracle: Oracle, entity_list: u64, index: u64)
    ensures
        run(EntityLookup::spec_start(entity_list, index), oracle, 2) == Some(
            spec_client_entity(oracle, entity_list, index),
        ),
{
    reveal_with_fuel(run, 3);
}

/// The controller at `index` is looked up in chunk `index / 512` of the
/// entity list (eight bytes per chunk pointer, after a 16-byte header), at
/// entry `index mod 512` of that chunk (120 bytes per entry); a null chunk or
/// entry gives no controller.
pub proof fn lemma_entity_slot(oracle: Oracle, entity_list: u64, index: u64)
    ensures
        ({
            let chunk = oracle(pointer_read(entity_list.wrapping_add((8 * (index / 512)) as u64).wrapping_add(0x10)));
            let entity = oracle(pointer_read(chunk.wrapping_add((120 * (index % 512)) as u64)));
            run(EntityLookup::spec_start(entity_list, index), oracle, 2) == Some(
                if chunk == 0 || entity == 0 {
                    None::<u64>
                } else {
                    Some(entity)
                },
            )
        }),
{
    lemma_entity_lookup(oracle, entity_list, index);
    assert(index >> 9u64 == index / 512) by (bit_vector);
    assert(index & 0x1ff == index % 512) by (bit_vector);
    let page: u64 = index >> 9u64;
    assert(page < 0x0080_0000_0000_0000) by (bit_vector)
        requires
            page == index >> 9u64,
    ;
    assert(page.wrapping_mul(8) == 8 * page);
    assert((index & 0x1ff) < 512) by (bit_vector);
    assert((index & 0x1ff).wrapping_mul(120) == 120 * (index & 0x1ff));
}

// ---------------------------------------------------------------------------
// Pawn lookup from a controller.

/// The pawn of `controller`: the controller's pawn handle, resolved through
/// the pawn list; `None` for the handle -1 or a null chunk or entry.
pub open spec fn spec_pawn(oracle: Oracle, offsets: Offsets, controller: u64) -> Option<u64> {
    let handle = oracle(Read { address: controller.wrapping_add(offsets.controller.pawn), width: Width::U32 });
    if is_null_handle(handle) {
        None
    } else {
        let chunk = oracle(pointer_read(pawn_chunk_address(offsets.interface.player, handle)));
        if chunk == 0 {
            None
        } else {
            let pawn = oracle(pointer_read(chunk_entry_address(chunk, handle)));
            if pawn == 0 {
                None
            } else {
                Some(pawn)
            }
        }
    }
}

/// Resolves the pawn handle of a controller.
pub enum PawnLookup {
    /// Waiting for the pawn handle.
    Handle { player_list: u64 },
    /// Waiting for the chunk pointer of the handle.
    Chunk { handle: u64 },
    /// Waiting for the pawn pointer.
    Entry,
}

impl PawnLookup {
    pub open spec fn spec_start(offsets: Offsets, controller: u64) -> Step<PawnLookup, Option<u64>> {
        Step::Read(
            PawnLookup::Handle { player_list: offsets.interface.player },
            Read { address: controller.wrapping_add(offsets.controller.pawn), width: Width::U32 },
        )
    }

    /// Starts resolving the pawn of `controller`.
    pub fn start(offsets: &Offsets, controller: u64) -> (step: Step<PawnLookup, Option<u64>>)
        ensures
            step == Self::spec_start(*offsets, controller),
    {
        Step::Read(
            PawnLookup::Handle { player_list: offsets.interface.player },
            Read { address: controller.wrapping_add(offsets.controller.pawn), width: Width::U32 },
        )
    }
}

impl ReadMachine for PawnLookup {
    type Output = Option<u64>;

    open spec fn next(self, reply: u64) -> Step<PawnLookup, Option<u64>> {
        match self {
            PawnLookup::Handle { player_list } => if is_null_handle(reply) {
                Step::Done(None)
            } else {
                Step::Read(
                    PawnLookup::Chunk { handle: reply },
                    pointer_read(pawn_chunk_address(player_list, reply)),
                )
            },
            PawnLookup::Chunk { handle } => if reply == 0 {
                Step::Done(None)
            } else {
                Step::Read(PawnLookup::Entry, pointer_read(chunk_entry_address(reply, handle)))
            },
            PawnLookup::Entry => if reply == 0 {
                Step::Done(None)
            } else {
                Step::Done(Some(reply))
            },
        }
    }

    fn resume(self, reply: u64) -> (step: Step<PawnLookup, Option<u64>>) {
        match self {
            PawnLookup::Handle { player_list } => if reply as u32 == 0xffff_ffffu32 {
                Step::Done(None)
            } else {
                Step::Read(
                    PawnLookup::Chunk { handle: reply },
                    read_pointer(pawn_chunk_address(player_list, reply)),
                )
            },
            PawnLookup::Chunk { handle } => if reply == 0 {
                Step::Done(None)
            } else {
                Step::Read(PawnLookup::Entry, read_pointer(chunk_entry_address(reply, handle)))
            },
            PawnLookup::Entry => if reply == 0 {
                Step::Done(None)
            } else {
                Step::Done(Some(reply))
            },
        }
    }
}

/// The pawn lookup reads at most three values and gives the controller's pawn.
pub proof fn lemma_pawn_lookup(oracle: Oracle, offsets: Offsets, controller: u64)
    ensures
        run(PawnLookup::spec_start(offsets, controller), oracle, 3) == Some(
            spec_pawn(oracle, offsets, controller),
        ),
{
    reveal_with_fuel(run, 4);
}

/// A pawn handle names its pawn by its low fifteen bits, the entity index:
/// the bits above do not change which pawn the lookup finds. Two controllers
/// whose handles (neither of them -1) agree in their low fifteen bits give
/// the same pawn, in memories that hold the same pointers.
pub proof fn lemma_pawn_by_entity_index(
    oracle: Oracle,
    other_oracle: Oracle,
    offsets: Offsets,
    controller: u64,
    other_controller: u64,
)
    requires
        oracle(Read { address: controller.wrapping_add(offsets.controller.pawn), width: Width::U32 }) as u32
            != 0xffff_ffffu32,
        other_oracle(Read { address: other_controller.wrapping_add(offsets.controller.pawn), width: Width::U32 })
            as u32 != 0xffff_ffffu32,
        oracle(Read { address: controller.wrapping_add(offsets.controller.pawn), width: Width::U32 }) & 0x7fff
            == other_oracle(Read { address: other_controller.wrapping_add(offsets.controller.pawn), width: Width::U32 })
            & 0x7fff,
        forall|r: Read| r.width == Width::U64 ==> #[trigger] oracle(r) == other_oracle(r),
    ensures
        run(PawnLookup::spec_start(offsets, controller), oracle, 3) == run(
            PawnLookup::spec_start(offsets, other_controller),
            other_oracle,
            3,
        ),
{
    lemma_pawn_lookup(oracle, offsets, controller);
    lemma_pawn_lookup(other_oracle, offsets, other_controller);
    let h1 = oracle(Read { address: controller.wrapping_add(offsets.controller.pawn), width: Width::U32 });
    let h2 = other_oracle(Read { address: other_controller.wrapping_add(offsets.controller.pawn), width: Width::U32 });
    assert(h1 & 0x1ff == h2 & 0x1ff) by (bit_vector)
        requires
            h1 & 0x7fff == h2 & 0x7fff,
    ;
    let chunk_read = pointer_read(pawn_chunk_address(offsets.interface.player, h1));
    assert(chunk_read == pointer_read(pawn_chunk_address(offsets.interface.player, h2)));
    assert(oracle(chunk_read) == other_oracle(chunk_read));
    let chunk = oracle(chunk_read);
    let entry_read = pointer_read(chunk_entry_address(chunk, h1));
    assert(entry_read == pointer_read(chunk_entry_address(chunk, h2)));
    assert(oracle(entry_read) == other_oracle(entry_read));
}

/// The pawn of a controller whose handle is not -1 is looked up in chunk
/// `(handle mod 0x8000) / 512` of the pawn list (eight bytes per chunk
/// pointer), at entry `handle mod 512` of that chunk (120 bytes per entry);
/// a null chunk or entry gives no pawn.
pub proof fn lemma_pawn_slot(oracle: Oracle, offsets: Offsets, controller: u64)
    requires
        oracle(Read { address: controller.wrapping_add(offsets.controller.pawn), width: Width::U32 }) as u32
            != 0xffff_ffffu32,
    ensures
        ({
            let handle = oracle(Read { address: controller.wrapping_add(offsets.controller.pawn), width: Width::U32 });
            let chunk = oracle(
                pointer_read(offsets.interface.player.wrapping_add((8 * ((handle % 0x8000) / 512)) as u64)),
            );
            let pawn = oracle(pointer_read(chunk.wrapping_add((120 * (handle % 512)) as u64)));
            run(PawnLookup::spec_start(offsets, controller), oracle, 3) == Some(
                if chunk == 0 || pawn == 0 {
                    None::<u64>
                } else {
                    Some(pawn)
                },
            )
        }),
{
    lemma_pawn_lookup(oracle, offsets, controller);
    let handle = oracle(Read { address: controller.wrapping_add(offsets.controller.pawn), width: Width::U32 });
    assert((handle & 0x7fff) >> 9u64 == (handle % 0x8000) / 512) by (bit_vector);
    assert(handle & 0x1ff == handle % 512) by (bit_vector);
    let page: u64 = (handle & 0x7fff) >> 9u64;
    assert(page < 64) by (bit_vector)
        requires
            page == (handle & 0x7fff) >> 9u64,
    ;
    assert(page.wrapping_mul(8) == 8 * page);
    assert((handle & 0x1ff) < 512) by (bit_vector);
    assert((handle & 0x1ff).wrapping_mul(120) == 120 * (handle & 0x1ff));
}

// ---------------------------------------------------------------------------
// Player lookups.

/// The player whose controller is `controller`, if its pawn resolves.
pub open spec fn spec_player_of(oracle: Oracle, offsets: Offsets, controller: u64) -> Option<Player> {
    match spec_pawn(oracle, offsets, controller) {
        Some(pawn) => Some(Player { controller, pawn }),
        None => None,
    }
}

/// The player at `index` of the entity list: its controller and its pawn.
pub open spec fn spec_index(oracle: Oracle, offsets: Offsets, index: u64) -> Option<Player> {
    match spec_client_entity(oracle, offsets.interface.entity, index) {
        Some(controller) => spec_player_of(oracle, offsets, controller),
        None => None,
    }
}

/// The local player: the controller that the local player pointer holds and
/// its pawn; `None` where the pointer is null or the pawn does not resolve.
pub open spec fn spec_local_player(oracle: Oracle, offsets: Offsets) -> Option<Player> {
    let controller = oracle(pointer_read(offsets.direct.local_player));
    if controller == 0 {
        None
    } else {
        spec_player_of(oracle, offsets, controller)
    }
}

/// Looks up a player: its controller, then the controller's pawn.
pub enum PlayerLookup {
    /// Looking up the controller at an entity index.
    Controller { lookup: EntityLookup, offsets: Offsets },
    /// Waiting for the local player pointer.
    LocalController { offsets: Offsets },
    /// Resolving the pawn of `controller`.
    Pawn { controller: u64, lookup: PawnLookup },
}

/// The player lookup step that a pawn lookup step for `controller` stands for.
pub open spec fn lift_pawn(controller: u64, step: Step<PawnLookup, Option<u64>>) -> Step<
    PlayerLookup,
    Option<Player>,
> {
    match step {
        Step::Read(lookup, read) => Step::Read(PlayerLookup::Pawn { controller, lookup }, read),
        Step::Done(Some(pawn)) => Step::Done(Some(Player { controller, pawn })),
        Step::Done(None) => Step::Done(None),
    }
}

fn lift_pawn_exec(controller: u64, step: Step<PawnLookup, Option<u64>>) -> (lifted: Step<
    PlayerLookup,
    Option<Player>,
>)
    ensures
        lifted == lift_pawn(controller, step),
{
    match step {
        Step::Read(lookup, read) => Step::Read(PlayerLookup::Pawn { controller, lookup }, read),
        Step::Done(Some(pawn)) => Step::Done(Some(Player { controller, pawn })),
        Step::Done(None) => Step::Done(None),
    }
}

impl ReadMachine for PlayerLookup {
    type Output = Option<Player>;

    open spec fn next(self, reply: u64) -> Step<PlayerLookup, Option<Player>> {
        match self {
            PlayerLookup::Controller { lookup, offsets } => match lookup.next(reply) {
                Step::Read(lookup, read) => Step::Read(PlayerLookup::Controller { lookup, offsets }, read),
                Step::Done(Some(controller)) => lift_pawn(
                    controller,
                    PawnLookup::spec_start(offsets, controller),
                ),
                Step::Done(None) => Step::Done(None),
            },
            PlayerLookup::LocalController { offsets } => if reply == 0 {
                Step::Done(None)
            } else {
                lift_pawn(reply, PawnLookup::spec_start(offsets, reply))
            },
            PlayerLookup::Pawn { controller, lookup } => lift_pawn(controller, lookup.next(reply)),
        }
    }

    fn resume(self, reply: u64) -> (step: Step<PlayerLookup, Option<Player>>) {
        match self {
            PlayerLookup::Controller { lookup, offsets } => match lookup.resume(reply) {
                Step::Read(lookup, read) => Step::Read(PlayerLookup::Controller { lookup, offsets }, read),
                Step::Done(Some(controller)) => lift_pawn_exec(
                    controller,
                    PawnLookup::start(&offsets, controller),
                ),
                Step::Done(None) => Step::Done(None),
            },
            PlayerLookup::LocalController { offsets } => if reply == 0 {
                Step::Done(None)
            } else {
                lift_pawn_exec(reply, PawnLookup::start(&offsets, reply))
            },
            PlayerLookup::Pawn { controller, lookup } => lift_pawn_exec(controller, lookup.resume(reply)),
        }
    }
}

impl Player {
    pub open spec fn spec_index_start(offsets: Offsets, index: u64) -> Step<PlayerLookup, Option<Player>> {
        match EntityLookup::spec_start(offsets.interface.entity, index) {
            Step::Read(lookup, read) => Step::Read(PlayerLookup::Controller { lookup, offsets }, read),
            Step::Done(_) => Step::Done(None),
        }
    }

    pub open spec fn spec_local_player_start(offsets: Offsets) -> Step<PlayerLookup, Option<Player>> {
        Step::Read(PlayerLookup::LocalController { offsets }, pointer_read(offsets.direct.local_player))
    }

    /// Starts the lookup of the player at `index` of the entity list; the
    /// lookup ends with `spec_index` (see `lemma_index`).
    pub fn index(cs2: &CS2, index: u64) -> (step: Step<PlayerLookup, Option<Player>>)
        ensures
            step == Self::spec_index_start(cs2.offsets, index),
    {
        match EntityLookup::start(cs2.offsets.interface.entity, index) {
            Step::Read(lookup, read) => Step::Read(
                PlayerLookup::Controller { lookup, offsets: cs2.offsets },
                read,
            ),
            Step::Done(_) => Step::Done(None),
        }
    }

    /// Starts the lookup of the local player; the lookup ends with
    /// `spec_local_player` (see `lemma_local_player`).
    pub fn local_player(cs2: &CS2) -> (step: Step<PlayerLookup, Option<Player>>)
        ensures
            step == Self::spec_local_player_start(cs2.offsets),
    {
        Step::Read(
            PlayerLookup::LocalController { offsets: cs2.offsets },
            read_pointer(cs2.offsets.direct.local_player),
        )
    }
}

/// Looking up a player by index reads at most five values and gives the
/// controller at that index together with its pawn.
pub proof fn lemma_index(oracle: Oracle, offsets: Offsets, index: u64)
    ensures
        run(Player::spec_index_start(offsets, index), oracle, 5) == Some(
            spec_index(oracle, offsets, index),
        ),
{
    reveal_with_fuel(run, 6);
}

/// Looking up the local player reads at most four values and gives the
/// controller behind the local player pointer together with its pawn.
pub proof fn lemma_local_player(oracle: Oracle, offsets: Offsets)
    ensures
        run(Player::spec_local_player_start(offsets), oracle, 4) == Some(
            spec_local_player(oracle, offsets),
        ),
{
    reveal_with_fuel(run, 5);
}

// ---------------------------------------------------------------------------
// Values read from a player's pawn.

/// Health outside 0..=100 stands for a garbage read and counts as 0.
pub open spec fn clamp_health(raw: i32) -> i32 {
    if 0 <= raw <= 100 {
        raw
    } else {
        0
    }
}

/// Reads a player's health.
pub struct HealthRead;

impl ReadMachine for HealthRead {
    type Output = i32;

    open spec fn next(self, reply: u64) -> Step<HealthRead, i32> {
        Step::Done(clamp_health(reply as u32 as i32))
    }

    fn resume(self, reply: u64) -> (step: Step<HealthRead, i32>) {
        let health = reply as u32 as i32;
        if 0 <= health && health <= 100 {
            Step::Done(health)
        } else {
            Step::Done(0)
        }
    }
}

/// Reads a 32-bit signed field of a player.
pub struct I32Read;

impl ReadMachine for I32Read {
    type Output = i32;

    open spec fn next(self, reply: u64) -> Step<I32Read, i32> {
        Step::Done(reply as u32 as i32)
    }

    fn resume(self, reply: u64) -> (step: Step<I32Read, i32>) {
        Step::Done(reply as u32 as i32)
    }
}

/// Reads a one-byte field of a player.
pub struct U8Read;

impl ReadMachine for U8Read {
    type Output = u8;

    open spec fn next(self, reply: u64) -> Step<U8Read, u8> {
        Step::Done(reply as u8)
    }

    fn resume(self, reply: u64) -> (step: Step<U8Read, u8>) {
        Step::Done(reply as u8)
    }
}

/// Reads a 64-bit signed field of a player.
pub struct I64Read;

impl ReadMachine for I64Read {
    type Output = i64;

    open spec fn next(self, reply: u64) -> Step<I64Read, i64> {
        Step::Done(reply as i64)
    }

    fn resume(self, reply: u64) -> (step: Step<I64Read, i64>) {
        Step::Done(reply as i64)
    }
}

/// Whether a player's scene node is dormant (not updated by the server).
pub open spec fn spec_is_dormant(oracle: Oracle, offsets: Offsets, player: Player) -> bool {
    let node = oracle(pointer_read(player.pawn.wrapping_add(offsets.pawn.game_scene_node)));
    oracle(Read { address: node.wrapping_add(offsets.game_scene_node.dormant), width: Width::U8 }) as u8 != 0
}

/// The health of a player as the game reports it, clamped.
pub open spec fn spec_health(oracle: Oracle, offsets: Offsets, player: Player) -> i32 {
    clamp_health(
        oracle(Read { address: player.pawn.wrapping_add(offsets.pawn.health), width: Width::U32 }) as u32 as i32,
    )
}

/// The life state of a player; 0 means alive.
pub open spec fn spec_life_state(oracle: Oracle, offsets: Offsets, player: Player) -> u8 {
    oracle(Read { address: player.pawn.wrapping_add(offsets.pawn.life_state), width: Width::U8 }) as u8
}

/// A player is valid when it is not dormant, has positive health and is alive.
pub open spec fn spec_is_valid(oracle: Oracle, offsets: Offsets, player: Player) -> bool {
    !spec_is_dormant(oracle, offsets, player) && spec_health(oracle, offsets, player) > 0
        && spec_life_state(oracle, offsets, player) == 0
}

/// Checks whether a player is valid.
pub enum ValidityCheck {
    /// Waiting for the scene node pointer.
    Node { player: Player, offsets: Offsets },
    /// Waiting for the dormant flag.
    Dormant { player: Player, offsets: Offsets },
    /// Waiting for the health.
    Health { player: Player, offsets: Offsets },
    /// Waiting for the life state.
    LifeState,
}

impl ReadMachine for ValidityCheck {
    type Output = bool;

    open spec fn next(self, reply: u64) -> Step<ValidityCheck, bool> {
        match self {
            ValidityCheck::Node { player, offsets } => Step::Read(
                ValidityCheck::Dormant { player, offsets },
                Read { address: reply.wrapping_add(offsets.game_scene_node.dormant), width: Width::U8 },
            ),
            ValidityCheck::Dormant { player, offsets } => if reply as u8 != 0 {
                Step::Done(false)
            } else {
                Step::Read(
                    ValidityCheck::Health { player, offsets },
                    Read { address: player.pawn.wrapping_add(offsets.pawn.health), width: Width::U32 },
                )
            },
            ValidityCheck::Health { player, offsets } => if clamp_health(reply as u32 as i32) <= 0 {
                Step::Done(false)
            } else {
                Step::Read(
                    ValidityCheck::LifeState,
                    Read { address: player.pawn.wrapping_add(offsets.pawn.life_state), width: Width::U8 },
                )
            },
            ValidityCheck::LifeState => Step::Done(reply as u8 == 0),
        }
    }

    fn resume(self, reply: u64) -> (step: Step<ValidityCheck, bool>) {
        match self {
            ValidityCheck::Node { player, offsets } => Step::Read(
                ValidityCheck::Dormant { player, offsets },
                Read { address: reply.wrapping_add(offsets.game_scene_node.dormant), width: Width::U8 },
            ),
            ValidityCheck::Dormant { player, offsets } => if reply as u8 != 0 {
                Step::Done(false)
            } else {
                Step::Read(
                    ValidityCheck::Health { player, offsets },
                    Read { address: player.pawn.wrapping_add(offsets.pawn.health), width: Width::U32 },
                )
            },
            ValidityCheck::Health { player, offsets } => {
                let health = match HealthRead.resume(reply) {
                    Step::Done(h) => h,
                    Step::Read(..) => 0,
                };
                if health <= 0 {
                    Step::Done(false)
                } else {
                    Step::Read(
                        ValidityCheck::LifeState,
                        Read { address: player.pawn.wrapping_add(offsets.pawn.life_state), width: Width::U8 },
                    )
                }
            },
            ValidityCheck::LifeState => Step::Done(reply as u8 == 0),
        }
    }
}

/// Checks whether a player's scene node is dormant.
pub enum DormancyCheck {
    /// Waiting for the scene node pointer.
    Node { dormant: u64 },
    /// Waiting for the dormant flag.
    Flag,
}

impl ReadMachine for DormancyCheck {
    type Output = bool;

    open spec fn next(self, reply: u64) -> Step<DormancyCheck, bool> {
        match self {
            DormancyCheck::Node { dormant } => Step::Read(
                DormancyCheck::Flag,
                Read { address: reply.wrapping_add(dormant), width: Width::U8 },
            ),
            DormancyCheck::Flag => Step::Done(reply as u8 != 0),
        }
    }

    fn resume(self, reply: u64) -> (step: Step<DormancyCheck, bool>) {
        match self {
            DormancyCheck::Node { dormant } => Step::Read(
                DormancyCheck::Flag,
                Read { address: reply.wrapping_add(dormant), width: Width::U8 },
            ),
            DormancyCheck::Flag => Step::Done(reply as u8 != 0),
        }
    }
}

/// The write that sets the desired field of view, if the camera's field of
/// view differs from `value`; nothing where the camera services are null.
pub open spec fn spec_set_fov(oracle: Oracle, offsets: Offsets, player: Player, value: u32) -> Option<Write> {
    let camera = oracle(pointer_read(player.pawn.wrapping_add(offsets.pawn.camera_services)));
    if camera == 0 {
        None
    } else if oracle(Read { address: camera.wrapping_add(offsets.camera_services.fov), width: Width::U32 }) as u32
        == value {
        None
    } else {
        Some(fov_write(offsets, player, value))
    }
}

/// Writing `value` as the controller's desired field of view.
pub open spec fn fov_write(offsets: Offsets, player: Player, value: u32) -> Write {
    Write {
        address: player.controller.wrapping_add(offsets.controller.desired_fov),
        width: Width::U32,
        value: value as u64,
    }
}

/// Sets a player's field of view.
pub enum FovUpdate {
    /// Waiting for the camera services pointer.
    Camera { player: Player, offsets: Offsets, value: u32 },
    /// Waiting for the camera's current field of view.
    Current { player: Player, offsets: Offsets, value: u32 },
}

impl ReadMachine for FovUpdate {
    type Output = Option<Write>;

    open spec fn next(self, reply: u64) -> Step<FovUpdate, Option<Write>> {
        match self {
            FovUpdate::Camera { player, offsets, value } => if reply == 0 {
                Step::Done(None)
            } else {
                Step::Read(
                    FovUpdate::Current { player, offsets, value },
                    Read { address: reply.wrapping_add(offsets.camera_services.fov), width: Width::U32 },
                )
            },
            FovUpdate::Current { player, offsets, value } => if reply as u32 == value {
                Step::Done(None)
            } else {
                Step::Done(Some(fov_write(offsets, player, value)))
            },
        }
    }

    fn resume(self, reply: u64) -> (step: Step<FovUpdate, Option<Write>>) {
        match self {
            FovUpdate::Camera { player, offsets, value } => if reply == 0 {
                Step::Done(None)
            } else {
                Step::Read(
                    FovUpdate::Current { player, offsets, value },
                    Read { address: reply.wrapping_add(offsets.camera_services.fov), width: Width::U32 },
                )
            },
            FovUpdate::Current { player, offsets, value } => if reply as u32 == value {
                Step::Done(None)
            } else {
                Step::Done(
                    Some(
                        Write {
                            address: player.controller.wrapping_add(offsets.controller.desired_fov),
                            width: Width::U32,
                            value: value as u64,
                        },
                    ),
                )
            },
        }
    }
}

/// The writes that make a player glow in `color`: the glowing flag (one byte),
/// the glow type 3 (four bytes) and the override color (four bytes).
pub open spec fn spec_glow(offsets: Offsets, player: Player, color: u32) -> Seq<Write> {
    let glow = player.pawn.wrapping_add(offsets.pawn.glow);
    seq![
        Write { address: glow.wrapping_add(offsets.glow.is_glowing), width: Width::U8, value: 1 },
        Write { address: glow.wrapping_add(offsets.glow.glow_type), width: Width::U32, value: 3 },
        Write { address: glow.wrapping_add(offsets.glow.color_override), width: Width::U32, value: color as u64 },
    ]
}

impl Player {
    pub open spec fn field_read(self, field: u64, width: Width) -> Read {
        Read { address: self.pawn.wrapping_add(field), width }
    }

    /// Reads the player's health; values outside 0..=100 give 0.
    pub fn health(&self, cs2: &CS2) -> (step: Step<HealthRead, i32>)
        ensures
            step == Step::<HealthRead, i32>::Read(HealthRead, self.field_read(cs2.offsets.pawn.health, Width::U32)),
    {
        Step::Read(HealthRead, Read { address: self.pawn.wrapping_add(cs2.offsets.pawn.health), width: Width::U32 })
    }

    /// Reads the player's armor.
    pub fn armor(&self, cs2: &CS2) -> (step: Step<I32Read, i32>)
        ensures
            step == Step::<I32Read, i32>::Read(I32Read, self.field_read(cs2.offsets.pawn.armor, Width::U32)),
    {
        Step::Read(I32Read, Read { address: self.pawn.wrapping_add(cs2.offsets.pawn.armor), width: Width::U32 })
    }

    /// Reads the player's team (the low byte of the team number).
    pub fn team(&self, cs2: &CS2) -> (step: Step<U8Read, u8>)
        ensures
            step == Step::<U8Read, u8>::Read(U8Read, self.field_read(cs2.offsets.pawn.team, Width::U8)),
    {
        Step::Read(U8Read, Read { address: self.pawn.wrapping_add(cs2.offsets.pawn.team), width: Width::U8 })
    }

    /// Reads the player's life state; 0 means alive.
    pub fn life_state(&self, cs2: &CS2) -> (step: Step<U8Read, u8>)
        ensures
            step == Step::<U8Read, u8>::Read(U8Read, self.field_read(cs2.offsets.pawn.life_state, Width::U8)),
    {
        Step::Read(U8Read, Read { address: self.pawn.wrapping_add(cs2.offsets.pawn.life_state), width: Width::U8 })
    }

    /// Reads how many shots the player fired in the current burst.
    pub fn shots_fired(&self, cs2: &CS2) -> (step: Step<I32Read, i32>)
        ensures
            step == Step::<I32Read, i32>::Read(I32Read, self.field_read(cs2.offsets.pawn.shots_fired, Width::U32)),
    {
        Step::Read(I32Read, Read { address: self.pawn.wrapping_add(cs2.offsets.pawn.shots_fired), width: Width::U32 })
    }

    /// Reads the mask of players that have spotted this player.
    pub fn spotted_mask(&self, cs2: &CS2) -> (step: Step<I64Read, i64>)
        ensures
            step == Step::<I64Read, i64>::Read(
                I64Read,
                Read {
                    address: self.pawn.wrapping_add(cs2.offsets.pawn.spotted_state).wrapping_add(
                        cs2.offsets.spotted_state.mask,
                    ),
                    width: Width::U64,
                },
            ),
    {
        Step::Read(
            I64Read,
            Read {
                address: self.pawn.wrapping_add(cs2.offsets.pawn.spotted_state).wrapping_add(
                    cs2.offsets.spotted_state.mask,
                ),
                width: Width::U64,
            },
        )
    }

    /// The read of the player's scene node pointer.
    fn game_scene_node(&self, offsets: &Offsets) -> (read: Read)
        ensures
            read == pointer_read(self.pawn.wrapping_add(offsets.pawn.game_scene_node)),
    {
        read_pointer(self.pawn.wrapping_add(offsets.pawn.game_scene_node))
    }

    /// Starts checking whether the player's scene node is dormant.
    pub fn is_dormant(&self, cs2: &CS2) -> (step: Step<DormancyCheck, bool>)
        ensures
            step == Step::<DormancyCheck, bool>::Read(
                DormancyCheck::Node { dormant: cs2.offsets.game_scene_node.dormant },
                pointer_read(self.pawn.wrapping_add(cs2.offsets.pawn.game_scene_node)),
            ),
    {
        Step::Read(
            DormancyCheck::Node { dormant: cs2.offsets.game_scene_node.dormant },
            self.game_scene_node(&cs2.offsets),
        )
    }

    pub open spec fn spec_is_valid_start(self, offsets: Offsets) -> Step<ValidityCheck, bool> {
        Step::Read(
            ValidityCheck::Node { player: self, offsets },
            pointer_read(self.pawn.wrapping_add(offsets.pawn.game_scene_node)),
        )
    }

    /// Starts checking whether the player is valid: not dormant, with
    /// positive health, alive (see `lemma_is_valid`).
    pub fn is_valid(&self, cs2: &CS2) -> (step: Step<ValidityCheck, bool>)
        ensures
            step == self.spec_is_valid_start(cs2.offsets),
    {
        self.validity_check(&cs2.offsets)
    }

    fn validity_check(&self, offsets: &Offsets) -> (step: Step<ValidityCheck, bool>)
        ensures
            step == self.spec_is_valid_start(*offsets),
    {
        Step::Read(ValidityCheck::Node { player: *self, offsets: *offsets }, self.game_scene_node(offsets))
    }

    /// The writes that make the player glow in `color`.
    pub fn glow(&self, cs2: &CS2, color: u32) -> (writes: Vec<Write>)
        ensures
            writes@ == spec_glow(cs2.offsets, *self, color),
    {
        let glow = self.pawn.wrapping_add(cs2.offsets.pawn.glow);
        let mut writes = Vec::new();
        writes.push(Write { address: glow.wrapping_add(cs2.offsets.glow.is_glowing), width: Width::U8, value: 1 });
        writes.push(Write { address: glow.wrapping_add(cs2.offsets.glow.glow_type), width: Width::U32, value: 3 });
        writes.push(
            Write {
                address: glow.wrapping_add(cs2.offsets.glow.color_override),
                width: Width::U32,
                value: color as u64,
            },
        );
        writes
    }

    pub open spec fn spec_set_fov_start(self, offsets: Offsets, value: u32) -> Step<FovUpdate, Option<Write>> {
        Step::Read(
            FovUpdate::Camera { player: self, offsets, value },
            pointer_read(self.pawn.wrapping_add(offsets.pawn.camera_services)),
        )
    }

    /// Starts setting the player's field of view to `value`: the machine ends
    /// with the write to perform, if any (see `lemma_set_fov`).
    pub fn set_fov(&self, cs2: &CS2, value: u32) -> (step: Step<FovUpdate, Option<Write>>)
        ensures
            step == self.spec_set_fov_start(cs2.offsets, value),
    {
        Step::Read(
            FovUpdate::Camera { player: *self, offsets: cs2.offsets, value },
            read_pointer(self.pawn.wrapping_add(cs2.offsets.pawn.camera_services)),
        )
    }
}

/// The health read gives the clamped health.
pub proof fn lemma_health(oracle: Oracle, offsets: Offsets, player: Player)
    ensures
        run(
            Step::<HealthRead, i32>::Read(HealthRead, player.field_read(offsets.pawn.health, Width::U32)),
            oracle,
            1,
        ) == Some(spec_health(oracle, offsets, player)),
        0 <= spec_health(oracle, offsets, player) <= 100,
{
    reveal_with_fuel(run, 2);
}

/// The validity check reads at most four values and tells whether the player
/// is not dormant, has positive health and is alive.
pub proof fn lemma_is_valid(oracle: Oracle, offsets: Offsets, player: Player)
    ensures
        run(player.spec_is_valid_start(offsets), oracle, 4) == Some(spec_is_valid(oracle, offsets, player)),
{
    reveal_with_fuel(run, 5);
}

/// Setting the field of view reads at most two values and asks for the write
/// of the desired field of view exactly where the camera's differs.
pub proof fn lemma_set_fov(oracle: Oracle, offsets: Offsets, player: Player, value: u32)
    ensures
        run(player.spec_set_fov_start(offsets, value), oracle, 2) == Some(
            spec_set_fov(oracle, offsets, player, value),
        ),
{
    reveal_with_fuel(run, 3);
}

// ---------------------------------------------------------------------------
// Caching the players of the entity list.

/// The highest entity index the player scan looks at.
pub const LAST_PLAYER_INDEX: u64 = 64;

/// The reads that one index of the player scan needs at most: five for the
/// lookup and four for the validity check.
pub open spec fn reads_per_index() -> nat {
    9
}

/// Players found so far, the most recent first.
pub enum PlayerList {
    Empty,
    Cons(Player, Box<PlayerList>),
}

impl PlayerList {
    /// The players in the order they were found.
    pub open spec fn to_seq(self) -> Seq<Player>
        decreases self,
    {
        match self {
            PlayerList::Empty => Seq::empty(),
            PlayerList::Cons(p, rest) => rest.to_seq().push(p),
        }
    }

    /// The players in the order they were found.
    pub fn into_vec(self) -> (players: Vec<Player>)
        ensures
            players@ == self.to_seq(),
        decreases self,
    {
        match self {
            PlayerList::Empty => Vec::new(),
            PlayerList::Cons(p, rest) => {
                let mut players = (*rest).into_vec();
                players.push(p);
                players
            },
        }
    }
}

/// What a player scan decided.
pub enum PlayerCache {
    /// The local player was not found: the cache stays as it is.
    Keep,
    /// The cache becomes `players`; where `local_index` holds an index, it
    /// becomes the local pawn index.
    Replace { players: PlayerList, local_index: Option<u64> },
}

/// What a player scan decided, with the player list as a sequence.
pub enum CacheOutcome {
    Keep,
    Replace { players: Seq<Player>, local_index: Option<u64> },
}

impl PlayerCache {
    pub open spec fn outcome(self) -> CacheOutcome {
        match self {
            PlayerCache::Keep => CacheOutcome::Keep,
            PlayerCache::Replace { players, local_index } => CacheOutcome::Replace {
                players: players.to_seq(),
                local_index,
            },
        }
    }
}

/// Scanning entity indices `index..=64`: the valid players other than `local`
/// are appended to `found`, and the slot of the local player is recorded as
/// its index minus one (wrapping, as the entity list counts from 1).
pub open spec fn spec_scan_from(
    oracle: Oracle,
    offsets: Offsets,
    local: Player,
    index: nat,
    found: Seq<Player>,
    local_index: Option<u64>,
) -> (Seq<Player>, Option<u64>)
    decreases 65 - index,
{
    if index > 64 {
        (found, local_index)
    } else {
        match spec_index(oracle, offsets, index as u64) {
            None => spec_scan_from(oracle, offsets, local, index + 1, found, local_index),
            Some(p) => if !spec_is_valid(oracle, offsets, p) {
                spec_scan_from(oracle, offsets, local, index + 1, found, local_index)
            } else if p == local {
                spec_scan_from(
                    oracle,
                    offsets,
                    local,
                    index + 1,
                    found,
                    Some((index as u64).wrapping_sub(1)),
                )
            } else {
                spec_scan_from(oracle, offsets, local, index + 1, found.push(p), local_index)
            },
        }
    }
}

/// What caching the players decides: everything is dropped for a process that
/// is gone, nothing changes without a local player, and otherwise the cache
/// becomes the valid players of indices 0..=64 other than the local player.
pub open spec fn spec_cache_players(oracle: Oracle, offsets: Offsets, process_valid: bool) -> CacheOutcome {
    if !process_valid {
        CacheOutcome::Replace { players: Seq::empty(), local_index: None }
    } else {
        match spec_local_player(oracle, offsets) {
            None => CacheOutcome::Keep,
            Some(local) => {
                let (players, local_index) = spec_scan_from(oracle, offsets, local, 0, Seq::empty(), None);
                CacheOutcome::Replace { players, local_index }
            },
        }
    }
}

/// The scan over the entity list, at one index.
pub enum ScanPhase {
    /// Looking up the player at the index.
    Lookup(PlayerLookup),
    /// Checking whether the player found there is valid.
    Validate(Player, ValidityCheck),
}

/// Caches the players of the entity list.
pub enum PlayerScan {
    /// Looking up the local player.
    Local { offsets: Offsets, lookup: PlayerLookup },
    /// Scanning the entity list.
    Scan {
        offsets: Offsets,
        local: Player,
        index: u64,
        found: PlayerList,
        local_index: Option<u64>,
        phase: ScanPhase,
    },
}

/// The scan step that starts at `index`, or the result after the last index.
pub open spec fn scan_at(
    offsets: Offsets,
    local: Player,
    index: u64,
    found: PlayerList,
    local_index: Option<u64>,
) -> Step<PlayerScan, PlayerCache> {
    if index > LAST_PLAYER_INDEX {
        Step::Done(PlayerCache::Replace { players: found, local_index })
    } else {
        match Player::spec_index_start(offsets, index) {
            Step::Read(lookup, read) => Step::Read(
                PlayerScan::Scan { offsets, local, index, found, local_index, phase: ScanPhase::Lookup(lookup) },
                read,
            ),
            Step::Done(_) => Step::Done(PlayerCache::Replace { players: found, local_index }),
        }
    }
}

fn scan_at_exec(
    offsets: Offsets,
    local: Player,
    index: u64,
    found: PlayerList,
    local_index: Option<u64>,
) -> (step: Step<PlayerScan, PlayerCache>)
    requires
        index <= LAST_PLAYER_INDEX + 1,
    ensures
        step == scan_at(offsets, local, index, found, local_index),
{
    if index > LAST_PLAYER_INDEX {
        Step::Done(PlayerCache::Replace { players: found, local_index })
    } else {
        match EntityLookup::start(offsets.interface.entity, index) {
            Step::Read(lookup, read) => Step::Read(
                PlayerScan::Scan {
                    offsets,
                    local,
                    index,
                    found,
                    local_index,
                    phase: ScanPhase::Lookup(PlayerLookup::Controller { lookup, offsets }),
                },
                read,
            ),
            Step::Done(_) => Step::Done(PlayerCache::Replace { players: found, local_index }),
        }
    }
}

/// The scan step after the local player lookup stepped to `step`.
pub open spec fn after_local(offsets: Offsets, step: Step<PlayerLookup, Option<Player>>) -> Step<
    PlayerScan,
    PlayerCache,
> {
    match step {
        Step::Read(lookup, read) => Step::Read(PlayerScan::Local { offsets, lookup }, read),
        Step::Done(None) => Step::Done(PlayerCache::Keep),
        Step::Done(Some(local)) => scan_at(offsets, local, 0, PlayerList::Empty, None),
    }
}

/// The scan step after the validity check of `p` at `index` decided `valid`.
pub open spec fn after_check(
    offsets: Offsets,
    local: Player,
    index: u64,
    found: PlayerList,
    local_index: Option<u64>,
    p: Player,
    valid: bool,
) -> Step<PlayerScan, PlayerCache> {
    if !valid {
        scan_at(offsets, local, (index + 1) as u64, found, local_index)
    } else if p == local {
        scan_at(offsets, local, (index + 1) as u64, found, Some(index.wrapping_sub(1)))
    } else {
        scan_at(offsets, local, (index + 1) as u64, PlayerList::Cons(p, Box::new(found)), local_index)
    }
}

impl ReadMachine for PlayerScan {
    type Output = PlayerCache;

    open spec fn next(self, reply: u64) -> Step<PlayerScan, PlayerCache> {
        match self {
            PlayerScan::Local { offsets, lookup } => after_local(offsets, lookup.next(reply)),
            PlayerScan::Scan { offsets, local, index, found, local_index, phase } => if index
                > LAST_PLAYER_INDEX {
                Step::Done(PlayerCache::Replace { players: found, local_index })
            } else {
                match phase {
                ScanPhase::Lookup(lookup) => match lookup.next(reply) {
                    Step::Read(lookup, read) => Step::Read(
                        PlayerScan::Scan { offsets, local, index, found, local_index, phase: ScanPhase::Lookup(lookup) },
                        read,
                    ),
                    Step::Done(None) => scan_at(offsets, local, (index + 1) as u64, found, local_index),
                    Step::Done(Some(p)) => match p.spec_is_valid_start(offsets) {
                        Step::Read(check, read) => Step::Read(
                            PlayerScan::Scan {
                                offsets,
                                local,
                                index,
                                found,
                                local_index,
                                phase: ScanPhase::Validate(p, check),
                            },
                            read,
                        ),
                        Step::Done(valid) => after_check(offsets, local, index, found, local_index, p, valid),
                    },
                },
                ScanPhase::Validate(p, check) => match check.next(reply) {
                    Step::Read(check, read) => Step::Read(
                        PlayerScan::Scan { offsets, local, index, found, local_index, phase: ScanPhase::Validate(p, check) },
                        read,
                    ),
                    Step::Done(valid) => after_check(offsets, local, index, found, local_index, p, valid),
                },
                }
            },
        }
    }

    fn resume(self, reply: u64) -> (step: Step<PlayerScan, PlayerCache>) {
        match self {
            PlayerScan::Local { offsets, lookup } => match lookup.resume(reply) {
                Step::Read(lookup, read) => Step::Read(PlayerScan::Local { offsets, lookup }, read),
                Step::Done(None) => Step::Done(PlayerCache::Keep),
                Step::Done(Some(local)) => scan_at_exec(offsets, local, 0, PlayerList::Empty, None),
            },
            PlayerScan::Scan { offsets, local, index, found, local_index, phase } => {
                if index > LAST_PLAYER_INDEX {
                    return Step::Done(PlayerCache::Replace { players: found, local_index });
                }
                match phase {
                    ScanPhase::Lookup(lookup) => match lookup.resume(reply) {
                        Step::Read(lookup, read) => Step::Read(
                            PlayerScan::Scan {
                                offsets,
                                local,
                                index,
                                found,
                                local_index,
                                phase: ScanPhase::Lookup(lookup),
                            },
                            read,
                        ),
                        Step::Done(None) => scan_at_exec(offsets, local, index + 1, found, local_index),
                        Step::Done(Some(p)) => match p.validity_check(&offsets) {
                            Step::Read(check, read) => Step::Read(
                                PlayerScan::Scan {
                                    offsets,
                                    local,
                                    index,
                                    found,
                                    local_index,
                                    phase: ScanPhase::Validate(p, check),
                                },
                                read,
                            ),
                            Step::Done(valid) => after_check_exec(offsets, local, index, found, local_index, p, valid),
                        },
                    },
                    ScanPhase::Validate(p, check) => match check.resume(reply) {
                        Step::Read(check, read) => Step::Read(
                            PlayerScan::Scan {
                                offsets,
                                local,
                                index,
                                found,
                                local_index,
                                phase: ScanPhase::Validate(p, check),
                            },
                            read,
                        ),
                        Step::Done(valid) => after_check_exec(offsets, local, index, found, local_index, p, valid),
                    },
                }
            },
        }
    }
}

fn after_check_exec(
    offsets: Offsets,
    local: Player,
    index: u64,
    found: PlayerList,
    local_index: Option<u64>,
    p: Player,
    valid: bool,
) -> (step: Step<PlayerScan, PlayerCache>)
    requires
        index <= LAST_PLAYER_INDEX,
    ensures
        step == after_check(offsets, local, index, found, local_index, p, valid),
{
    if !valid {
        scan_at_exec(offsets, local, index + 1, found, local_index)
    } else if p == local {
        scan_at_exec(offsets, local, index + 1, found, Some(index.wrapping_sub(1)))
    } else {
        scan_at_exec(offsets, local, index + 1, PlayerList::Cons(p, Box::new(found)), local_index)
    }
}

impl CS2 {
    pub open spec fn spec_cache_players_start(offsets: Offsets, process_valid: bool) -> Step<
        PlayerScan,
        PlayerCache,
    > {
        if !process_valid {
            Step::Done(PlayerCache::Replace { players: PlayerList::Empty, local_index: None })
        } else {
            after_local(offsets, Player::spec_local_player_start(offsets))
        }
    }

    /// Starts caching the players: `process_valid` tells whether the game
    /// process still exists. The machine ends with the decision that
    /// `apply_player_cache` carries out (see `lemma_cache_players`).
    pub fn cache_players(&self, process_valid: bool) -> (step: Step<PlayerScan, PlayerCache>)
        ensures
            step == Self::spec_cache_players_start(self.offsets, process_valid),
    {
        if !process_valid {
            Step::Done(PlayerCache::Replace { players: PlayerList::Empty, local_index: None })
        } else {
            match Player::local_player(self) {
                Step::Read(lookup, read) => Step::Read(PlayerScan::Local { offsets: self.offsets, lookup }, read),
                Step::Done(_) => Step::Done(PlayerCache::Keep),
            }
        }
    }

    /// Carries out the decision of a player scan.
    pub fn apply_player_cache(&mut self, cache: PlayerCache)
        ensures
            final(self).offsets == old(self).offsets,
            match cache.outcome() {
                CacheOutcome::Keep => final(self).players@ == old(self).players@ && final(self).target
                    == old(self).target,
                CacheOutcome::Replace { players, local_index } => {
                    &&& final(self).players@ == players
                    &&& final(self).target.local_pawn_index == match local_index {
                        Some(i) => i,
                        None => old(self).target.local_pawn_index,
                    }
                },
            },
    {
        match cache {
            PlayerCache::Keep => {},
            PlayerCache::Replace { players, local_index } => {
                self.players = players.into_vec();
                if let Some(i) = local_index {
                    self.target.local_pawn_index = i;
                }
            },
        }
    }
}

/// Where the scan goes once the lookup at `index` found `found_player`.
pub open spec fn after_lookup(
    offsets: Offsets,
    local: Player,
    index: u64,
    found: PlayerList,
    local_index: Option<u64>,
    found_player: Option<Player>,
) -> Step<PlayerScan, PlayerCache> {
    match found_player {
        None => scan_at(offsets, local, (index + 1) as u64, found, local_index),
        Some(p) => match p.spec_is_valid_start(offsets) {
            Step::Read(check, read) => Step::Read(
                PlayerScan::Scan { offsets, local, index, found, local_index, phase: ScanPhase::Validate(p, check) },
                read,
            ),
            Step::Done(valid) => after_check(offsets, local, index, found, local_index, p, valid),
        },
    }
}

proof fn lemma_lift_lookup(
    oracle: Oracle,
    offsets: Offsets,
    local: Player,
    index: u64,
    found: PlayerList,
    local_index: Option<u64>,
    lookup: PlayerLookup,
    read: Read,
    sub_fuel: nat,
    rest: nat,
    fuel: nat,
)
    requires
        index <= LAST_PLAYER_INDEX,
        run(Step::Read(lookup, read), oracle, sub_fuel) is Some,
        run(
            after_lookup(offsets, local, index, found, local_index, run(Step::Read(lookup, read), oracle, sub_fuel)->0),
            oracle,
            rest,
        ) is Some,
        fuel >= sub_fuel + rest,
    ensures
        run(
            Step::Read(
                PlayerScan::Scan { offsets, local, index, found, local_index, phase: ScanPhase::Lookup(lookup) },
                read,
            ),
            oracle,
            fuel,
        ) == run(
            after_lookup(offsets, local, index, found, local_index, run(Step::Read(lookup, read), oracle, sub_fuel)->0),
            oracle,
            rest,
        ),
    decreases sub_fuel,
{
    let o = run(Step::Read(lookup, read), oracle, sub_fuel)->0;
    lemma_run_read(lookup, read, oracle, sub_fuel);
    lemma_run_read(
        PlayerScan::Scan { offsets, local, index, found, local_index, phase: ScanPhase::Lookup(lookup) },
        read,
        oracle,
        fuel,
    );
    match lookup.next(oracle(read)) {
        Step::Read(l2, r2) => {
            lemma_lift_lookup(
                oracle,
                offsets,
                local,
                index,
                found,
                local_index,
                l2,
                r2,
                (sub_fuel - 1) as nat,
                rest,
                (fuel - 1) as nat,
            );
        },
        Step::Done(_) => {
            lemma_run_monotonic(
                after_lookup(offsets, local, index, found, local_index, o),
                oracle,
                rest,
                (fuel - 1) as nat,
            );
        },
    }
}

proof fn lemma_lift_check(
    oracle: Oracle,
    offsets: Offsets,
    local: Player,
    index: u64,
    found: PlayerList,
    local_index: Option<u64>,
    p: Player,
    check: ValidityCheck,
    read: Read,
    sub_fuel: nat,
    rest: nat,
    fuel: nat,
)
    requires
        index <= LAST_PLAYER_INDEX,
        run(Step::Read(check, read), oracle, sub_fuel) is Some,
        run(
            after_check(
                offsets,
                local,
                index,
                found,
                local_index,
                p,
                run(Step::Read(check, read), oracle, sub_fuel)->0,
            ),
            oracle,
            rest,
        ) is Some,
        fuel >= sub_fuel + rest,
    ensures
        run(
            Step::Read(
                PlayerScan::Scan { offsets, local, index, found, local_index, phase: ScanPhase::Validate(p, check) },
                read,
            ),
            oracle,
            fuel,
        ) == run(
            after_check(
                offsets,
                local,
                index,
                found,
                local_index,
                p,
                run(Step::Read(check, read), oracle, sub_fuel)->0,
            ),
            oracle,
            rest,
        ),
    decreases sub_fuel,
{
    let o = run(Step::Read(check, read), oracle, sub_fuel)->0;
    lemma_run_read(check, read, oracle, sub_fuel);
    lemma_run_read(
        PlayerScan::Scan { offsets, local, index, found, local_index, phase: ScanPhase::Validate(p, check) },
        read,
        oracle,
        fuel,
    );
    match check.next(oracle(read)) {
        Step::Read(c2, r2) => {
            lemma_lift_check(
                oracle,
                offsets,
                local,
                index,
                found,
                local_index,
                p,
                c2,
                r2,
                (sub_fuel - 1) as nat,
                rest,
                (fuel - 1) as nat,
            );
        },
        Step::Done(_) => {
            lemma_run_monotonic(
                after_check(offsets, local, index, found, local_index, p, o),
                oracle,
                rest,
                (fuel - 1) as nat,
            );
        },
    }
}

/// The outcome of a scan result, as the scan specification states it.
pub open spec fn scan_result_matches(
    result: Option<PlayerCache>,
    expected: (Seq<Player>, Option<u64>),
) -> bool {
    match result {
        Some(cache) => cache.outcome() == CacheOutcome::Replace { players: expected.0, local_index: expected.1 },
        None => false,
    }
}

/// What the scan keeps after looking at `index`.
pub open spec fn scan_next_state(
    oracle: Oracle,
    offsets: Offsets,
    local: Player,
    index: u64,
    found: PlayerList,
    local_index: Option<u64>,
) -> (PlayerList, Option<u64>) {
    match spec_index(oracle, offsets, index) {
        None => (found, local_index),
        Some(p) => if !spec_is_valid(oracle, offsets, p) {
            (found, local_index)
        } else if p == local {
            (found, Some(index.wrapping_sub(1)))
        } else {
            (PlayerList::Cons(p, Box::new(found)), local_index)
        },
    }
}

/// One index of the scan takes at most nine reads and moves on to the next
/// index with what `scan_next_state` keeps.
proof fn lemma_scan_index(
    oracle: Oracle,
    offsets: Offsets,
    local: Player,
    index: u64,
    found: PlayerList,
    local_index: Option<u64>,
    rest: nat,
    fuel: nat,
)
    requires
        index <= LAST_PLAYER_INDEX,
        fuel >= reads_per_index() + rest,
        run(
            scan_at(
                offsets,
                local,
                (index + 1) as u64,
                scan_next_state(oracle, offsets, local, index, found, local_index).0,
                scan_next_state(oracle, offsets, local, index, found, local_index).1,
            ),
            oracle,
            rest,
        ) is Some,
    ensures
        run(scan_at(offsets, local, index, found, local_index), oracle, fuel) == run(
            scan_at(
                offsets,
                local,
                (index + 1) as u64,
                scan_next_state(oracle, offsets, local, index, found, local_index).0,
                scan_next_state(oracle, offsets, local, index, found, local_index).1,
            ),
            oracle,
            rest,
        ),
{
    let next = (index + 1) as u64;
    let state = scan_next_state(oracle, offsets, local, index, found, local_index);
    lemma_index(oracle, offsets, index);
    let found_player = spec_index(oracle, offsets, index);
    match found_player {
        None => {
            lemma_run_monotonic(scan_at(offsets, local, next, found, local_index), oracle, rest, 4 + rest);
        },
        Some(p) => {
            lemma_is_valid(oracle, offsets, p);
            let valid = spec_is_valid(oracle, offsets, p);
            assert(after_check(offsets, local, index, found, local_index, p, valid) == scan_at(
                offsets,
                local,
                next,
                state.0,
                state.1,
            ));
            if let Step::Read(check, read) = p.spec_is_valid_start(offsets) {
                lemma_lift_check(oracle, offsets, local, index, found, local_index, p, check, read, 4, rest, 4 + rest);
            }
        },
    }
    if let Step::Read(lookup, read) = Player::spec_index_start(offsets, index) {
        lemma_lift_lookup(oracle, offsets, local, index, found, local_index, lookup, read, 5, 4 + rest, fuel);
    }
}

/// Scanning from `index` on ends, within nine reads per index, with the
/// players and the local slot that `spec_scan_from` states.
pub proof fn lemma_scan(
    oracle: Oracle,
    offsets: Offsets,
    local: Player,
    index: u64,
    found: PlayerList,
    local_index: Option<u64>,
    fuel: nat,
)
    requires
        index <= LAST_PLAYER_INDEX + 1,
        fuel >= reads_per_index() * (65 - index),
    ensures
        scan_result_matches(
            run(scan_at(offsets, local, index, found, local_index), oracle, fuel),
            spec_scan_from(oracle, offsets, local, index as nat, found.to_seq(), local_index),
        ),
    decreases 65 - index,
{
    if index <= LAST_PLAYER_INDEX {
        let rest: nat = reads_per_index() * (64 - index) as nat;
        assert(reads_per_index() * (65 - index) == reads_per_index() + rest) by (nonlinear_arith)
            requires rest == reads_per_index() * (64 - index) as nat, index <= 64;
        let next = (index + 1) as u64;
        let state = scan_next_state(oracle, offsets, local, index, found, local_index);
        lemma_scan(oracle, offsets, local, next, state.0, state.1, rest);
        lemma_scan_index(oracle, offsets, local, index, found, local_index, rest, fuel);
        assert(spec_scan_from(oracle, offsets, local, index as nat, found.to_seq(), local_index) == spec_scan_from(
            oracle,
            offsets,
            local,
            next as nat,
            state.0.to_seq(),
            state.1,
        ));
    } else {
        reveal_with_fuel(run, 1);
    }
}

/// The number of reads that caching the players needs at most: four for the
/// local player and nine per entity index.
pub open spec fn cache_players_reads() -> nat {
    4 + reads_per_index() * 65
}

proof fn lemma_lift_local(
    oracle: Oracle,
    offsets: Offsets,
    lookup: PlayerLookup,
    read: Read,
    sub_fuel: nat,
    rest: nat,
    fuel: nat,
)
    requires
        run(Step::Read(lookup, read), oracle, sub_fuel) is Some,
        run(after_local(offsets, Step::Done(run(Step::Read(lookup, read), oracle, sub_fuel)->0)), oracle, rest) is Some,
        fuel >= sub_fuel + rest,
    ensures
        run(Step::Read(PlayerScan::Local { offsets, lookup }, read), oracle, fuel) == run(
            after_local(offsets, Step::Done(run(Step::Read(lookup, read), oracle, sub_fuel)->0)),
            oracle,
            rest,
        ),
    decreases sub_fuel,
{
    let o = run(Step::Read(lookup, read), oracle, sub_fuel)->0;
    lemma_run_read(lookup, read, oracle, sub_fuel);
    lemma_run_read(PlayerScan::Local { offsets, lookup }, read, oracle, fuel);
    match lookup.next(oracle(read)) {
        Step::Read(l2, r2) => {
            lemma_lift_local(oracle, offsets, l2, r2, (sub_fuel - 1) as nat, rest, (fuel - 1) as nat);
        },
        Step::Done(_) => {
            lemma_run_monotonic(after_local(offsets, Step::Done(o)), oracle, rest, (fuel - 1) as nat);
        },
    }
}

/// Caching the players ends within `cache_players_reads()` reads with the
/// decision that `spec_cache_players` states.
pub proof fn lemma_cache_players(oracle: Oracle, offsets: Offsets, process_valid: bool)
    ensures
        run(CS2::spec_cache_players_start(offsets, process_valid), oracle, cache_players_reads()) matches Some(
            cache,
        ) && cache.outcome() == spec_cache_players(oracle, offsets, process_valid),
{
    if !process_valid {
        reveal_with_fuel(run, 1);
    } else {
        let rest = reads_per_index() * 65;
        lemma_local_player(oracle, offsets);
        match spec_local_player(oracle, offsets) {
            None => {
                reveal_with_fuel(run, 1);
            },
            Some(local) => {
                lemma_scan(oracle, offsets, local, 0, PlayerList::Empty, None, rest);
            },
        }
        match Player::spec_local_player_start(offsets) {
            Step::Read(lookup, read) => {
                lemma_lift_local(oracle, offsets, lookup, read, 4, rest, cache_players_reads());
            },
            Step::Done(_) => {},
        }
    }
}

/// Every player in `players` is valid and is not `local`.
pub open spec fn all_valid_others(oracle: Oracle, offsets: Offsets, local: Player, players: Seq<Player>) -> bool {
    forall|k: int|
        0 <= k < players.len() ==> #[trigger] players[k] != local && spec_is_valid(oracle, offsets, players[k])
}

proof fn lemma_scan_from_valid_others(
    oracle: Oracle,
    offsets: Offsets,
    local: Player,
    index: nat,
    found: Seq<Player>,
    local_index: Option<u64>,
)
    requires
        all_valid_others(oracle, offsets, local, found),
    ensures
        all_valid_others(
            oracle,
            offsets,
            local,
            spec_scan_from(oracle, offsets, local, index, found, local_index).0,
        ),
    decreases 65 - index,
{
    if index <= 64 {
        match spec_index(oracle, offsets, index as u64) {
            None => lemma_scan_from_valid_others(oracle, offsets, local, index + 1, found, local_index),
            Some(p) => if !spec_is_valid(oracle, offsets, p) {
                lemma_scan_from_valid_others(oracle, offsets, local, index + 1, found, local_index)
            } else if p == local {
                lemma_scan_from_valid_others(
                    oracle,
                    offsets,
                    local,
                    index + 1,
                    found,
                    Some((index as u64).wrapping_sub(1)),
                )
            } else {
                assert(all_valid_others(oracle, offsets, local, found.push(p)));
                lemma_scan_from_valid_others(oracle, offsets, local, index + 1, found.push(p), local_index)
            },
        }
    }
}

/// The player cache never holds the local player, and every player it holds
/// is valid: not dormant, with positive health, alive.
pub proof fn lemma_cache_holds_valid_others(oracle: Oracle, offsets: Offsets, process_valid: bool)
    ensures
        spec_cache_players(oracle, offsets, process_valid) matches CacheOutcome::Replace { players, .. }
            ==> (spec_local_player(oracle, offsets) matches Some(local) ==> all_valid_others(
            oracle,
            offsets,
            local,
            players,
        )),
{
    if process_valid {
        if let Some(local) = spec_local_player(oracle, offsets) {
            lemma_scan_from_valid_others(oracle, offsets, local, 0, Seq::empty(), None);
        }
    }
}

/// What the entity list holds at indices 0..=64: the player at each index,
/// where one resolves.
pub open spec fn entity_slots(oracle: Oracle, offsets: Offsets) -> Seq<Option<Player>> {
    Seq::new(65, |i: int| spec_index(oracle, offsets, i as u64))
}

/// Whether a slot holds a valid player other than `local`.
pub open spec fn holds_other(oracle: Oracle, offsets: Offsets, local: Player) -> spec_fn(Option<Player>) -> bool {
    |slot: Option<Player>| slot matches Some(p) && p != local && spec_is_valid(oracle, offsets, p)
}

/// The valid players other than `local` at indices 0..=64, in index order.
pub open spec fn valid_others(oracle: Oracle, offsets: Offsets, local: Player) -> Seq<Player> {
    entity_slots(oracle, offsets).filter(holds_other(oracle, offsets, local)).map_values(
        |slot: Option<Player>| slot->0,
    )
}

/// Whether index `i` holds the local player, and the local player is valid.
pub open spec fn is_local_slot(oracle: Oracle, offsets: Offsets, local: Player, i: int) -> bool {
    spec_index(oracle, offsets, i as u64) == Some(local) && spec_is_valid(oracle, offsets, local)
}

/// `local_index` records the last index below `n` that holds the valid local
/// player, minus one (wrapping); none where no index below `n` does.
pub open spec fn records_last_local(
    oracle: Oracle,
    offsets: Offsets,
    local: Player,
    local_index: Option<u64>,
    n: int,
) -> bool {
    match local_index {
        None => forall|i: int| 0 <= i < n ==> !#[trigger] is_local_slot(oracle, offsets, local, i),
        Some(j) => exists|i: int|
            0 <= i < n && #[trigger] is_local_slot(oracle, offsets, local, i) && j == (i as u64).wrapping_sub(1)
                && forall|k: int| i < k < n ==> !#[trigger] is_local_slot(oracle, offsets, local, k),
    }
}

proof fn lemma_scan_from_complete(
    oracle: Oracle,
    offsets: Offsets,
    local: Player,
    index: nat,
    found: Seq<Player>,
    local_index: Option<u64>,
)
    requires
        index <= 65,
        found == entity_slots(oracle, offsets).take(index as int).filter(holds_other(oracle, offsets, local)).map_values(
            |slot: Option<Player>| slot->0,
        ),
        records_last_local(oracle, offsets, local, local_index, index as int),
    ensures
        spec_scan_from(oracle, offsets, local, index, found, local_index).0 == valid_others(oracle, offsets, local),
        records_last_local(
            oracle,
            offsets,
            local,
            spec_scan_from(oracle, offsets, local, index, found, local_index).1,
            65,
        ),
    decreases 65 - index,
{
    let slots = entity_slots(oracle, offsets);
    let pred = holds_other(oracle, offsets, local);
    if index > 64 {
        assert(slots.take(index as int) =~= slots);
    } else {
        reveal(Seq::filter);
        let next = slots.take(index + 1 as int);
        assert(next.drop_last() =~= slots.take(index as int));
        assert(next.last() == spec_index(oracle, offsets, index as u64));
        let kept = slots.take(index as int).filter(pred);
        assert(next.filter(pred) == if pred(next.last()) {
            kept.push(next.last())
        } else {
            kept
        });
        let f = |slot: Option<Player>| slot->0;
        assert(kept.push(next.last()).map_values(f) =~= kept.map_values(f).push(next.last()->0));
        match spec_index(oracle, offsets, index as u64) {
            None => {
                assert(!is_local_slot(oracle, offsets, local, index as int));
                lemma_scan_from_complete(oracle, offsets, local, index + 1, found, local_index);
            },
            Some(p) => if !spec_is_valid(oracle, offsets, p) {
                assert(!is_local_slot(oracle, offsets, local, index as int));
                lemma_scan_from_complete(oracle, offsets, local, index + 1, found, local_index);
            } else if p == local {
                assert(is_local_slot(oracle, offsets, local, index as int));
                lemma_scan_from_complete(
                    oracle,
                    offsets,
                    local,
                    index + 1,
                    found,
                    Some((index as u64).wrapping_sub(1)),
                );
            } else {
                assert(!is_local_slot(oracle, offsets, local, index as int));
                lemma_scan_from_complete(oracle, offsets, local, index + 1, found.push(p), local_index);
            },
        }
    }
}

/// With a local player, caching the players of a running game ends with the
/// valid players other than the local player of every entity index 0..=64,
/// each once and in index order, and with the slot of the last index that
/// holds the valid local player (its index minus one), if any does.
pub proof fn lemma_cache_players_complete(oracle: Oracle, offsets: Offsets)
    ensures
        spec_local_player(oracle, offsets) matches Some(local) ==> run(
            CS2::spec_cache_players_start(offsets, true),
            oracle,
            cache_players_reads(),
        ) matches Some(cache) && cache.outcome() matches CacheOutcome::Replace { players, local_index } && players
            == valid_others(oracle, offsets, local) && records_last_local(oracle, offsets, local, local_index, 65),
{
    lemma_cache_players(oracle, offsets, true);
    if let Some(local) = spec_local_player(oracle, offsets) {
        let slots = entity_slots(oracle, offsets);
        reveal(Seq::filter);
        assert(slots.take(0) =~= Seq::<Option<Player>>::empty());
        assert(slots.take(0).filter(holds_other(oracle, offsets, local)).map_values(
            |slot: Option<Player>| slot->0,
        ) =~= Seq::<Player>::empty());
        lemma_scan_from_complete(oracle, offsets, local, 0, Seq::empty(), None);
    }
}

// ---------------------------------------------------------------------------
// The weapon a player holds.

/// The name given to a weapon whose name cannot be read.
pub fn weapon_unknown() -> (name: String)
    ensures
        name@ == "unknown"@,
{
    broadcast use vstd::string::to_string_from_display_ensures_for_str;

    "unknown".to_string()
}

/// The address of the designer name of the weapon a player holds: the
/// weapon entity, its identity at +0x10, and the name pointer at +0x20;
/// none where any of these pointers is null.
pub open spec fn spec_weapon_name_pointer(oracle: Oracle, offsets: Offsets, player: Player) -> Option<u64> {
    let instance = oracle(pointer_read(player.pawn.wrapping_add(offsets.pawn.weapon)));
    if instance == 0 {
        None
    } else {
        let identity = oracle(pointer_read(instance.wrapping_add(0x10)));
        if identity == 0 {
            None
        } else {
            let name = oracle(pointer_read(identity.wrapping_add(0x20)));
            if name == 0 {
                None
            } else {
                Some(name)
            }
        }
    }
}

/// Finds the name of the weapon a player holds.
pub enum WeaponNameLookup {
    /// Waiting for the weapon entity pointer.
    Instance,
    /// Waiting for the entity identity pointer.
    Identity,
    /// Waiting for the name pointer.
    Name,
}

impl ReadMachine for WeaponNameLookup {
    type Output = Option<u64>;

    open spec fn next(self, reply: u64) -> Step<WeaponNameLookup, Option<u64>> {
        if reply == 0 {
            Step::Done(None)
        } else {
            match self {
                WeaponNameLookup::Instance => Step::Read(WeaponNameLookup::Identity, pointer_read(reply.wrapping_add(0x10))),
                WeaponNameLookup::Identity => Step::Read(WeaponNameLookup::Name, pointer_read(reply.wrapping_add(0x20))),
                WeaponNameLookup::Name => Step::Done(Some(reply)),
            }
        }
    }

    fn resume(self, reply: u64) -> (step: Step<WeaponNameLookup, Option<u64>>) {
        if reply == 0 {
            Step::Done(None)
        } else {
            match self {
                WeaponNameLookup::Instance => Step::Read(WeaponNameLookup::Identity, read_pointer(reply.wrapping_add(0x10))),
                WeaponNameLookup::Identity => Step::Read(WeaponNameLookup::Name, read_pointer(reply.wrapping_add(0x20))),
                WeaponNameLookup::Name => Step::Done(Some(reply)),
            }
        }
    }
}

impl Player {
    pub open spec fn spec_weapon_name_start(self, offsets: Offsets) -> Step<WeaponNameLookup, Option<u64>> {
        Step::Read(WeaponNameLookup::Instance, pointer_read(self.pawn.wrapping_add(offsets.pawn.weapon)))
    }

    /// Starts finding the name of the player's weapon: the machine ends with
    /// the address of the name, which `StringCache::weapon_name` reads (see
    /// `lemma_weapon_name`).
    pub fn weapon_name(&self, cs2: &CS2) -> (step: Step<WeaponNameLookup, Option<u64>>)
        ensures
            step == self.spec_weapon_name_start(cs2.offsets),
    {
        Step::Read(WeaponNameLookup::Instance, read_pointer(self.pawn.wrapping_add(cs2.offsets.pawn.weapon)))
    }
}

impl StringCache {
    /// The weapon name behind `pointer`: "unknown" where there is none,
    /// otherwise the (cached) string at the pointer.
    pub fn resolve_weapon_name(&self, pointer: Option<u64>) -> (r: CachedString)
        ensures
            match pointer {
                None => r matches CachedString::Hit(s) && s@ == "unknown"@,
                Some(address) => match r {
                    CachedString::Hit(s) => self.view().contains_key(address) && s@ == self.view()[address],
                    CachedString::Miss(step) => !self.view().contains_key(address) && step
                        == StringRead::spec_start(address),
                },
            },
    {
        match pointer {
            None => CachedString::Hit(weapon_unknown()),
            Some(address) => self.read_string(address),
        }
    }
}

/// Finding the weapon name reads at most three pointers and gives the address
/// that `spec_weapon_name_pointer` states.
pub proof fn lemma_weapon_name(oracle: Oracle, offsets: Offsets, player: Player)
    ensures
        run(player.spec_weapon_name_start(offsets), oracle, 3) == Some(
            spec_weapon_name_pointer(oracle, offsets, player),
        ),
{
    reveal_with_fuel(run, 4);
}

} // verus!
