//! One logical frame of the game, in the fixed declared order: input, then
//! movement integration, then collision, then pickup, then the portal gate.
//!
//! Later steps consume the position the earlier steps produced within the
//! same frame, so the order is part of the contract: the whole frame is one
//! sequential composition of the five per-frame systems, and its result is
//! exactly theirs, chained.

use vstd::prelude::*;

use crate::collision::{
    check_collideable, footprint_ok, lemma_resolve_all_bounds, size_ok, spec_resolve_all,
};
use crate::coords::{Point, TilemapTileSize};
use crate::inventory::{
    check_collectable_potion, check_collectable_weapon, check_portal, spec_check_portal,
    spec_pickup_potion, spec_pickup_weapon, GateMessage, Inventory, PortalZone, PotionPickup,
    WeaponPickup,
};
use crate::movement::{
    input_system_keyboard, spec_input_step, spec_integrate, update_player_position,
    DirectionalInput, Moveable, MAX_ELAPSED_MS, MAX_SPEED, MAX_WORLD_COORD,
};

verus! {

/// Everything the frame reads and writes about the player.
#[derive(Copy, Clone, Debug, PartialEq, Eq, Structural)]
pub struct PlayerState {
    pub transform: Point,
    pub size: TilemapTileSize,
    pub moveable: Moveable,
    pub inventory: Inventory,
}

/// The player's state after one whole frame: the input step feeds the
/// integration step, whose position the collision pass corrects; the pickup
/// passes read the corrected position; the portal pass reads the corrected
/// position, the corrected movement state and the updated inventory.
pub open spec fn spec_frame(
    player: PlayerState,
    input: DirectionalInput,
    elapsed_ms: int,
    collideables: Seq<(Point, TilemapTileSize)>,
    potions: Seq<PotionPickup>,
    weapons: Seq<WeaponPickup>,
    portals: Seq<PortalZone>,
) -> (PlayerState, Seq<GateMessage>) {
    let moved = spec_input_step(player.moveable, input);
    let integrated = spec_integrate(player.transform, moved, elapsed_ms);
    let resolved = spec_resolve_all(integrated, moved, player.size, collideables);
    let inv_potion = spec_pickup_potion(player.inventory, resolved.0, player.size, potions);
    let inv_both = spec_pickup_weapon(inv_potion, resolved.0, player.size, weapons);
    let gated = spec_check_portal(resolved.0, resolved.1, player.size, inv_both, portals);
    (
        PlayerState {
            transform: gated.0,
            size: player.size,
            moveable: gated.1,
            inventory: inv_both,
        },
        gated.2,
    )
}

/// Runs one frame: input, integration, collision, the two pickup checks, and
/// the portal gate, strictly in that order, on a single thread.
pub fn run_frame(
    player: &mut PlayerState,
    input: &DirectionalInput,
    elapsed_ms: u64,
    collideables: &Vec<(Point, TilemapTileSize)>,
    potions: &Vec<PotionPickup>,
    weapons: &Vec<WeaponPickup>,
    portals: &Vec<PortalZone>,
) -> (messages: Vec<GateMessage>)
    requires
        -MAX_WORLD_COORD <= old(player).transform.x <= MAX_WORLD_COORD,
        -MAX_WORLD_COORD <= old(player).transform.y <= MAX_WORLD_COORD,
        0 <= old(player).moveable.speed <= MAX_SPEED,
        size_ok(old(player).size),
        elapsed_ms <= MAX_ELAPSED_MS,
        forall|i: int|
            0 <= i < collideables@.len() ==> footprint_ok(#[trigger] collideables@[i]),
        forall|i: int|
            0 <= i < potions@.len() ==> footprint_ok(((#[trigger] potions@[i]).0, potions@[i].1)),
        forall|i: int|
            0 <= i < weapons@.len() ==> footprint_ok(((#[trigger] weapons@[i]).0, weapons@[i].1)),
        forall|i: int|
            0 <= i < portals@.len() ==> footprint_ok(((#[trigger] portals@[i]).0, portals@[i].1)),
    ensures
        *final(player) == spec_frame(
            *old(player),
            *input,
            elapsed_ms as int,
            collideables@,
            potions@,
            weapons@,
            portals@,
        ).0,
        messages@ == spec_frame(
            *old(player),
            *input,
            elapsed_ms as int,
            collideables@,
            potions@,
            weapons@,
            portals@,
        ).1,
{
    let mut transform = player.transform;
    let mut moveable = player.moveable;
    let mut inventory = player.inventory;

    input_system_keyboard(&mut moveable, input);
    update_player_position(&mut transform, &moveable, elapsed_ms);
    proof {
        crate::coords::lemma_mul_bounds_signed(
            moveable.speed as int,
            elapsed_ms as int,
            MAX_SPEED as int,
            MAX_ELAPSED_MS as int,
        );
    }
    check_collideable(&mut transform, &mut moveable, &player.size, collideables);
    proof {
        lemma_resolve_all_bounds(
            spec_integrate(
                old(player).transform,
                spec_input_step(old(player).moveable, *input),
                elapsed_ms as int,
            ),
            spec_input_step(old(player).moveable, *input),
            old(player).size,
            collideables@,
        );
    }
    check_collectable_potion(&transform, &player.size, &mut inventory, potions);
    check_collectable_weapon(&transform, &player.size, &mut inventory, weapons);
    let messages = check_portal(&mut transform, &player.size, &mut moveable, &inventory, portals);

    player.transform = transform;
    player.moveable = moveable;
    player.inventory = inventory;
    messages
}

} // verus!
