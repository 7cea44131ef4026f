//! The inventory and the gated-portal state machine.
//!
//! An inventory has two optional slots — one consumable (potion), one piece
//! of equipment (weapon) — each holding at most one value of a closed enum:
//! no stacking, no duplicates. The per-frame pickup checks fill the slots
//! from overlapping collectables (idempotently; collectables stay in the
//! world, which this design keeps deliberately — they are map fixtures, not
//! consumed). The portal check admits the player only when both slots are
//! occupied and match the portal's required inventory exactly, and on an
//! admitted pass through a portal's near edge teleports the player just past
//! the far edge along the travel axis.

use vstd::prelude::*;
use vstd::string::StringExecFns;

use crate::collision::{spec_collide, spec_overlaps, Collision, size_ok, pos_ok, footprint_ok};
use crate::coords::{Point, TilemapTileSize};
use crate::movement::{Direction, Moveable, MAX_SPEED, PLAYER_SPEED};

verus! {

/// A consumable kind.
#[derive(Copy, Clone, Debug, Hash, PartialEq, Eq, Structural)]
pub enum Potion {
    Red,
    Green,
    Blue,
}

/// An equipment kind.
#[derive(Copy, Clone, Debug, PartialEq, Eq, Structural)]
pub enum Weapon {
    Sword,
    Hammer,
    Axe,
}

/// A collectable item of either category.
#[derive(Copy, Clone, Debug, Hash, PartialEq, Eq, Structural)]
pub struct Collectable<T>(pub T);

/// The two-slot inventory carried by the player, and describing a portal's
/// requirement.
#[derive(Copy, Clone, Debug, PartialEq, Eq, Structural)]
pub struct Inventory {
    pub potion: Option<Collectable<Potion>>,
    pub weapon: Option<Collectable<Weapon>>,
}

impl Inventory {
    /// A fresh inventory holds nothing.
    pub fn new() -> (r: Self)
        ensures
            r.potion is None,
            r.weapon is None,
    {
        Self { potion: None, weapon: None }
    }
}

impl Default for Inventory {
    /// The default inventory holds nothing.
    fn default() -> (r: Self)
        ensures
            r.potion is None,
            r.weapon is None,
    {
        Self::new()
    }
}

/// The display name of a consumable kind.
pub open spec fn spec_potion_label(p: Potion) -> Seq<char> {
    match p {
        Potion::Red => "Red"@,
        Potion::Green => "Green"@,
        Potion::Blue => "Blue"@,
    }
}

/// The display name of an equipment kind.
pub open spec fn spec_weapon_label(w: Weapon) -> Seq<char> {
    match w {
        Weapon::Sword => "Sword"@,
        Weapon::Hammer => "Hammer"@,
        Weapon::Axe => "Axe"@,
    }
}

impl Potion {
    /// This kind's display name.
    pub fn label(&self) -> (r: &'static str)
        ensures
            r@ == spec_potion_label(*self),
    {
        match self {
            Potion::Red => "Red",
            Potion::Green => "Green",
            Potion::Blue => "Blue",
        }
    }
}

impl Weapon {
    /// This kind's display name.
    pub fn label(&self) -> (r: &'static str)
        ensures
            r@ == spec_weapon_label(*self),
    {
        match self {
            Weapon::Sword => "Sword",
            Weapon::Hammer => "Hammer",
            Weapon::Axe => "Axe",
        }
    }
}

/// The text shown for the potion slot: the held kind's name, or `Empty`.
pub open spec fn spec_potion_slot_text(inv: Inventory) -> Seq<char> {
    match inv.potion {
        Some(c) => spec_potion_label(c.0),
        None => "Empty"@,
    }
}

/// The text shown for the weapon slot: the held kind's name, or `Empty`.
pub open spec fn spec_weapon_slot_text(inv: Inventory) -> Seq<char> {
    match inv.weapon {
        Some(c) => spec_weapon_label(c.0),
        None => "Empty"@,
    }
}

/// The one-line inventory text the display widget shows.
pub open spec fn spec_inventory_text(inv: Inventory) -> Seq<char> {
    "Inventory (Potion: "@ + spec_potion_slot_text(inv) + ", Weapon: "@ + spec_weapon_slot_text(
        inv,
    ) + ")"@
}

impl Inventory {
    /// Renders this inventory as the one-line text the display widget shows.
    pub fn describe(&self) -> (r: String)
        ensures
            r@ == spec_inventory_text(*self),
    {
        let mut out = String::from_str("Inventory (Potion: ");
        match &self.potion {
            Some(c) => out.append(c.0.label()),
            None => out.append("Empty"),
        }
        out.append(", Weapon: ");
        match &self.weapon {
            Some(c) => out.append(c.0.label()),
            None => out.append("Empty"),
        }
        out.append(")");
        proof {
            assert(out@ =~= spec_inventory_text(*self));
        }
        out
    }
}

/// A potion collectable placed in the world: center, extents, kind.
pub type PotionPickup = (Point, TilemapTileSize, Collectable<Potion>);

/// A weapon collectable placed in the world: center, extents, kind.
pub type WeaponPickup = (Point, TilemapTileSize, Collectable<Weapon>);

/// What the potion pickup pass leaves in the inventory: each overlapping
/// collectable in turn writes its kind into the potion slot (a later one
/// overwrites an earlier one); the weapon slot is untouched.
pub open spec fn spec_pickup_potion(
    inv: Inventory,
    pos: Point,
    psize: TilemapTileSize,
    items: Seq<PotionPickup>,
) -> Inventory
    decreases items.len(),
{
    if items.len() == 0 {
        inv
    } else {
        let first = items[0];
        let inv1 = if spec_overlaps(pos, psize, first.0, first.1) {
            Inventory { potion: Some(first.2), weapon: inv.weapon }
        } else {
            inv
        };
        spec_pickup_potion(inv1, pos, psize, items.skip(1))
    }
}

/// What the weapon pickup pass leaves in the inventory; the potion slot is
/// untouched.
pub open spec fn spec_pickup_weapon(
    inv: Inventory,
    pos: Point,
    psize: TilemapTileSize,
    items: Seq<WeaponPickup>,
) -> Inventory
    decreases items.len(),
{
    if items.len() == 0 {
        inv
    } else {
        let first = items[0];
        let inv1 = if spec_overlaps(pos, psize, first.0, first.1) {
            Inventory { potion: inv.potion, weapon: Some(first.2) }
        } else {
            inv
        };
        spec_pickup_weapon(inv1, pos, psize, items.skip(1))
    }
}

/// The per-frame potion pickup check: every collectable whose bounding box
/// overlaps the player's writes its kind into the potion slot (a no-op when
/// the slot already holds that kind).
pub fn check_collectable_potion(
    player_transform: &Point,
    player_size: &TilemapTileSize,
    player_inventory: &mut Inventory,
    collectables: &Vec<PotionPickup>,
)
    requires
        pos_ok(*player_transform),
        size_ok(*player_size),
        forall|i: int|
            0 <= i < collectables@.len() ==> footprint_ok(
                ((#[trigger] collectables@[i]).0, collectables@[i].1),
            ),
    ensures
        *final(player_inventory) == spec_pickup_potion(
            *old(player_inventory),
            *player_transform,
            *player_size,
            collectables@,
        ),
{
    let mut inv: Inventory = *player_inventory;
    let ghost items = collectables@;
    let ghost inv0 = inv;
    proof {
        assert(items.skip(0) =~= items);
    }
    let mut i: usize = 0;
    while i < collectables.len()
        invariant
            0 <= i <= items.len(),
            collectables@ == items,
            pos_ok(*player_transform),
            size_ok(*player_size),
            forall|j: int|
                0 <= j < items.len() ==> footprint_ok(((#[trigger] items[j]).0, items[j].1)),
            spec_pickup_potion(inv, *player_transform, *player_size, items.skip(i as int))
                == spec_pickup_potion(inv0, *player_transform, *player_size, items),
        decreases items.len() - i,
    {
        let (c_pos, c_size, collectable) = collectables[i];
        if crate::collision::collide(player_transform, player_size, &c_pos, &c_size).is_some() {
            let already = match &inv.potion {
                Some(held) => *held == collectable,
                None => false,
            };
            if !already {
                inv.potion = Some(collectable);
            }
        }
        proof {
            assert(items.skip(i as int)[0] == items[i as int]);
            assert(items.skip(i as int).skip(1) =~= items.skip(i as int + 1));
        }
        i = i + 1;
    }
    *player_inventory = inv;
}

/// The per-frame weapon pickup check, the weapon-slot mirror of
/// `check_collectable_potion`.
pub fn check_collectable_weapon(
    player_transform: &Point,
    player_size: &TilemapTileSize,
    player_inventory: &mut Inventory,
    collectables: &Vec<WeaponPickup>,
)
    requires
        pos_ok(*player_transform),
        size_ok(*player_size),
        forall|i: int|
            0 <= i < collectables@.len() ==> footprint_ok(
                ((#[trigger] collectables@[i]).0, collectables@[i].1),
            ),
    ensures
        *final(player_inventory) == spec_pickup_weapon(
            *old(player_inventory),
            *player_transform,
            *player_size,
            collectables@,
        ),
{
    let mut inv: Inventory = *player_inventory;
    let ghost items = collectables@;
    let ghost inv0 = inv;
    proof {
        assert(items.skip(0) =~= items);
    }
    let mut i: usize = 0;
    while i < collectables.len()
        invariant
            0 <= i <= items.len(),
            collectables@ == items,
            pos_ok(*player_transform),
            size_ok(*player_size),
            forall|j: int|
                0 <= j < items.len() ==> footprint_ok(((#[trigger] items[j]).0, items[j].1)),
            spec_pickup_weapon(inv, *player_transform, *player_size, items.skip(i as int))
                == spec_pickup_weapon(inv0, *player_transform, *player_size, items),
        decreases items.len() - i,
    {
        let (c_pos, c_size, collectable) = collectables[i];
        if crate::collision::collide(player_transform, player_size, &c_pos, &c_size).is_some() {
            let already = match &inv.weapon {
                Some(held) => *held == collectable,
                None => false,
            };
            if !already {
                inv.weapon = Some(collectable);
            }
        }
        proof {
            assert(items.skip(i as int)[0] == items[i as int]);
            assert(items.skip(i as int).skip(1) =~= items.skip(i as int + 1));
        }
        i = i + 1;
    }
    *player_inventory = inv;
}

/// The kind the last overlapping potion collectable carries, if any overlaps.
pub open spec fn spec_last_overlap_potion(
    pos: Point,
    psize: TilemapTileSize,
    items: Seq<PotionPickup>,
) -> Option<Collectable<Potion>>
    decreases items.len(),
{
    if items.len() == 0 {
        None
    } else {
        let rest = spec_last_overlap_potion(pos, psize, items.skip(1));
        if rest is Some {
            rest
        } else if spec_overlaps(pos, psize, items[0].0, items[0].1) {
            Some(items[0].2)
        } else {
            None
        }
    }
}

/// The pickup pass, characterized: the potion slot afterwards holds the last
/// overlapping collectable's kind, or its old value when nothing overlaps;
/// the weapon slot is untouched.
pub proof fn lemma_pickup_potion_characterization(
    inv: Inventory,
    pos: Point,
    psize: TilemapTileSize,
    items: Seq<PotionPickup>,
)
    ensures
        spec_pickup_potion(inv, pos, psize, items) == (Inventory {
            potion: match spec_last_overlap_potion(pos, psize, items) {
                Some(c) => Some(c),
                None => inv.potion,
            },
            weapon: inv.weapon,
        }),
    decreases items.len(),
{
    if items.len() > 0 {
        let first = items[0];
        let inv1 = if spec_overlaps(pos, psize, first.0, first.1) {
            Inventory { potion: Some(first.2), weapon: inv.weapon }
        } else {
            inv
        };
        lemma_pickup_potion_characterization(inv1, pos, psize, items.skip(1));
    }
}

/// Pickup is idempotent: a second pickup pass over the same collectables,
/// with the player where it was, changes nothing.
pub proof fn lemma_pickup_potion_idempotent(
    inv: Inventory,
    pos: Point,
    psize: TilemapTileSize,
    items: Seq<PotionPickup>,
)
    ensures
        spec_pickup_potion(spec_pickup_potion(inv, pos, psize, items), pos, psize, items)
            == spec_pickup_potion(inv, pos, psize, items),
{
    let once = spec_pickup_potion(inv, pos, psize, items);
    lemma_pickup_potion_characterization(inv, pos, psize, items);
    lemma_pickup_potion_characterization(once, pos, psize, items);
}

/// The kind the last overlapping weapon collectable carries, if any overlaps.
pub open spec fn spec_last_overlap_weapon(
    pos: Point,
    psize: TilemapTileSize,
    items: Seq<WeaponPickup>,
) -> Option<Collectable<Weapon>>
    decreases items.len(),
{
    if items.len() == 0 {
        None
    } else {
        let rest = spec_last_overlap_weapon(pos, psize, items.skip(1));
        if rest is Some {
            rest
        } else if spec_overlaps(pos, psize, items[0].0, items[0].1) {
            Some(items[0].2)
        } else {
            None
        }
    }
}

/// The weapon pickup pass, characterized: the weapon slot afterwards holds
/// the last overlapping collectable's kind, or its old value when nothing
/// overlaps; the potion slot is untouched.
pub proof fn lemma_pickup_weapon_characterization(
    inv: Inventory,
    pos: Point,
    psize: TilemapTileSize,
    items: Seq<WeaponPickup>,
)
    ensures
        spec_pickup_weapon(inv, pos, psize, items) == (Inventory {
            potion: inv.potion,
            weapon: match spec_last_overlap_weapon(pos, psize, items) {
                Some(c) => Some(c),
                None => inv.weapon,
            },
        }),
    decreases items.len(),
{
    if items.len() > 0 {
        let first = items[0];
        let inv1 = if spec_overlaps(pos, psize, first.0, first.1) {
            Inventory { potion: inv.potion, weapon: Some(first.2) }
        } else {
            inv
        };
        lemma_pickup_weapon_characterization(inv1, pos, psize, items.skip(1));
    }
}

/// Weapon pickup is idempotent, exactly as potion pickup is.
pub proof fn lemma_pickup_weapon_idempotent(
    inv: Inventory,
    pos: Point,
    psize: TilemapTileSize,
    items: Seq<WeaponPickup>,
)
    ensures
        spec_pickup_weapon(spec_pickup_weapon(inv, pos, psize, items), pos, psize, items)
            == spec_pickup_weapon(inv, pos, psize, items),
{
    let once = spec_pickup_weapon(inv, pos, psize, items);
    lemma_pickup_weapon_characterization(inv, pos, psize, items);
    lemma_pickup_weapon_characterization(once, pos, psize, items);
}

/// The traversal gate: the player passes only when both of its slots are
/// occupied and equal the portal's required slots, value for value.
pub open spec fn spec_portal_admits(player: Inventory, required: Inventory) -> bool {
    &&& player.potion is Some
    &&& player.weapon is Some
    &&& required.potion is Some
    &&& required.weapon is Some
    &&& player.potion == required.potion
    &&& player.weapon == required.weapon
}

/// Whether the player's inventory opens a portal with the given requirement.
pub fn portal_admits(player: &Inventory, required: &Inventory) -> (r: bool)
    ensures
        r == spec_portal_admits(*player, *required),
{
    match (&player.potion, &player.weapon, &required.potion, &required.weapon) {
        (Some(pl_potion), Some(pl_weapon), Some(po_potion), Some(po_weapon)) => {
            *pl_potion == *po_potion && *pl_weapon == *po_weapon
        },
        _ => false,
    }
}

/// Exact match admits; a missing slot rejects; a mismatched slot rejects.
pub proof fn lemma_portal_gate_exact_match(
    a: Collectable<Potion>,
    b: Collectable<Weapon>,
    c: Collectable<Weapon>,
)
    ensures
        spec_portal_admits(
            (Inventory { potion: Some(a), weapon: Some(b) }),
            (Inventory { potion: Some(a), weapon: Some(b) }),
        ),
        !spec_portal_admits(
            (Inventory { potion: Some(a), weapon: None }),
            (Inventory { potion: Some(a), weapon: Some(b) }),
        ),
        b != c ==> !spec_portal_admits(
            (Inventory { potion: Some(a), weapon: Some(c) }),
            (Inventory { potion: Some(a), weapon: Some(b) }),
        ),
{
}

/// A portal zone's per-frame flag: whether the player currently overlaps it.
#[derive(Copy, Clone, Debug, PartialEq, Eq, Structural)]
pub struct Portal {
    pub entered: bool,
}

impl Portal {
    /// A portal starts untouched.
    pub fn new() -> (r: Self)
        ensures
            !r.entered,
    {
        Self { entered: false }
    }
}

/// A portal zone placed in the world: center, extents, required inventory.
pub type PortalZone = (Point, TilemapTileSize, Inventory);

/// What the player is told at a portal it overlaps.
#[derive(Copy, Clone, Debug, PartialEq, Eq, Structural)]
pub enum GateMessage {
    Admitted,
    Rejected,
}

/// How far beyond a portal's center an admitted player pops out: the
/// portal's extent less one and a half player extents (the same 1.5 factor
/// the shape-object mapping uses, made exact over integers).
pub open spec fn spec_portal_exit_offset(portal_h: int, player_h: int) -> int {
    portal_h - (3 * player_h) / 2
}

/// What one portal does to an overlapping player: a failed gate reports a
/// rejection and stops the pass; an admitted player moving through the
/// portal's near edge is teleported just past the far edge along the travel
/// axis at full speed (any other approach leaves it where it is).
pub open spec fn spec_portal_step(
    pos: Point,
    mv: Moveable,
    psize: TilemapTileSize,
    portal: PortalZone,
    inv: Inventory,
) -> (Point, Moveable, Option<bool>) {
    match spec_collide(pos, psize, portal.0, portal.1) {
        None => (pos, mv, None),
        Some(side) => if !spec_portal_admits(inv, portal.2) {
            (pos, mv, Some(false))
        } else {
            let through = Moveable { speed: PLAYER_SPEED as i64, direction: mv.direction };
            let off = spec_portal_exit_offset(portal.1.height as int, psize.height as int);
            match (mv.direction, side) {
                (Direction::Down, Collision::Top) => (
                    Point { x: pos.x, y: (portal.0.y - off) as i64 },
                    through,
                    Some(true),
                ),
                (Direction::Up, Collision::Bottom) => (
                    Point { x: pos.x, y: (portal.0.y + off) as i64 },
                    through,
                    Some(true),
                ),
                _ => (pos, mv, Some(true)),
            }
        },
    }
}

/// What the whole per-frame portal pass does: each portal applied in turn to
/// the state the previous one left, stopping at the first rejection.
pub open spec fn spec_check_portal(
    pos: Point,
    mv: Moveable,
    psize: TilemapTileSize,
    inv: Inventory,
    portals: Seq<PortalZone>,
) -> (Point, Moveable, Seq<GateMessage>)
    decreases portals.len(),
{
    if portals.len() == 0 {
        (pos, mv, Seq::empty())
    } else {
        let step = spec_portal_step(pos, mv, psize, portals[0], inv);
        match step.2 {
            Some(false) => (pos, mv, seq![GateMessage::Rejected]),
            Some(true) => {
                let rest = spec_check_portal(step.0, step.1, psize, inv, portals.skip(1));
                (rest.0, rest.1, seq![GateMessage::Admitted] + rest.2)
            },
            None => spec_check_portal(pos, mv, psize, inv, portals.skip(1)),
        }
    }
}

/// Recomputes every portal's `entered` flag for this frame: level-triggered,
/// true exactly while the player's bounding box overlaps the portal's
/// rectangle (`portal_flags[i]` belongs to `portal_zones[i]`).
pub fn update_portal_entered(
    player_transform: &Point,
    player_size: &TilemapTileSize,
    portal_zones: &Vec<PortalZone>,
    portal_flags: &mut Vec<Portal>,
)
    requires
        pos_ok(*player_transform),
        size_ok(*player_size),
        forall|i: int|
            0 <= i < portal_zones@.len() ==> footprint_ok(
                ((#[trigger] portal_zones@[i]).0, portal_zones@[i].1),
            ),
    ensures
        final(portal_flags)@.len() == portal_zones@.len(),
        forall|i: int|
            0 <= i < portal_zones@.len() ==> (#[trigger] final(portal_flags)@[i]).entered
                == spec_overlaps(
                *player_transform,
                *player_size,
                portal_zones@[i].0,
                portal_zones@[i].1,
            ),
{
    let mut flags: Vec<Portal> = Vec::new();
    let mut i: usize = 0;
    while i < portal_zones.len()
        invariant
            0 <= i <= portal_zones@.len(),
            pos_ok(*player_transform),
            size_ok(*player_size),
            flags@.len() == i,
            forall|j: int|
                0 <= j < portal_zones@.len() ==> footprint_ok(
                    ((#[trigger] portal_zones@[j]).0, portal_zones@[j].1),
                ),
            forall|j: int|
                0 <= j < i ==> (#[trigger] flags@[j]).entered == spec_overlaps(
                    *player_transform,
                    *player_size,
                    portal_zones@[j].0,
                    portal_zones@[j].1,
                ),
        decreases portal_zones@.len() - i,
    {
        let (po_pos, po_size, _) = &portal_zones[i];
        let overlapping = crate::collision::collide(
            player_transform,
            player_size,
            po_pos,
            po_size,
        ).is_some();
        flags.push(Portal { entered: overlapping });
        i = i + 1;
    }
    *portal_flags = flags;
}

/// The per-frame portal pass: reports each admission decision in order and
/// teleports an admitted player through. The pass stops at the first
/// rejecting portal, as the player cannot be admitted anywhere else that
/// frame.
pub fn check_portal(
    player_transform: &mut Point,
    player_size: &TilemapTileSize,
    player_moveable: &mut Moveable,
    player_inventory: &Inventory,
    portals: &Vec<PortalZone>,
) -> (messages: Vec<GateMessage>)
    requires
        pos_ok(*old(player_transform)),
        0 <= old(player_moveable).speed <= MAX_SPEED,
        size_ok(*player_size),
        forall|i: int|
            0 <= i < portals@.len() ==> footprint_ok(((#[trigger] portals@[i]).0, portals@[i].1)),
    ensures
        *final(player_transform) == spec_check_portal(
            *old(player_transform),
            *old(player_moveable),
            *player_size,
            *player_inventory,
            portals@,
        ).0,
        *final(player_moveable) == spec_check_portal(
            *old(player_transform),
            *old(player_moveable),
            *player_size,
            *player_inventory,
            portals@,
        ).1,
        messages@ == spec_check_portal(
            *old(player_transform),
            *old(player_moveable),
            *player_size,
            *player_inventory,
            portals@,
        ).2,
{
    let mut pos: Point = *player_transform;
    let mut mv: Moveable = *player_moveable;
    let mut messages: Vec<GateMessage> = Vec::new();
    let ghost ps = portals@;
    let ghost pos0 = pos;
    let ghost mv0 = mv;
    proof {
        assert(ps.skip(0) =~= ps);
    }
    let mut i: usize = 0;
    while i < portals.len()
        invariant
            0 <= i <= ps.len(),
            portals@ == ps,
            pos0 == *old(player_transform),
            mv0 == *old(player_moveable),
            size_ok(*player_size),
            forall|j: int| 0 <= j < ps.len() ==> footprint_ok(((#[trigger] ps[j]).0, ps[j].1)),
            pos_ok(pos),
            0 <= mv.speed <= MAX_SPEED,
            spec_check_portal(pos0, mv0, *player_size, *player_inventory, ps).0
                == spec_check_portal(pos, mv, *player_size, *player_inventory, ps.skip(i as int)).0,
            spec_check_portal(pos0, mv0, *player_size, *player_inventory, ps).1
                == spec_check_portal(pos, mv, *player_size, *player_inventory, ps.skip(i as int)).1,
            spec_check_portal(pos0, mv0, *player_size, *player_inventory, ps).2 == messages@
                + spec_check_portal(pos, mv, *player_size, *player_inventory, ps.skip(i as int)).2,
        decreases ps.len() - i,
    {
        let (po_pos, po_size, po_required) = portals[i];
        proof {
            assert(ps.skip(i as int)[0] == ps[i as int]);
            assert(ps.skip(i as int).skip(1) =~= ps.skip(i as int + 1));
        }
        if let Some(collision) = crate::collision::collide(&pos, player_size, &po_pos, &po_size) {
            if !portal_admits(player_inventory, &po_required) {
                proof {
                    let step = spec_portal_step(
                        pos,
                        mv,
                        *player_size,
                        ps[i as int],
                        *player_inventory,
                    );
                    assert(step.2 == Some(false));
                    assert(spec_check_portal(
                        pos,
                        mv,
                        *player_size,
                        *player_inventory,
                        ps.skip(i as int),
                    ) == (pos, mv, seq![GateMessage::Rejected]));
                }
                messages.push(GateMessage::Rejected);
                *player_transform = pos;
                *player_moveable = mv;
                return messages;
            }
            messages.push(GateMessage::Admitted);
            let exit_offset = po_size.height - (3 * player_size.height) / 2;
            match (mv.direction, collision) {
                (Direction::Down, Collision::Top) => {
                    pos.y = po_pos.y - exit_offset;
                    mv.speed = PLAYER_SPEED;
                },
                (Direction::Up, Collision::Bottom) => {
                    pos.y = po_pos.y + exit_offset;
                    mv.speed = PLAYER_SPEED;
                },
                _ => {},
            }
        }
        i = i + 1;
    }
    *player_transform = pos;
    *player_moveable = mv;
    messages
}

} // verus!
