use tilequest::coords::{tile_to_world, Point, TilemapSize, TilemapTileSize};
use tilequest::inventory::{
    check_collectable_potion, check_collectable_weapon, check_portal, portal_admits,
    update_portal_entered, Collectable, GateMessage, Inventory, Portal, Potion, Weapon,
};
use tilequest::movement::{Direction, Moveable, PLAYER_SPEED};

fn square48() -> TilemapTileSize {
    TilemapTileSize { width: 48, height: 48 }
}

#[test]
fn new_inventory_is_empty() {
    let inv = Inventory::new();
    assert_eq!(inv.potion, None);
    assert_eq!(inv.weapon, None);
    assert_eq!(Inventory::default(), inv);
}

#[test]
fn overlapping_potion_is_picked_up_idempotently() {
    // A red potion placed at tile (1, 1) of a 5x5 map of 16-pixel tiles at
    // scale 3; the player stands on that tile.
    let size = TilemapSize { columns: 5, rows: 5, width: 5, height: 5 };
    let tile = TilemapTileSize { width: 16, height: 16 };
    let potion_pos = tile_to_world(&size, &tile, 3, 1, 1);
    let collectables = vec![(potion_pos, square48(), Collectable(Potion::Red))];

    let player_pos = potion_pos;
    let mut inv = Inventory::new();
    check_collectable_potion(&player_pos, &square48(), &mut inv, &collectables);
    assert_eq!(inv.potion, Some(Collectable(Potion::Red)));
    assert_eq!(inv.weapon, None);

    // Overlapping the same collectable again changes nothing: it stays in
    // the world and the slot already holds its kind.
    check_collectable_potion(&player_pos, &square48(), &mut inv, &collectables);
    assert_eq!(inv.potion, Some(Collectable(Potion::Red)));

    // Moving away and back leaves the slot as it was.
    let away = Point { x: player_pos.x + 1000, y: player_pos.y };
    check_collectable_potion(&away, &square48(), &mut inv, &collectables);
    assert_eq!(inv.potion, Some(Collectable(Potion::Red)));
}

#[test]
fn later_overlapping_collectable_wins() {
    let here = Point { x: 0, y: 0 };
    let collectables = vec![
        (here, square48(), Collectable(Potion::Red)),
        (here, square48(), Collectable(Potion::Blue)),
    ];
    let mut inv = Inventory::new();
    check_collectable_potion(&here, &square48(), &mut inv, &collectables);
    assert_eq!(inv.potion, Some(Collectable(Potion::Blue)));
}

#[test]
fn weapon_pickup_fills_the_weapon_slot_only() {
    let here = Point { x: 0, y: 0 };
    let collectables = vec![(here, square48(), Collectable(Weapon::Axe))];
    let mut inv = Inventory { potion: Some(Collectable(Potion::Green)), weapon: None };
    check_collectable_weapon(&here, &square48(), &mut inv, &collectables);
    assert_eq!(inv.weapon, Some(Collectable(Weapon::Axe)));
    assert_eq!(inv.potion, Some(Collectable(Potion::Green)));
}

#[test]
fn portal_gate_requires_an_exact_match() {
    let required = Inventory {
        potion: Some(Collectable(Potion::Red)),
        weapon: Some(Collectable(Weapon::Hammer)),
    };
    let matching = required;
    let missing_weapon = Inventory { potion: Some(Collectable(Potion::Red)), weapon: None };
    let wrong_weapon = Inventory {
        potion: Some(Collectable(Potion::Red)),
        weapon: Some(Collectable(Weapon::Axe)),
    };
    assert!(portal_admits(&matching, &required));
    assert!(!portal_admits(&missing_weapon, &required));
    assert!(!portal_admits(&wrong_weapon, &required));
    // Occupancy alone is not enough on the portal's side either.
    assert!(!portal_admits(&matching, &missing_weapon));
}

#[test]
fn rejected_player_is_reported_and_left_in_place() {
    let required = Inventory {
        potion: Some(Collectable(Potion::Red)),
        weapon: Some(Collectable(Weapon::Hammer)),
    };
    let portals = vec![(Point { x: 0, y: 0 }, TilemapTileSize { width: 48, height: 96 }, required)];
    let mut pos = Point { x: 0, y: 60 };
    let mut mv = Moveable { speed: 100, direction: Direction::Down };
    let inv = Inventory { potion: Some(Collectable(Potion::Red)), weapon: None };
    let messages = check_portal(&mut pos, &square48(), &mut mv, &inv, &portals);
    assert_eq!(messages, vec![GateMessage::Rejected]);
    assert_eq!(pos, Point { x: 0, y: 60 });
    assert_eq!(mv.speed, 100);
}

#[test]
fn admitted_player_pops_out_past_the_far_edge() {
    let required = Inventory {
        potion: Some(Collectable(Potion::Red)),
        weapon: Some(Collectable(Weapon::Hammer)),
    };
    let portals = vec![(Point { x: 0, y: 0 }, TilemapTileSize { width: 48, height: 96 }, required)];
    // Moving down through the portal's top edge.
    let mut pos = Point { x: 0, y: 60 };
    let mut mv = Moveable { speed: 40, direction: Direction::Down };
    let messages = check_portal(&mut pos, &square48(), &mut mv, &required, &portals);
    assert_eq!(messages, vec![GateMessage::Admitted]);
    // Teleported to the portal's center minus (height - 1.5 player heights),
    // at full speed again.
    assert_eq!(pos, Point { x: 0, y: -24 });
    assert_eq!(mv.speed, PLAYER_SPEED);
    assert_eq!(mv.direction, Direction::Down);
}

#[test]
fn approaching_along_the_wrong_axis_does_not_traverse() {
    let required = Inventory {
        potion: Some(Collectable(Potion::Red)),
        weapon: Some(Collectable(Weapon::Hammer)),
    };
    let portals = vec![(Point { x: 0, y: 0 }, TilemapTileSize { width: 48, height: 96 }, required)];
    let mut pos = Point { x: 40, y: 0 };
    let mut mv = Moveable { speed: 40, direction: Direction::Left };
    let messages = check_portal(&mut pos, &square48(), &mut mv, &required, &portals);
    // Admitted, but the sideways approach has no traversal rule.
    assert_eq!(messages, vec![GateMessage::Admitted]);
    assert_eq!(pos, Point { x: 40, y: 0 });
    assert_eq!(mv.speed, 40);
}

#[test]
fn portal_starts_untouched() {
    let p = Portal::new();
    assert!(!p.entered);
}

#[test]
fn entered_flags_follow_overlap_every_frame() {
    let required = Inventory::new();
    let zones = vec![
        (Point { x: 0, y: 0 }, square48(), required),
        (Point { x: 500, y: 0 }, square48(), required),
    ];
    let mut flags = vec![Portal::new(), Portal::new()];
    let on_first = Point { x: 10, y: 0 };
    update_portal_entered(&on_first, &square48(), &zones, &mut flags);
    assert!(flags[0].entered);
    assert!(!flags[1].entered);
    // Level-triggered: moving away clears the flag on the next frame.
    let away = Point { x: 250, y: 0 };
    update_portal_entered(&away, &square48(), &zones, &mut flags);
    assert!(!flags[0].entered);
    assert!(!flags[1].entered);
}

#[test]
fn inventory_text_names_both_slots() {
    let inv = Inventory { potion: Some(Collectable(Potion::Red)), weapon: None };
    assert_eq!(inv.describe(), "Inventory (Potion: Red, Weapon: Empty)");
    let full = Inventory {
        potion: Some(Collectable(Potion::Blue)),
        weapon: Some(Collectable(Weapon::Sword)),
    };
    assert_eq!(full.describe(), "Inventory (Potion: Blue, Weapon: Sword)");
}
