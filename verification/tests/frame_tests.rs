use tilequest::coords::{Point, TilemapTileSize};
use tilequest::frame::{run_frame, PlayerState};
use tilequest::inventory::{Collectable, GateMessage, Inventory, Potion, Weapon};
use tilequest::movement::{Direction, DirectionalInput, Moveable, PLAYER_SPEED};

fn square48() -> TilemapTileSize {
    TilemapTileSize { width: 48, height: 48 }
}

fn idle_player() -> PlayerState {
    PlayerState {
        transform: Point { x: 0, y: 0 },
        size: square48(),
        moveable: Moveable::new(),
        inventory: Inventory::new(),
    }
}

fn right_key() -> DirectionalInput {
    DirectionalInput { up: false, down: false, left: false, right: true }
}

fn no_keys() -> DirectionalInput {
    DirectionalInput { up: false, down: false, left: false, right: false }
}

#[test]
fn a_frame_in_an_empty_world_just_moves() {
    let mut player = idle_player();
    let messages = run_frame(
        &mut player,
        &right_key(),
        1000,
        &vec![],
        &vec![],
        &vec![],
        &vec![],
    );
    assert_eq!(player.transform, Point { x: PLAYER_SPEED, y: 0 });
    assert_eq!(player.moveable.speed, PLAYER_SPEED);
    assert_eq!(player.moveable.direction, Direction::Right);
    assert!(messages.is_empty());
}

#[test]
fn releasing_the_keys_coasts_the_player_down() {
    let mut player = idle_player();
    player.moveable = Moveable { speed: 6, direction: Direction::Right };
    run_frame(&mut player, &no_keys(), 1000, &vec![], &vec![], &vec![], &vec![]);
    assert_eq!(player.moveable.speed, 4);
    assert_eq!(player.transform, Point { x: 4, y: 0 });
}

#[test]
fn the_frame_runs_collision_before_pickup() {
    // A wall footprint one tile to the right, and a potion sitting exactly
    // at the point where the wall stops the player: the pickup must see the
    // corrected position, so the potion is collected.
    let mut player = idle_player();
    let wall = (Point { x: 144, y: 0 }, square48());
    let stop_point = Point { x: 96, y: 0 };
    let potion = (stop_point, square48(), Collectable(Potion::Red));
    let messages = run_frame(
        &mut player,
        &right_key(),
        1000,
        &vec![wall],
        &vec![potion],
        &vec![],
        &vec![],
    );
    assert_eq!(player.transform, stop_point);
    assert_eq!(player.moveable.speed, 0);
    assert_eq!(player.inventory.potion, Some(Collectable(Potion::Red)));
    assert!(messages.is_empty());
}

#[test]
fn the_portal_gate_reads_the_inventory_picked_up_this_frame() {
    // The player walks down onto a potion and a weapon lying inside the
    // portal's mouth; the admission check must observe the inventory as filled
    // and admit the traversal.
    let required = Inventory {
        potion: Some(Collectable(Potion::Green)),
        weapon: Some(Collectable(Weapon::Axe)),
    };
    let mut player = idle_player();
    player.transform = Point { x: 0, y: 160 };
    let landing = Point { x: 0, y: 35 };
    let down = DirectionalInput { up: false, down: true, left: false, right: false };
    let messages = run_frame(
        &mut player,
        &down,
        1000,
        &vec![],
        &vec![(landing, square48(), Collectable(Potion::Green))],
        &vec![(landing, square48(), Collectable(Weapon::Axe))],
        &vec![(Point { x: 0, y: 0 }, TilemapTileSize { width: 96, height: 96 }, required)],
    );
    // Moved down 125 to y = 35, picked both items up, got admitted, and
    // popped out past the portal's far edge.
    assert_eq!(player.inventory, required);
    assert_eq!(messages, vec![GateMessage::Admitted]);
    assert_eq!(player.transform, Point { x: 0, y: -24 });
    assert_eq!(player.moveable.speed, PLAYER_SPEED);
}
