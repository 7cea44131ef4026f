use tilequest::coords::Point;
use tilequest::movement::{
    input_system_keyboard, input_system_touch, update_player_position, Direction,
    DirectionalInput, Moveable, PLAYER_SPEED,
};

fn no_keys() -> DirectionalInput {
    DirectionalInput { up: false, down: false, left: false, right: false }
}

#[test]
fn new_moveable_stands_still() {
    let m = Moveable::new();
    assert_eq!(m.speed, 0);
    assert_eq!(m.direction, Direction::Stopped);
}

#[test]
fn held_key_sets_direction_at_full_speed() {
    let mut m = Moveable::new();
    input_system_keyboard(&mut m, &DirectionalInput { right: true, ..no_keys() });
    assert_eq!(m.direction, Direction::Right);
    assert_eq!(m.speed, PLAYER_SPEED);
}

#[test]
fn up_wins_over_later_checked_keys() {
    let mut m = Moveable::new();
    input_system_keyboard(
        &mut m,
        &DirectionalInput { up: true, down: true, left: true, right: true },
    );
    assert_eq!(m.direction, Direction::Up);
}

#[test]
fn coasting_decays_by_the_named_decrement() {
    let mut m = Moveable { speed: 10, direction: Direction::Left };
    input_system_keyboard(&mut m, &no_keys());
    assert_eq!(m.speed, 8);
    assert_eq!(m.direction, Direction::Left);
}

#[test]
fn coasting_stops_at_zero() {
    let mut m = Moveable { speed: 2, direction: Direction::Left };
    input_system_keyboard(&mut m, &no_keys());
    assert_eq!(m.speed, 0);
    assert_eq!(m.direction, Direction::Stopped);
    input_system_keyboard(&mut m, &no_keys());
    assert_eq!(m.speed, 0);
    assert_eq!(m.direction, Direction::Stopped);
}

#[test]
fn integration_displaces_along_the_active_axis() {
    let mut p = Point { x: 0, y: 0 };
    update_player_position(&mut p, &Moveable { speed: 100, direction: Direction::Right }, 1000);
    assert_eq!(p, Point { x: 100, y: 0 });
    update_player_position(&mut p, &Moveable { speed: 100, direction: Direction::Up }, 250);
    assert_eq!(p, Point { x: 100, y: 25 });
    update_player_position(&mut p, &Moveable { speed: 125, direction: Direction::Left }, 16);
    assert_eq!(p, Point { x: 98, y: 25 });
}

#[test]
fn stopped_entity_does_not_move() {
    let mut p = Point { x: 7, y: -3 };
    update_player_position(&mut p, &Moveable { speed: 100, direction: Direction::Stopped }, 1000);
    assert_eq!(p, Point { x: 7, y: -3 });
}

#[test]
fn touch_snaps_to_the_touch_position() {
    let mut p = Point { x: 0, y: 0 };
    input_system_touch(&mut p, &Point { x: 320, y: -240 });
    assert_eq!(p, Point { x: 320, y: -240 });
}
