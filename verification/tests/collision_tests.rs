use tilequest::collision::{check_collideable, collide, Collision};
use tilequest::coords::{Point, TilemapSize, TilemapTileSize};
use tilequest::movement::{update_player_position, Direction, Moveable};

fn square48() -> TilemapTileSize {
    TilemapTileSize { width: 48, height: 48 }
}

#[test]
fn separated_boxes_do_not_collide() {
    let r = collide(
        &Point { x: 0, y: 0 },
        &square48(),
        &Point { x: 200, y: 0 },
        &square48(),
    );
    assert_eq!(r, None);
}

#[test]
fn exact_touching_is_not_a_collision() {
    // Centers 48 apart with 48-wide boxes: edges meet with zero gap.
    let r = collide(
        &Point { x: 0, y: 0 },
        &square48(),
        &Point { x: 48, y: 0 },
        &square48(),
    );
    assert_eq!(r, None);
    let r = collide(
        &Point { x: 0, y: 0 },
        &square48(),
        &Point { x: 0, y: -48 },
        &square48(),
    );
    assert_eq!(r, None);
}

#[test]
fn one_unit_overlap_reports_the_struck_side() {
    let r = collide(
        &Point { x: 0, y: 0 },
        &square48(),
        &Point { x: 47, y: 0 },
        &square48(),
    );
    assert_eq!(r, Some(Collision::Left));
    let r = collide(
        &Point { x: 0, y: 0 },
        &square48(),
        &Point { x: -47, y: 0 },
        &square48(),
    );
    assert_eq!(r, Some(Collision::Right));
    let r = collide(
        &Point { x: 0, y: 0 },
        &square48(),
        &Point { x: 0, y: 47 },
        &square48(),
    );
    assert_eq!(r, Some(Collision::Bottom));
    let r = collide(
        &Point { x: 0, y: 0 },
        &square48(),
        &Point { x: 0, y: -47 },
        &square48(),
    );
    assert_eq!(r, Some(Collision::Top));
}

#[test]
fn coincident_boxes_are_inside() {
    let r = collide(
        &Point { x: 0, y: 0 },
        &square48(),
        &Point { x: 0, y: 0 },
        &square48(),
    );
    assert_eq!(r, Some(Collision::Inside));
}

#[test]
fn touching_footprint_triggers_no_correction() {
    let mut pos = Point { x: 0, y: 0 };
    let mut mv = Moveable { speed: 100, direction: Direction::Right };
    let footprints = vec![(Point { x: 48, y: 0 }, square48())];
    check_collideable(&mut pos, &mut mv, &square48(), &footprints);
    assert_eq!(pos, Point { x: 0, y: 0 });
    assert_eq!(mv.speed, 100);
}

#[test]
fn one_unit_overlap_corrects_to_zero_residual_overlap() {
    let mut pos = Point { x: 1, y: 0 };
    let mut mv = Moveable { speed: 100, direction: Direction::Right };
    let footprints = vec![(Point { x: 48, y: 0 }, square48())];
    check_collideable(&mut pos, &mut mv, &square48(), &footprints);
    // Snapped back so the edges exactly meet, speed zeroed.
    assert_eq!(pos, Point { x: 0, y: 0 });
    assert_eq!(mv.speed, 0);
    assert_eq!(mv.direction, Direction::Right);
    // Re-testing finds no overlap left.
    assert_eq!(collide(&pos, &square48(), &Point { x: 48, y: 0 }, &square48()), None);
}

#[test]
fn sliding_past_a_corner_is_not_blocked() {
    // Traveling Right but striking the footprint's top edge: the tie-break
    // table has no entry for that pair, so nothing is corrected.
    let mut pos = Point { x: 0, y: 40 };
    let mut mv = Moveable { speed: 100, direction: Direction::Right };
    let footprints = vec![(Point { x: 20, y: 0 }, square48())];
    assert_eq!(
        collide(&pos, &square48(), &Point { x: 20, y: 0 }, &square48()),
        Some(Collision::Top),
    );
    check_collideable(&mut pos, &mut mv, &square48(), &footprints);
    assert_eq!(pos, Point { x: 0, y: 40 });
    assert_eq!(mv.speed, 100);
}

#[test]
fn wall_stops_a_full_second_of_travel_at_its_edge() {
    // A 5x5 map of 16-pixel tiles at scale 3 (48 world units per tile). The
    // wall tile in document cell (3, 2) declares a full-tile rectangle; its
    // footprint is placed by the dedicated collision mapping. The player
    // starts one tile short of the sprite column, aligned with the
    // footprint's row, and travels right at speed 100 for one second.
    let size = TilemapSize { columns: 5, rows: 5, width: 5, height: 5 };
    let tile = TilemapTileSize { width: 16, height: 16 };
    let mapped_row = 5 - 1 - 2;
    let footprint = Point::from_tiled_collision(&size, &tile, 3, 3, mapped_row as i64);
    assert_eq!(footprint, Point { x: 96, y: -48 });

    let player_size = square48();
    let mut pos = Point { x: -48, y: footprint.y };
    let mut mv = Moveable { speed: 100, direction: Direction::Right };
    update_player_position(&mut pos, &mv, 1000);
    assert_eq!(pos.x, 52);

    let footprints = vec![(footprint, square48())];
    check_collideable(&mut pos, &mut mv, &player_size, &footprints);
    // The player's right edge ends exactly at the wall footprint's left
    // edge, with speed reset and no residual overlap.
    assert_eq!(pos.x + 24, footprint.x - 24);
    assert_eq!(pos, Point { x: 48, y: -48 });
    assert_eq!(mv.speed, 0);
    assert_eq!(collide(&pos, &player_size, &footprint, &square48()), None);
}
