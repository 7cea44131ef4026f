use tilequest::coords::{tile_to_world, Point, TilemapSize, TilemapTileSize};

fn fixture_size() -> TilemapSize {
    TilemapSize { columns: 10, rows: 10, width: 20, height: 15 }
}

fn fixture_tile() -> TilemapTileSize {
    TilemapTileSize { width: 16, height: 16 }
}

#[test]
fn scaled_multiplies_both_extents() {
    let t = fixture_tile().scaled(3);
    assert_eq!(t.width, 48);
    assert_eq!(t.height, 48);
}

#[test]
fn tile_to_world_golden_values() {
    let size = fixture_size();
    let tile = fixture_tile();
    // Column 0: 0*48 - (20*48)/2 + 24 = -456; row 0 inverts to row 14:
    // 14*48 - (15*48)/2 + 24 = 336.
    let p = tile_to_world(&size, &tile, 3, 0, 0);
    assert_eq!(p, Point { x: -456, y: 336 });
    // The bottom-left document cell lands at the map origin.
    let origin = Point::get_map_origin(&size, &tile, 3);
    let bottom_left = tile_to_world(&size, &tile, 3, 0, 14);
    assert_eq!(origin, bottom_left);
}

#[test]
fn row_inversion_is_involutive() {
    let size = fixture_size();
    let tile = fixture_tile();
    for y in 0..15usize {
        let inverted = 15 - 1 - y;
        let twice = 15 - 1 - inverted;
        assert_eq!(
            tile_to_world(&size, &tile, 3, 7, y),
            tile_to_world(&size, &tile, 3, 7, twice),
        );
    }
}

#[test]
fn from_tiled_tile_inverts_the_row_only() {
    let size = fixture_size();
    let p = Point::from_tiled_tile(&size, 3, 2);
    assert_eq!(p, Point { x: 3, y: 12 });
}

#[test]
fn collision_mapping_offsets_by_a_full_tile() {
    let size = fixture_size();
    let tile = fixture_tile();
    // Footprint for document cell (2, 2): the sprite's center offset by one
    // full scaled tile (48) in each axis — never by half a tile (24).
    let sprite = tile_to_world(&size, &tile, 3, 2, 2);
    let mapped_row = 15 - 1 - 2;
    let footprint = Point::from_tiled_collision(&size, &tile, 3, 2, mapped_row as i64);
    assert_eq!(footprint.x - sprite.x, 48);
    assert_eq!(sprite.y - footprint.y, 48);
    assert_ne!(footprint.x - sprite.x, 24);
}

#[test]
fn object_mapping_golden_fixture() {
    // An object at document coordinates (100, 50) on a 20x15 map of 16x16
    // tiles at scale 3: x = 300 - 480 = -180, y = -(150 - 360) = 210.
    let size = fixture_size();
    let tile = fixture_tile();
    let p = Point::from_tiled_object(&size, &tile, 3, 100, 50);
    assert_eq!(p, Point { x: -180, y: 210 });
}

#[test]
fn shape_object_mapping_adds_the_three_halves_shift() {
    let size = fixture_size();
    let tile = fixture_tile();
    let base = Point::from_tiled_object(&size, &tile, 3, 464, 144);
    let shaped = Point::from_tiled_object_shape(&size, &tile, 3, 464, 144, 16, 64);
    // The shift is 1.5 times the shape extent: 24 right, 96 down.
    assert_eq!(shaped.x - base.x, 24);
    assert_eq!(base.y - shaped.y, 96);
    assert_eq!(shaped, Point { x: 936, y: -168 });
}
