use tilequest::materialize::{
    build_collideables, build_tiles, process_loaded_maps, process_map_collideables,
    process_map_layers, process_map_object_shapes, process_map_object_sprites,
};
use tilequest::coords::{Point, TilemapSize};
use tilequest::model::{
    assign_tileset_textures, CollisionShape, Layer, LayerKind, MapLoadError, MapObject, RectShape,
    TileDef, TileGrid, TileLayerData, TileRef, TiledMap, Tileset,
};

fn tile_ref(id: u32, flip_v: bool, flip_d: bool) -> TileRef {
    TileRef { tileset_index: 0, tile_id: id, flip_h: false, flip_v, flip_d }
}

/// A 2x2 map of 16-pixel tiles: one tileset of two tiles (the second one a
/// wall with a full-tile collision rectangle), one tile layer, one object
/// layer holding a player sprite and a portal-gate rectangle.
fn fixture_map() -> TiledMap {
    let tileset = Tileset {
        tile_width: 16,
        tile_height: 16,
        spacing: 0,
        columns: 2,
        tilecount: 2,
        image: Some("tiles.png".to_string()),
        tiles: vec![
            TileDef { user_type: None, collision: None },
            TileDef {
                user_type: Some("Wall".to_string()),
                collision: Some(vec![CollisionShape::Rect { width: 16, height: 16 }]),
            },
        ],
    };
    let grid = TileGrid {
        width: 2,
        height: 2,
        cells: vec![
            Some(tile_ref(1, false, true)),
            None,
            None,
            Some(tile_ref(0, true, false)),
        ],
    };
    let objects = vec![
        MapObject {
            x: 10,
            y: 20,
            name: Some("hero".to_string()),
            class: Some("Player".to_string()),
            tile: Some(tile_ref(0, false, false)),
            shape: None,
        },
        MapObject {
            x: 0,
            y: 0,
            name: Some("Red potion,Hammer".to_string()),
            class: Some("Portal".to_string()),
            tile: None,
            shape: Some(RectShape { width: 16, height: 16 }),
        },
        MapObject {
            x: 3,
            y: 4,
            name: None,
            class: None,
            tile: None,
            shape: Some(RectShape { width: 8, height: 8 }),
        },
    ];
    TiledMap {
        width: 2,
        height: 2,
        tile_width: 16,
        tile_height: 16,
        tilesets: vec![tileset],
        layers: vec![
            Layer { name: "ground".to_string(), kind: LayerKind::Tiles(TileLayerData::Finite(grid)) },
            Layer { name: "things".to_string(), kind: LayerKind::Objects(objects) },
        ],
        tilemap_textures: vec![Some(1)],
    }
}

#[test]
fn build_tiles_inverts_rows_and_translates_flips() {
    let map = fixture_map();
    let size = TilemapSize { columns: 2, rows: 1, width: 2, height: 2 };
    let LayerKind::Tiles(tile_layer) = &map.layers[0].kind else {
        panic!("fixture has a tile layer first");
    };
    let tiles = build_tiles(tile_layer, &size, 0, 0).expect("finite layer");
    assert_eq!(tiles.len(), 2);
    // Document cell (0, 0) renders at grid (0, 1); its diagonal flip becomes
    // a horizontal flip of the sprite.
    assert_eq!(tiles[0].x, 0);
    assert_eq!(tiles[0].y, 1);
    assert_eq!(tiles[0].sprite_index, 1);
    assert!(tiles[0].flip_x);
    assert!(!tiles[0].flip_y);
    // Document cell (1, 1) renders at grid (1, 0); its vertical flip stays
    // vertical.
    assert_eq!(tiles[1].x, 1);
    assert_eq!(tiles[1].y, 0);
    assert_eq!(tiles[1].sprite_index, 0);
    assert!(!tiles[1].flip_x);
    assert!(tiles[1].flip_y);
}

#[test]
fn infinite_layers_materialize_nothing() {
    let size = TilemapSize { columns: 2, rows: 1, width: 2, height: 2 };
    assert!(build_tiles(&TileLayerData::Infinite, &size, 0, 0).is_none());
    let map = fixture_map();
    assert!(build_collideables(&size, &map.tilesets, 3, &TileLayerData::Infinite).is_none());
}

#[test]
fn collideables_carry_the_wall_tag_at_the_collision_mapping() {
    let map = fixture_map();
    let size = TilemapSize { columns: 2, rows: 1, width: 2, height: 2 };
    let LayerKind::Tiles(tile_layer) = &map.layers[0].kind else {
        panic!("fixture has a tile layer first");
    };
    let found = build_collideables(&size, &map.tilesets, 3, tile_layer).expect("finite layer");
    assert_eq!(found.len(), 1);
    assert_eq!(found[0].tile_point, Point { x: 0, y: 0 });
    assert_eq!(found[0].collision_point, Point { x: 24, y: -72 });
    assert_eq!(found[0].name, Some("Wall".to_string()));
    assert_eq!(found[0].obstacle_type(), tilequest::tags::ObstacleType::Wall);
}

#[test]
fn non_rectangle_collision_shapes_are_skipped() {
    let mut map = fixture_map();
    map.tilesets[0].tiles[1].collision = Some(vec![
        CollisionShape::Other,
        CollisionShape::Rect { width: 16, height: 16 },
        CollisionShape::Rect { width: 8, height: 8 },
    ]);
    let collideables = process_map_collideables(&map, 3);
    // One footprint per rectangle; the non-rectangle contributes nothing.
    assert_eq!(collideables.len(), 2);
}

#[test]
fn layer_renders_center_the_grid_and_describe_the_atlas() {
    let map = fixture_map();
    let renders = process_map_layers(&map, 3);
    assert_eq!(renders.len(), 1);
    let render = &renders[0];
    assert_eq!(render.layer_index, 0);
    assert_eq!(render.tileset_index, 0);
    assert_eq!(render.name, "ground");
    assert_eq!(render.origin, Point { x: -24, y: -24 });
    assert_eq!(render.scaled_tile_size.width, 48);
    assert_eq!(render.atlas_columns, 2);
    assert_eq!(render.atlas_rows, 1);
    assert_eq!(render.tiles.len(), 2);
}

#[test]
fn tilesets_without_a_texture_render_nothing() {
    let mut map = fixture_map();
    map.tilemap_textures = vec![None];
    assert_eq!(process_map_layers(&map, 3).len(), 0);
    // The rest of the map still materializes: collision extraction does not
    // depend on textures.
    assert_eq!(process_map_collideables(&map, 3).len(), 1);
}

#[test]
fn object_sprites_are_placed_by_the_object_mapping() {
    let map = fixture_map();
    let sprites = process_map_object_sprites(&map, 3);
    assert_eq!(sprites.len(), 1);
    let s = &sprites[0];
    // (10, 20) scaled by 3 and centered on a 2x2 map of 48-unit tiles.
    assert_eq!(s.position, Point { x: -18, y: -12 });
    assert_eq!(s.depth, 1);
    assert_eq!(s.sprite_index, 0);
    assert_eq!(s.object.name, Some("hero".to_string()));
    assert_eq!(s.object.class, Some("Player".to_string()));
    assert_eq!(s.size.width, 48);
}

#[test]
fn only_gate_shapes_materialize() {
    let map = fixture_map();
    let shapes = process_map_object_shapes(&map, 3);
    assert_eq!(shapes.len(), 1);
    let s = &shapes[0];
    // (0, 0) centered, then shifted by 1.5 times the 16-unit shape.
    assert_eq!(s.shape.collision_point, Point { x: -24, y: 24 });
    assert_eq!(s.shape.class, Some("Portal".to_string()));
    assert_eq!(s.shape.name, Some("Red potion,Hammer".to_string()));
    assert_eq!(s.depth, 1);
    assert_eq!(s.size.width, 48);
    assert_eq!(s.size.height, 48);
}

#[test]
fn process_loaded_maps_combines_the_four_walks() {
    let map = fixture_map();
    let world = process_loaded_maps(&map, 3);
    assert_eq!(world.layers.len(), 1);
    assert_eq!(world.collideables.len(), 1);
    assert_eq!(world.object_sprites.len(), 1);
    assert_eq!(world.object_shapes.len(), 1);
}

#[test]
fn texture_assignment_reports_each_missing_image() {
    let resolved = vec![Some(5), None, Some(7)];
    let (assignments, errors) = assign_tileset_textures(&resolved);
    assert_eq!(assignments, vec![(0, 5), (2, 7)]);
    assert_eq!(errors, vec![MapLoadError::MissingImage { tileset_index: 1 }]);
}
