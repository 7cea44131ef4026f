//! Walking the map document: the layer materializer and the collision
//! extractor.
//!
//! Tile layers are walked cell by cell, column-major (x outer, y inner), each
//! cell sampled at the row-inverted coordinate; object layers are walked in
//! object order. Everything a walk emits is pinned down, in content and in
//! order, by a matching specification fold over the flattened cell index.

use vstd::prelude::*;

use crate::coords::{
    spec_collision_world_x, spec_collision_world_y, spec_invert_row, spec_object_world_x,
    spec_object_world_y, spec_scaled, Point, TilemapSize, TilemapTileSize,
};
use crate::model::{
    lemma_grid_index_in_range, tileset_wf, CollisionShape, LayerKind, MapObject, RectShape,
    TileGrid, TileLayerData, TileRef, TiledMap, Tileset,
};
use crate::tags::{classify_object, spec_object_class, ObjectClass};

verus! {

/// One tile to draw: grid coordinates (bottom-up, as the renderer expects),
/// the layer index as depth, the sprite to use, and the renderer's flip
/// flags.
#[derive(Copy, Clone, Debug, PartialEq, Eq, Structural)]
pub struct TilePlacement {
    pub x: usize,
    pub y: usize,
    pub layer: usize,
    pub sprite_index: u32,
    pub flip_x: bool,
    pub flip_y: bool,
}

/// The flattened cell index walks columns outer, rows inner: cell `k` is
/// column `k / height`, row `k % height`.
pub proof fn lemma_flat_index(x: int, y: int, h: int)
    by (nonlinear_arith)
    requires
        0 <= y < h,
        0 <= x,
    ensures
        (x * h + y) / h == x,
        (x * h + y) % h == y,
        0 <= x * h + y,
        (x + 1) * h == x * h + h,
{
}

/// The document's flip flags translated to the renderer's: a diagonal flip
/// becomes a horizontal flip of the output sprite, a vertical flip a
/// vertical one, both set become both — the horizontal document flag plays
/// no part.
pub open spec fn spec_placement(x: int, y: int, layer: int, t: TileRef) -> TilePlacement {
    TilePlacement {
        x: x as usize,
        y: y as usize,
        layer: layer as usize,
        sprite_index: t.tile_id,
        flip_x: t.flip_d,
        flip_y: t.flip_v,
    }
}

/// The placements the first `k` cells (flattened, columns outer) of a grid
/// emit for one tileset: each nonempty cell, sampled at the row-inverted
/// coordinate and belonging to that tileset, emits one placement at its own
/// (un-inverted) grid coordinates.
pub open spec fn spec_tile_placements(
    grid: TileGrid,
    tileset_index: int,
    layer_index: int,
    k: int,
) -> Seq<TilePlacement>
    decreases k,
{
    if k <= 0 {
        Seq::empty()
    } else {
        let prev = spec_tile_placements(grid, tileset_index, layer_index, k - 1);
        let x = (k - 1) / grid.height as int;
        let y = (k - 1) % grid.height as int;
        match grid.spec_tile_at(x, spec_invert_row(y, grid.height as int)) {
            Some(t) => if t.tileset_index == tileset_index {
                prev + seq![spec_placement(x, y, layer_index, t)]
            } else {
                prev
            },
            None => prev,
        }
    }
}

/// Materializes one tile layer for one tileset: every cell holding a tile of
/// that tileset emits one placement; a non-finite layer materializes nothing
/// (`None`). Cells are sampled at the row-inverted coordinate and emitted at
/// their own, so the grid comes out bottom-up as the renderer expects.
pub fn build_tiles(
    tile_layer: &TileLayerData,
    tilemap_size: &TilemapSize,
    tileset_index: usize,
    layer_index: usize,
) -> (r: Option<Vec<TilePlacement>>)
    requires
        match tile_layer {
            TileLayerData::Finite(grid) => grid.wf() && grid.width == tilemap_size.width
                && grid.height == tilemap_size.height,
            TileLayerData::Infinite => true,
        },
    ensures
        match tile_layer {
            TileLayerData::Finite(grid) => r is Some && r->0@ == spec_tile_placements(
                *grid,
                tileset_index as int,
                layer_index as int,
                grid.width * grid.height,
            ),
            TileLayerData::Infinite => r is None,
        },
{
    let grid = match tile_layer {
        TileLayerData::Finite(grid) => grid,
        TileLayerData::Infinite => {
            return None;
        },
    };

    let mut tiles: Vec<TilePlacement> = Vec::new();
    let width = grid.width;
    let height = grid.height;

    let mut x: usize = 0;
    while x < width
        invariant
            0 <= x <= width,
            grid.wf(),
            width == grid.width,
            height == grid.height,
            width == tilemap_size.width,
            height == tilemap_size.height,
            tiles@ == spec_tile_placements(
                *grid,
                tileset_index as int,
                layer_index as int,
                x * height,
            ),
        decreases width - x,
    {
        let mut y: usize = 0;
        while y < height
            invariant
                0 <= x < width,
                0 <= y <= height,
                grid.wf(),
                width == grid.width,
                height == grid.height,
                width == tilemap_size.width,
                height == tilemap_size.height,
                tiles@ == spec_tile_placements(
                    *grid,
                    tileset_index as int,
                    layer_index as int,
                    x * height + y,
                ),
            decreases height - y,
        {
            proof {
                lemma_flat_index(x as int, y as int, height as int);
            }
            let point = Point::from_tiled_tile(tilemap_size, x, y);
            let sampled = grid.get_tile(x, point.y as usize);
            if let Some(layer_tile) = sampled {
                if layer_tile.tileset_index == tileset_index {
                    tiles.push(
                        TilePlacement {
                            x,
                            y,
                            layer: layer_index,
                            sprite_index: layer_tile.tile_id,
                            flip_x: layer_tile.flip_d,
                            flip_y: layer_tile.flip_v,
                        },
                    );
                }
            }
            y = y + 1;
        }
        proof {
            lemma_flat_index(x as int, 0, height as int);
        }
        x = x + 1;
    }

    proof {
        crate::coords::lemma_mul_bounds_signed(
            width as int,
            height as int,
            crate::coords::MAX_MAP_TILES as int,
            crate::coords::MAX_MAP_TILES as int,
        );
    }
    Some(tiles)
}

/// A collision footprint extracted from a tile layer: the footprint's
/// world-space center, the grid cell (column, row-inverted row) it came
/// from, and the source tile's classification tag.
#[derive(Clone, Debug)]
pub struct TiledCollideable {
    pub collision_point: Point,
    pub tile_point: Point,
    pub name: Option<String>,
}

impl TiledCollideable {
    /// The obstacle classification this footprint's tag denotes, for the
    /// interaction logic to key on.
    pub fn obstacle_type(&self) -> (r: crate::tags::ObstacleType)
        ensures
            r == crate::tags::spec_obstacle_type(
                match self.name {
                    Some(s) => Some(s@),
                    None => None::<Seq<char>>,
                },
            ),
    {
        crate::tags::tile_user_class_to_component(&self.name)
    }
}

/// An exact copy of an optional tag.
fn clone_opt_string(o: &Option<String>) -> (r: Option<String>)
    ensures
        r == *o,
{
    match o {
        Some(s) => Some(s.clone()),
        None => None,
    }
}

/// Every grid cell holds a tile reference its document can resolve.
pub open spec fn grid_cells_valid(grid: TileGrid, tilesets: Seq<Tileset>) -> bool {
    forall|k: int|
        0 <= k < grid.cells@.len() ==> match #[trigger] grid.cells@[k] {
            Some(t) => t.tileset_index < tilesets.len()
                && t.tile_id < tilesets[t.tileset_index as int].tilecount,
            None => true,
        }
}

/// The footprint one cell's tile emits, positioned by the dedicated
/// collision mapping and tagged with the tile's user type.
pub open spec fn spec_cell_collideable(
    tilesets: Seq<Tileset>,
    width: int,
    height: int,
    scale: int,
    t: TileRef,
    x: int,
    y_mapped: int,
) -> TiledCollideable {
    let ts = tilesets[t.tileset_index as int];
    let def = ts.tiles@[t.tile_id as int];
    TiledCollideable {
        collision_point: Point {
            x: spec_collision_world_x(x, width, spec_scaled(ts.tile_width as int, scale)) as i64,
            y: spec_collision_world_y(
                y_mapped,
                height,
                spec_scaled(ts.tile_height as int, scale),
            ) as i64,
        },
        tile_point: Point { x: x as i64, y: y_mapped as i64 },
        name: def.user_type,
    }
}

/// One footprint per rectangle among a tile's declared collision shapes; any
/// other shape is skipped.
pub open spec fn spec_shape_collideables(
    shapes: Seq<CollisionShape>,
    c: TiledCollideable,
) -> Seq<TiledCollideable>
    decreases shapes.len(),
{
    if shapes.len() == 0 {
        Seq::empty()
    } else {
        let rest = spec_shape_collideables(shapes.drop_last(), c);
        match shapes.last() {
            CollisionShape::Rect { width: _, height: _ } => rest + seq![c],
            CollisionShape::Other => rest,
        }
    }
}

/// The footprints one cell emits: none when the cell is empty or its tile
/// declares no collision, else one per declared rectangle shape.
pub open spec fn spec_cell_collideables(
    tilesets: Seq<Tileset>,
    width: int,
    height: int,
    scale: int,
    grid: TileGrid,
    x: int,
    y: int,
) -> Seq<TiledCollideable> {
    let y_mapped = spec_invert_row(y, height);
    match grid.spec_tile_at(x, y_mapped) {
        None => Seq::empty(),
        Some(t) => {
            let ts = tilesets[t.tileset_index as int];
            let def = ts.tiles@[t.tile_id as int];
            match def.collision {
                None => Seq::empty(),
                Some(shapes) => spec_shape_collideables(
                    shapes@,
                    spec_cell_collideable(tilesets, width, height, scale, t, x, y_mapped),
                ),
            }
        },
    }
}

/// The footprints the first `k` cells (flattened, columns outer) emit.
pub open spec fn spec_collideables(
    tilesets: Seq<Tileset>,
    width: int,
    height: int,
    scale: int,
    grid: TileGrid,
    k: int,
) -> Seq<TiledCollideable>
    decreases k,
{
    if k <= 0 {
        Seq::empty()
    } else {
        let x = (k - 1) / grid.height as int;
        let y = (k - 1) % grid.height as int;
        spec_collideables(tilesets, width, height, scale, grid, k - 1) + spec_cell_collideables(
            tilesets,
            width,
            height,
            scale,
            grid,
            x,
            y,
        )
    }
}

/// Extracts the collision footprints of one tile layer: for every cell
/// (sampled at the row-inverted coordinate) whose tile declares a
/// rectangular collision shape, one footprint placed by the dedicated
/// collision mapping, carrying the tile's classification tag. Non-rectangle
/// shapes are skipped; a non-finite layer extracts nothing (`None`).
pub fn build_collideables(
    tilemap_size: &TilemapSize,
    tilesets: &Vec<Tileset>,
    scale: i64,
    tile_layer: &TileLayerData,
) -> (r: Option<Vec<TiledCollideable>>)
    requires
        0 < tilemap_size.width <= crate::coords::MAX_MAP_TILES,
        0 < tilemap_size.height <= crate::coords::MAX_MAP_TILES,
        0 < scale <= crate::coords::MAX_SCALE,
        forall|t: int| 0 <= t < tilesets@.len() ==> tileset_wf(&tilesets@[t]),
        match tile_layer {
            TileLayerData::Finite(grid) => grid.wf() && grid.width == tilemap_size.width
                && grid.height == tilemap_size.height && grid_cells_valid(*grid, tilesets@),
            TileLayerData::Infinite => true,
        },
    ensures
        match tile_layer {
            TileLayerData::Finite(grid) => r is Some && r->0@ == spec_collideables(
                tilesets@,
                tilemap_size.width as int,
                tilemap_size.height as int,
                scale as int,
                *grid,
                grid.width * grid.height,
            ),
            TileLayerData::Infinite => r is None,
        },
{
    let grid = match tile_layer {
        TileLayerData::Finite(grid) => grid,
        TileLayerData::Infinite => {
            return None;
        },
    };

    let mut collideables: Vec<TiledCollideable> = Vec::new();
    let width = grid.width;
    let height = grid.height;
    let ghost tss = tilesets@;
    let ghost w = tilemap_size.width as int;
    let ghost h = tilemap_size.height as int;

    let mut x: usize = 0;
    while x < width
        invariant
            0 <= x <= width,
            grid.wf(),
            width == grid.width,
            height == grid.height,
            width == tilemap_size.width,
            height == tilemap_size.height,
            w == tilemap_size.width as int,
            h == tilemap_size.height as int,
            tss == tilesets@,
            0 < scale <= crate::coords::MAX_SCALE,
            forall|t: int| 0 <= t < tss.len() ==> tileset_wf(&tss[t]),
            grid_cells_valid(*grid, tss),
            collideables@ == spec_collideables(tss, w, h, scale as int, *grid, x * height as int),
        decreases width - x,
    {
        let mut y: usize = 0;
        while y < height
            invariant
                0 <= x < width,
                0 <= y <= height,
                grid.wf(),
                width == grid.width,
                height == grid.height,
                width == tilemap_size.width,
                height == tilemap_size.height,
                w == tilemap_size.width as int,
                h == tilemap_size.height as int,
                tss == tilesets@,
                0 < scale <= crate::coords::MAX_SCALE,
                forall|t: int| 0 <= t < tss.len() ==> tileset_wf(&tss[t]),
                grid_cells_valid(*grid, tss),
                collideables@ == spec_collideables(
                    tss,
                    w,
                    h,
                    scale as int,
                    *grid,
                    x * height as int + y,
                ),
            decreases height - y,
        {
            proof {
                lemma_flat_index(x as int, y as int, height as int);
                lemma_grid_index_in_range(
                    x as int,
                    spec_invert_row(y as int, height as int),
                    width as int,
                    height as int,
                );
            }
            let tile_point = Point::from_tiled_tile(tilemap_size, x, y);
            let sampled = grid.get_tile(x, tile_point.y as usize);
            if let Some(layer_tile) = sampled {
                let tileset = &tilesets[layer_tile.tileset_index];
                let tile_def = &tileset.tiles[layer_tile.tile_id as usize];
                if let Some(shapes) = &tile_def.collision {
                    let tile_size = TilemapTileSize {
                        width: tileset.tile_width,
                        height: tileset.tile_height,
                    };
                    let collision_point = Point::from_tiled_collision(
                        tilemap_size,
                        &tile_size,
                        scale,
                        tile_point.x,
                        tile_point.y,
                    );
                    let ghost cell = spec_cell_collideable(
                        tss,
                        w,
                        h,
                        scale as int,
                        layer_tile,
                        x as int,
                        spec_invert_row(y as int, h),
                    );
                    let ghost before = collideables@;
                    let mut j: usize = 0;
                    proof {
                        assert(shapes@.take(0) =~= Seq::<CollisionShape>::empty());
                    }
                    while j < shapes.len()
                        invariant
                            0 <= j <= shapes@.len(),
                            cell == spec_cell_collideable(
                                tss,
                                w,
                                h,
                                scale as int,
                                layer_tile,
                                x as int,
                                spec_invert_row(y as int, h),
                            ),
                            cell.collision_point == collision_point,
                            cell.tile_point == tile_point,
                            cell.name == tile_def.user_type,
                            collideables@ == before + spec_shape_collideables(
                                shapes@.take(j as int),
                                cell,
                            ),
                        decreases shapes@.len() - j,
                    {
                        match shapes[j] {
                            CollisionShape::Rect { width: _, height: _ } => {
                                collideables.push(
                                    TiledCollideable {
                                        collision_point,
                                        tile_point,
                                        name: clone_opt_string(&tile_def.user_type),
                                    },
                                );
                            },
                            CollisionShape::Other => {},
                        }
                        proof {
                            assert(shapes@.take(j as int + 1).drop_last() =~= shapes@.take(
                                j as int,
                            ));
                            assert(shapes@.take(j as int + 1).last() == shapes@[j as int]);
                        }
                        j = j + 1;
                    }
                    proof {
                        assert(shapes@.take(shapes@.len() as int) =~= shapes@);
                    }
                }
            }
            y = y + 1;
        }
        proof {
            lemma_flat_index(x as int, 0, height as int);
        }
        x = x + 1;
    }

    proof {
        crate::coords::lemma_mul_bounds_signed(
            width as int,
            height as int,
            crate::coords::MAX_MAP_TILES as int,
            crate::coords::MAX_MAP_TILES as int,
        );
    }
    Some(collideables)
}

/// The identifying tags of a placed object: its document name and class.
#[derive(Clone, Debug)]
pub struct TiledObject {
    pub name: Option<String>,
    pub class: Option<String>,
}

/// A sprite-bearing object to spawn: world position, layer index as depth,
/// the sprite to draw, the object's tags, and the sprite's scaled size.
#[derive(Clone, Debug)]
pub struct SpriteSpawn {
    pub position: Point,
    pub depth: usize,
    pub sprite_index: u32,
    pub object: TiledObject,
    pub size: TilemapTileSize,
}

/// A rectangle-shaped gate zone: its world-space center and its tags.
#[derive(Clone, Debug)]
pub struct TiledShape {
    pub collision_point: Point,
    pub name: Option<String>,
    pub class: Option<String>,
}

/// A shape object to spawn: the zone, layer index as depth, and the zone's
/// scaled extents.
#[derive(Clone, Debug)]
pub struct ShapeSpawn {
    pub shape: TiledShape,
    pub depth: usize,
    pub size: TilemapTileSize,
}

/// The spawn a sprite-bearing object emits: placed by the object mapping
/// with its own tileset's tile size.
pub open spec fn spec_sprite_for(map: TiledMap, scale: int, l: int, o: MapObject, t: TileRef) -> SpriteSpawn {
    let ts = map.tilesets@[t.tileset_index as int];
    SpriteSpawn {
        position: Point {
            x: spec_object_world_x(
                o.x as int,
                map.width as int,
                spec_scaled(ts.tile_width as int, scale),
                scale,
            ) as i64,
            y: spec_object_world_y(
                o.y as int,
                map.height as int,
                spec_scaled(ts.tile_height as int, scale),
                scale,
            ) as i64,
        },
        depth: l as usize,
        sprite_index: t.tile_id,
        object: TiledObject { name: o.name, class: o.class },
        size: TilemapTileSize {
            width: spec_scaled(ts.tile_width as int, scale) as i64,
            height: spec_scaled(ts.tile_height as int, scale) as i64,
        },
    }
}

/// The sprite spawns the first `j` objects of layer `l` emit: one per object
/// that carries a tile reference whose tileset has a loaded texture.
pub open spec fn spec_object_sprites_objs(
    map: TiledMap,
    scale: int,
    l: int,
    objs: Seq<MapObject>,
    j: int,
) -> Seq<SpriteSpawn>
    decreases j,
{
    if j <= 0 {
        Seq::empty()
    } else {
        let prev = spec_object_sprites_objs(map, scale, l, objs, j - 1);
        let o = objs[j - 1];
        match o.tile {
            Some(t) => match map.tilemap_textures@[t.tileset_index as int] {
                Some(_) => prev + seq![spec_sprite_for(map, scale, l, o, t)],
                None => prev,
            },
            None => prev,
        }
    }
}

/// The sprite spawns the first `l` layers emit.
pub open spec fn spec_object_sprites(map: TiledMap, scale: int, l: int) -> Seq<SpriteSpawn>
    decreases l,
{
    if l <= 0 {
        Seq::empty()
    } else {
        let prev = spec_object_sprites(map, scale, l - 1);
        match map.layers@[l - 1].kind {
            LayerKind::Objects(objs) => prev + spec_object_sprites_objs(
                map,
                scale,
                l - 1,
                objs@,
                objs@.len() as int,
            ),
            _ => prev,
        }
    }
}

/// Materializes every sprite-bearing object of every object layer: each
/// object with a tile reference whose tileset's texture loaded emits one
/// sprite spawn, placed by the object mapping; everything else is ignored.
pub fn process_map_object_sprites(map: &TiledMap, scale: i64) -> (r: Vec<SpriteSpawn>)
    requires
        map.wf(),
        0 < scale <= crate::coords::MAX_SCALE,
    ensures
        r@ == spec_object_sprites(*map, scale as int, map.layers@.len() as int),
{
    let mut spawns: Vec<SpriteSpawn> = Vec::new();
    let tilemap_size = TilemapSize {
        columns: map.width,
        rows: map.height,
        width: map.width,
        height: map.height,
    };

    let mut l: usize = 0;
    while l < map.layers.len()
        invariant
            0 <= l <= map.layers@.len(),
            map.wf(),
            0 < scale <= crate::coords::MAX_SCALE,
            tilemap_size.width == map.width,
            tilemap_size.height == map.height,
            spawns@ == spec_object_sprites(*map, scale as int, l as int),
        decreases map.layers@.len() - l,
    {
        if let LayerKind::Objects(objects) = &map.layers[l].kind {
            let ghost objs = objects@;
            let mut j: usize = 0;
            while j < objects.len()
                invariant
                    0 <= j <= objs.len(),
                    objs == objects@,
                    0 <= l < map.layers@.len(),
                    map.wf(),
                    0 < scale <= crate::coords::MAX_SCALE,
                    tilemap_size.width == map.width,
                    tilemap_size.height == map.height,
                    map.layers@[l as int].kind matches LayerKind::Objects(os) && os@ == objs,
                    spawns@ == spec_object_sprites(*map, scale as int, l as int)
                        + spec_object_sprites_objs(*map, scale as int, l as int, objs, j as int),
                decreases objs.len() - j,
            {
                let object = &objects[j];
                proof {
                    assert(map.layer_wf(&map.layers@[l as int]));
                    assert(crate::model::object_wf(&objs[j as int], map.tilesets@.len() as int));
                }
                if let Some(layer_tile) = object.tile {
                    if map.tilemap_textures[layer_tile.tileset_index].is_some() {
                        proof {
                            assert(tileset_wf(&map.tilesets@[layer_tile.tileset_index as int]));
                        }
                        let tileset = &map.tilesets[layer_tile.tileset_index];
                        let tile_size = TilemapTileSize {
                            width: tileset.tile_width,
                            height: tileset.tile_height,
                        };
                        let object_point = Point::from_tiled_object(
                            &tilemap_size,
                            &tile_size,
                            scale,
                            object.x,
                            object.y,
                        );
                        spawns.push(
                            SpriteSpawn {
                                position: object_point,
                                depth: l,
                                sprite_index: layer_tile.tile_id,
                                object: TiledObject {
                                    name: clone_opt_string(&object.name),
                                    class: clone_opt_string(&object.class),
                                },
                                size: tile_size.scaled(scale),
                            },
                        );
                    }
                }
                j = j + 1;
            }
            proof {
                assert(spec_object_sprites(*map, scale as int, l as int + 1) == spawns@);
            }
        }
        l = l + 1;
    }
    spawns
}

/// The spawn a rectangle-shaped gate object emits: placed by the shape
/// mapping with the map's own tile size, its extents scaled.
pub open spec fn spec_shape_for(map: TiledMap, scale: int, l: int, o: MapObject, rect: RectShape) -> ShapeSpawn {
    ShapeSpawn {
        shape: TiledShape {
            collision_point: Point {
                x: (spec_object_world_x(
                    o.x as int,
                    map.width as int,
                    spec_scaled(map.tile_width as int, scale),
                    scale,
                ) + (3 * rect.width) / 2) as i64,
                y: (spec_object_world_y(
                    o.y as int,
                    map.height as int,
                    spec_scaled(map.tile_height as int, scale),
                    scale,
                ) - (3 * rect.height) / 2) as i64,
            },
            name: o.name,
            class: o.class,
        },
        depth: l as usize,
        size: TilemapTileSize {
            width: spec_scaled(rect.width as int, scale) as i64,
            height: spec_scaled(rect.height as int, scale) as i64,
        },
    }
}

/// Whether an object's class tag marks it as a traversal gate.
pub open spec fn spec_is_portal_class(o: MapObject) -> bool {
    match o.class {
        Some(c) => spec_object_class(c@) == ObjectClass::Portal,
        None => false,
    }
}

/// The shape spawns the first `j` objects of layer `l` emit: one per object
/// without a tile reference, carrying a rectangle shape, whose class tag is
/// a recognized gate tag.
pub open spec fn spec_object_shapes_objs(
    map: TiledMap,
    scale: int,
    l: int,
    objs: Seq<MapObject>,
    j: int,
) -> Seq<ShapeSpawn>
    decreases j,
{
    if j <= 0 {
        Seq::empty()
    } else {
        let prev = spec_object_shapes_objs(map, scale, l, objs, j - 1);
        let o = objs[j - 1];
        match o.tile {
            Some(_) => prev,
            None => match o.shape {
                Some(rect) => if spec_is_portal_class(o) {
                    prev + seq![spec_shape_for(map, scale, l, o, rect)]
                } else {
                    prev
                },
                None => prev,
            },
        }
    }
}

/// The shape spawns the first `l` layers emit.
pub open spec fn spec_object_shapes(map: TiledMap, scale: int, l: int) -> Seq<ShapeSpawn>
    decreases l,
{
    if l <= 0 {
        Seq::empty()
    } else {
        let prev = spec_object_shapes(map, scale, l - 1);
        match map.layers@[l - 1].kind {
            LayerKind::Objects(objs) => prev + spec_object_shapes_objs(
                map,
                scale,
                l - 1,
                objs@,
                objs@.len() as int,
            ),
            _ => prev,
        }
    }
}

/// Materializes every recognized gate zone of every object layer: each
/// shape-only rectangle object whose class tag marks a gate emits one shape
/// spawn, placed by the shape-object mapping; objects matching neither
/// condition are ignored.
pub fn process_map_object_shapes(map: &TiledMap, scale: i64) -> (r: Vec<ShapeSpawn>)
    requires
        map.wf(),
        0 < scale <= crate::coords::MAX_SCALE,
    ensures
        r@ == spec_object_shapes(*map, scale as int, map.layers@.len() as int),
{
    let mut spawns: Vec<ShapeSpawn> = Vec::new();
    let tilemap_size = TilemapSize {
        columns: map.width,
        rows: map.height,
        width: map.width,
        height: map.height,
    };
    let tile_size = TilemapTileSize { width: map.tile_width, height: map.tile_height };

    let mut l: usize = 0;
    while l < map.layers.len()
        invariant
            0 <= l <= map.layers@.len(),
            map.wf(),
            0 < scale <= crate::coords::MAX_SCALE,
            tilemap_size.width == map.width,
            tilemap_size.height == map.height,
            tile_size.width == map.tile_width,
            tile_size.height == map.tile_height,
            spawns@ == spec_object_shapes(*map, scale as int, l as int),
        decreases map.layers@.len() - l,
    {
        if let LayerKind::Objects(objects) = &map.layers[l].kind {
            let ghost objs = objects@;
            let mut j: usize = 0;
            while j < objects.len()
                invariant
                    0 <= j <= objs.len(),
                    objs == objects@,
                    0 <= l < map.layers@.len(),
                    map.wf(),
                    0 < scale <= crate::coords::MAX_SCALE,
                    tilemap_size.width == map.width,
                    tilemap_size.height == map.height,
                    tile_size.width == map.tile_width,
                    tile_size.height == map.tile_height,
                    map.layers@[l as int].kind matches LayerKind::Objects(os) && os@ == objs,
                    spawns@ == spec_object_shapes(*map, scale as int, l as int)
                        + spec_object_shapes_objs(*map, scale as int, l as int, objs, j as int),
                decreases objs.len() - j,
            {
                let object = &objects[j];
                proof {
                    assert(map.layer_wf(&map.layers@[l as int]));
                    assert(crate::model::object_wf(&objs[j as int], map.tilesets@.len() as int));
                }
                if object.tile.is_none() {
                    if let Some(rect) = object.shape {
                        if classify_object(&object.class) == ObjectClass::Portal {
                            let object_point = Point::from_tiled_object_shape(
                                &tilemap_size,
                                &tile_size,
                                scale,
                                object.x,
                                object.y,
                                rect.width,
                                rect.height,
                            );
                            proof {
                                crate::coords::lemma_mul_bounds_signed(
                                    rect.width as int,
                                    scale as int,
                                    crate::coords::MAX_OBJECT_COORD as int,
                                    crate::coords::MAX_SCALE as int,
                                );
                                crate::coords::lemma_mul_bounds_signed(
                                    rect.height as int,
                                    scale as int,
                                    crate::coords::MAX_OBJECT_COORD as int,
                                    crate::coords::MAX_SCALE as int,
                                );
                            }
                            let object_size = TilemapTileSize {
                                width: rect.width * scale,
                                height: rect.height * scale,
                            };
                            spawns.push(
                                ShapeSpawn {
                                    shape: TiledShape {
                                        collision_point: object_point,
                                        name: clone_opt_string(&object.name),
                                        class: clone_opt_string(&object.class),
                                    },
                                    depth: l,
                                    size: object_size,
                                },
                            );
                        }
                    }
                }
                j = j + 1;
            }
            proof {
                assert(spec_object_shapes(*map, scale as int, l as int + 1) == spawns@);
            }
        }
        l = l + 1;
    }
    spawns
}

/// One tile layer made ready for rendering, for one tileset: the atlas
/// parameters the renderer needs, the map origin that centers the grid, the
/// scaled tile size everything placed from it carries, and the placements.
#[derive(Clone, Debug)]
pub struct LayerRender {
    pub layer_index: usize,
    pub tileset_index: usize,
    pub name: String,
    pub origin: Point,
    pub tile_size: TilemapTileSize,
    pub scaled_tile_size: TilemapTileSize,
    pub spacing: i64,
    pub atlas_columns: u32,
    pub atlas_rows: u32,
    pub tiles: Vec<TilePlacement>,
}

/// The mathematical content of a `LayerRender`.
pub ghost struct LayerRenderView {
    pub layer_index: usize,
    pub tileset_index: usize,
    pub name: Seq<char>,
    pub origin: Point,
    pub tile_size: TilemapTileSize,
    pub scaled_tile_size: TilemapTileSize,
    pub spacing: i64,
    pub atlas_columns: u32,
    pub atlas_rows: u32,
    pub tiles: Seq<TilePlacement>,
}

impl View for LayerRender {
    type V = LayerRenderView;

    open spec fn view(&self) -> LayerRenderView {
        LayerRenderView {
            layer_index: self.layer_index,
            tileset_index: self.tileset_index,
            name: self.name@,
            origin: self.origin,
            tile_size: self.tile_size,
            scaled_tile_size: self.scaled_tile_size,
            spacing: self.spacing,
            atlas_columns: self.atlas_columns,
            atlas_rows: self.atlas_rows,
            tiles: self.tiles@,
        }
    }
}

/// The views of a sequence of renders.
pub open spec fn render_views(s: Seq<LayerRender>) -> Seq<LayerRenderView> {
    s.map_values(|lr: LayerRender| lr@)
}

/// The render one finite tile layer produces for one tileset.
pub open spec fn spec_layer_render(map: TiledMap, scale: int, tsi: int, l: int) -> LayerRenderView {
    let ts = map.tilesets@[tsi];
    let w = spec_scaled(ts.tile_width as int, scale);
    let h = spec_scaled(ts.tile_height as int, scale);
    LayerRenderView {
        layer_index: l as usize,
        tileset_index: tsi as usize,
        name: map.layers@[l].name@,
        origin: Point {
            x: crate::coords::spec_tile_world_x(0, map.width as int, w) as i64,
            y: crate::coords::spec_row_world_y(0, map.height as int, h) as i64,
        },
        tile_size: TilemapTileSize { width: ts.tile_width, height: ts.tile_height },
        scaled_tile_size: TilemapTileSize { width: w as i64, height: h as i64 },
        spacing: ts.spacing,
        atlas_columns: ts.columns,
        atlas_rows: ((ts.tilecount as int) / (ts.columns as int)) as u32,
        tiles: match map.layers@[l].kind {
            LayerKind::Tiles(TileLayerData::Finite(g)) => spec_tile_placements(
                g,
                tsi,
                l,
                g.width * g.height,
            ),
            _ => Seq::empty(),
        },
    }
}

/// The renders the first `l` layers produce for tileset `tsi`: one per
/// finite tile layer.
pub open spec fn spec_layer_renders_layers(map: TiledMap, scale: int, tsi: int, l: int) -> Seq<
    LayerRenderView,
>
    decreases l,
{
    if l <= 0 {
        Seq::empty()
    } else {
        let prev = spec_layer_renders_layers(map, scale, tsi, l - 1);
        match map.layers@[l - 1].kind {
            LayerKind::Tiles(TileLayerData::Finite(g)) => prev + seq![
                spec_layer_render(map, scale, tsi, l - 1),
            ],
            _ => prev,
        }
    }
}

/// The renders the first `tsi` tilesets produce: tilesets whose texture did
/// not load are skipped whole (their layers render nothing).
pub open spec fn spec_layer_renders(map: TiledMap, scale: int, tsi: int) -> Seq<LayerRenderView>
    decreases tsi,
{
    if tsi <= 0 {
        Seq::empty()
    } else {
        let prev = spec_layer_renders(map, scale, tsi - 1);
        match map.tilemap_textures@[tsi - 1] {
            Some(_) => prev + spec_layer_renders_layers(map, scale, tsi - 1, map.layers@.len() as int),
            None => prev,
        }
    }
}

/// Materializes every finite tile layer once per tileset with a loaded
/// texture: tile layers are re-walked once per tileset because one layer may
/// reference several tilesets; each walk keeps only that tileset's tiles.
pub fn process_map_layers(map: &TiledMap, scale: i64) -> (r: Vec<LayerRender>)
    requires
        map.wf(),
        0 < scale <= crate::coords::MAX_SCALE,
    ensures
        render_views(r@) == spec_layer_renders(
            *map,
            scale as int,
            map.tilesets@.len() as int,
        ),
{
    let mut renders: Vec<LayerRender> = Vec::new();

    let mut tsi: usize = 0;
    while tsi < map.tilesets.len()
        invariant
            0 <= tsi <= map.tilesets@.len(),
            map.wf(),
            0 < scale <= crate::coords::MAX_SCALE,
            render_views(renders@) == spec_layer_renders(
                *map,
                scale as int,
                tsi as int,
            ),
        decreases map.tilesets@.len() - tsi,
    {
        if map.tilemap_textures[tsi].is_some() {
            let tileset = &map.tilesets[tsi];
            proof {
                assert(tileset_wf(&map.tilesets@[tsi as int]));
            }
            let tile_size = TilemapTileSize {
                width: tileset.tile_width,
                height: tileset.tile_height,
            };
            let tilemap_size = TilemapSize {
                columns: tileset.columns as usize,
                rows: (tileset.tilecount / tileset.columns) as usize,
                width: map.width,
                height: map.height,
            };
            let mut l: usize = 0;
            while l < map.layers.len()
                invariant
                    0 <= l <= map.layers@.len(),
                    0 <= tsi < map.tilesets@.len(),
                    map.wf(),
                    0 < scale <= crate::coords::MAX_SCALE,
                    *tileset == map.tilesets@[tsi as int],
                    tile_size.width == map.tilesets@[tsi as int].tile_width,
                    tile_size.height == map.tilesets@[tsi as int].tile_height,
                    tilemap_size.width == map.width,
                    tilemap_size.height == map.height,
                    tilemap_size.columns == map.tilesets@[tsi as int].columns,
                    tilemap_size.rows == (map.tilesets@[tsi as int].tilecount as int) / (
                    map.tilesets@[tsi as int].columns as int),
                    render_views(renders@) == spec_layer_renders(
                        *map,
                        scale as int,
                        tsi as int,
                    ) + spec_layer_renders_layers(*map, scale as int, tsi as int, l as int),
                decreases map.layers@.len() - l,
            {
                proof {
                    assert(map.layer_wf(&map.layers@[l as int]));
                    assert(tileset_wf(&map.tilesets@[tsi as int]));
                }
                if let LayerKind::Tiles(tile_layer) = &map.layers[l].kind {
                    if let Some(tiles) = build_tiles(tile_layer, &tilemap_size, tsi, l) {
                        let origin = Point::get_map_origin(&tilemap_size, &tile_size, scale);
                        let render = LayerRender {
                            layer_index: l,
                            tileset_index: tsi,
                            name: map.layers[l].name.clone(),
                            origin,
                            tile_size,
                            scaled_tile_size: tile_size.scaled(scale),
                            spacing: tileset.spacing,
                            atlas_columns: tileset.columns,
                            atlas_rows: tileset.tilecount / tileset.columns,
                            tiles,
                        };
                        proof {
                            assert(render@ == spec_layer_render(
                                *map,
                                scale as int,
                                tsi as int,
                                l as int,
                            ));
                        }
                        let ghost before = renders@;
                        renders.push(render);
                        proof {
                            assert(spec_layer_renders_layers(
                                *map,
                                scale as int,
                                tsi as int,
                                l as int + 1,
                            ) == spec_layer_renders_layers(*map, scale as int, tsi as int, l as int)
                                + seq![spec_layer_render(*map, scale as int, tsi as int, l as int)]);
                            assert(render_views(renders@) =~= render_views(before) + seq![render@]);
                            assert(render_views(renders@) =~= spec_layer_renders(
                                *map,
                                scale as int,
                                tsi as int,
                            ) + spec_layer_renders_layers(
                                *map,
                                scale as int,
                                tsi as int,
                                l as int + 1,
                            ));
                        }
                    }
                }
                l = l + 1;
            }
            proof {
                assert(render_views(renders@) =~= spec_layer_renders(
                    *map,
                    scale as int,
                    tsi as int + 1,
                ));
            }
        }
        tsi = tsi + 1;
    }
    renders
}

/// The footprints the first `l` layers of the document emit.
pub open spec fn spec_map_collideables(map: TiledMap, scale: int, l: int) -> Seq<TiledCollideable>
    decreases l,
{
    if l <= 0 {
        Seq::empty()
    } else {
        let prev = spec_map_collideables(map, scale, l - 1);
        match map.layers@[l - 1].kind {
            LayerKind::Tiles(TileLayerData::Finite(g)) => prev + spec_collideables(
                map.tilesets@,
                map.width as int,
                map.height as int,
                scale,
                g,
                g.width * g.height,
            ),
            _ => prev,
        }
    }
}

/// Extracts the collision footprints of the whole document: every finite
/// tile layer walked once, each footprint placed by the dedicated collision
/// mapping and tagged with its source tile's classification.
pub fn process_map_collideables(map: &TiledMap, scale: i64) -> (r: Vec<TiledCollideable>)
    requires
        map.wf(),
        0 < scale <= crate::coords::MAX_SCALE,
    ensures
        r@ == spec_map_collideables(*map, scale as int, map.layers@.len() as int),
{
    let mut collideables: Vec<TiledCollideable> = Vec::new();
    let tilemap_size = TilemapSize {
        columns: map.width,
        rows: map.height,
        width: map.width,
        height: map.height,
    };

    let mut l: usize = 0;
    while l < map.layers.len()
        invariant
            0 <= l <= map.layers@.len(),
            map.wf(),
            0 < scale <= crate::coords::MAX_SCALE,
            tilemap_size.width == map.width,
            tilemap_size.height == map.height,
            collideables@ == spec_map_collideables(*map, scale as int, l as int),
        decreases map.layers@.len() - l,
    {
        proof {
            assert(map.layer_wf(&map.layers@[l as int]));
        }
        if let LayerKind::Tiles(tile_layer) = &map.layers[l].kind {
            if let Some(mut found) = build_collideables(&tilemap_size, &map.tilesets, scale, tile_layer) {
                collideables.append(&mut found);
            }
        }
        l = l + 1;
    }
    collideables
}

/// Everything one loaded map materializes: the tile-layer renders, the
/// collision footprints, the object sprites and the portal zones.
#[derive(Debug)]
pub struct MaterializedMap {
    pub layers: Vec<LayerRender>,
    pub collideables: Vec<TiledCollideable>,
    pub object_sprites: Vec<SpriteSpawn>,
    pub object_shapes: Vec<ShapeSpawn>,
}

/// Materializes a whole loaded map: the four walks over the published
/// document, in one call.
pub fn process_loaded_maps(map: &TiledMap, scale: i64) -> (r: MaterializedMap)
    requires
        map.wf(),
        0 < scale <= crate::coords::MAX_SCALE,
    ensures
        render_views(r.layers@) == spec_layer_renders(
            *map,
            scale as int,
            map.tilesets@.len() as int,
        ),
        r.collideables@ == spec_map_collideables(*map, scale as int, map.layers@.len() as int),
        r.object_sprites@ == spec_object_sprites(*map, scale as int, map.layers@.len() as int),
        r.object_shapes@ == spec_object_shapes(*map, scale as int, map.layers@.len() as int),
{
    MaterializedMap {
        layers: process_map_layers(map, scale),
        collideables: process_map_collideables(map, scale),
        object_sprites: process_map_object_sprites(map, scale),
        object_shapes: process_map_object_shapes(map, scale),
    }
}

} // verus!
