//! The coordinate mapper: pure conversions between the map document's
//! coordinate space (origin top-left, Y increasing downward, row-major tile
//! indices, tile-and-pixel units) and the rendering space (origin at the map
//! center, Y increasing upward, world units scaled by a fixed zoom factor).
//!
//! All quantities are exact integers. Where the mathematical value of a
//! half-extent would be fractional (an odd scaled length), the half rounds
//! down; every contract states the result with that division made explicit.

use vstd::prelude::*;

verus! {

/// Largest map side, in tiles, the mapper accepts.
pub const MAX_MAP_TILES: i64 = 32768;

/// Largest tile side, in document pixels, the mapper accepts.
pub const MAX_TILE_PIXELS: i64 = 65536;

/// Largest zoom factor the mapper accepts.
pub const MAX_SCALE: i64 = 256;

/// Largest magnitude of a document-space object coordinate the mapper accepts.
pub const MAX_OBJECT_COORD: i64 = 0x4000_0000;

/// Grid dimensions: the tileset's atlas grid (`columns`/`rows`) and the map's
/// size in tiles (`width`/`height`).
pub struct TilemapSize {
    pub columns: usize,
    pub rows: usize,
    pub width: usize,
    pub height: usize,
}

/// The width and height of a tile, in document pixels (or, after `scaled`,
/// in world units).
#[derive(Copy, Clone, Debug, PartialEq, Eq, Structural)]
pub struct TilemapTileSize {
    pub width: i64,
    pub height: i64,
}

/// Horizontal and vertical spacing between tiles in a tileset atlas.
pub struct TilemapSpacing {
    pub x: i64,
    pub y: i64,
}

/// A position, either in document space or in world space.
#[derive(Copy, Clone, Debug, PartialEq, Eq, Structural)]
pub struct Point {
    pub x: i64,
    pub y: i64,
}

/// A product of interval-bounded factors is interval-bounded: the one
/// nonlinear fact the mappings below need to stay inside machine integers.
pub proof fn lemma_mul_bounds_signed(a: int, b: int, am: int, bm: int)
    by (nonlinear_arith)
    requires
        -am <= a <= am,
        0 <= b <= bm,
    ensures
        -(am * bm) <= a * b <= am * bm,
{
}

/// The bounds under which every mapping below is free of overflow.
pub open spec fn mapping_dims_ok(size: &TilemapSize, tile: &TilemapTileSize, scale: int) -> bool {
    &&& 0 < size.width <= MAX_MAP_TILES
    &&& 0 < size.height <= MAX_MAP_TILES
    &&& 0 < tile.width <= MAX_TILE_PIXELS
    &&& 0 < tile.height <= MAX_TILE_PIXELS
    &&& 0 < scale <= MAX_SCALE
}

/// A tile side length in world units: document pixels times the zoom factor.
pub open spec fn spec_scaled(len: int, scale: int) -> int {
    len * scale
}

/// Horizontal world coordinate of the center of tile column `x`: scale the
/// column, center the whole grid on the origin by subtracting half the total
/// scaled map extent, and add half a scaled tile to land on the tile center.
pub open spec fn spec_tile_world_x(x: int, map_w: int, w: int) -> int {
    x * w - (map_w * w) / 2 + w / 2
}

/// Vertical world coordinate of the center of the already row-inverted tile
/// row `m` (bottom-up): same shape as the horizontal mapping.
pub open spec fn spec_row_world_y(m: int, map_h: int, h: int) -> int {
    m * h - (map_h * h) / 2 + h / 2
}

/// The document's row `y` (top-down) inverted into the renderer's bottom-up
/// row index.
pub open spec fn spec_invert_row(y: int, map_h: int) -> int {
    map_h - 1 - y
}

/// Vertical world coordinate of the center of document row `y`: invert the
/// row, then map as `spec_row_world_y`.
pub open spec fn spec_tile_world_y(y: int, map_h: int, h: int) -> int {
    spec_row_world_y(spec_invert_row(y, map_h), map_h, h)
}

/// Horizontal world coordinate of a document-space object at pixel `x`:
/// scale, then center the grid on the origin.
pub open spec fn spec_object_world_x(x: int, map_w: int, w: int, scale: int) -> int {
    x * scale - (map_w * w) / 2
}

/// Vertical world coordinate of a document-space object at pixel `y`: the
/// document's Y grows downward and the world's Y grows upward, so the scaled
/// coordinate is negated directly (no row inversion: object coordinates are
/// pixel-precise, not row indices).
pub open spec fn spec_object_world_y(y: int, map_h: int, h: int, scale: int) -> int {
    -(y * scale - (map_h * h) / 2)
}

/// Horizontal world coordinate of the collision footprint emitted for the
/// tile in grid column `x`: the tile's own center offset rightward by a full
/// scaled tile.
pub open spec fn spec_collision_world_x(x: int, map_w: int, w: int) -> int {
    spec_tile_world_x(x, map_w, w) + w
}

/// Vertical world coordinate of the collision footprint emitted for the tile
/// in the already row-inverted row `m`: the tile's own center offset downward
/// by a full scaled tile.
pub open spec fn spec_collision_world_y(m: int, map_h: int, h: int) -> int {
    spec_row_world_y(m, map_h, h) - h
}

impl TilemapTileSize {
    /// This tile size in world units.
    pub fn scaled(&self, scale: i64) -> (r: Self)
        requires
            0 <= self.width <= MAX_TILE_PIXELS,
            0 <= self.height <= MAX_TILE_PIXELS,
            0 <= scale <= MAX_SCALE,
        ensures
            r.width == spec_scaled(self.width as int, scale as int),
            r.height == spec_scaled(self.height as int, scale as int),
    {
        proof {
            lemma_mul_bounds_signed(
                self.width as int,
                scale as int,
                MAX_TILE_PIXELS as int,
                MAX_SCALE as int,
            );
            lemma_mul_bounds_signed(
                self.height as int,
                scale as int,
                MAX_TILE_PIXELS as int,
                MAX_SCALE as int,
            );
        }
        Self { width: self.width * scale, height: self.height * scale }
    }
}

/// Bounds on every product the mappings form under `mapping_dims_ok`.
pub proof fn lemma_mapping_products(size: &TilemapSize, tile: &TilemapTileSize, scale: int)
    requires
        mapping_dims_ok(size, tile, scale),
    ensures
        0 <= tile.width * scale <= MAX_TILE_PIXELS * MAX_SCALE,
        0 <= tile.height * scale <= MAX_TILE_PIXELS * MAX_SCALE,
        0 <= size.width * (tile.width * scale) <= MAX_MAP_TILES * (MAX_TILE_PIXELS * MAX_SCALE),
        0 <= size.height * (tile.height * scale) <= MAX_MAP_TILES * (MAX_TILE_PIXELS * MAX_SCALE),
{
    lemma_mul_bounds_signed(tile.width as int, scale, MAX_TILE_PIXELS as int, MAX_SCALE as int);
    lemma_mul_bounds_signed(tile.height as int, scale, MAX_TILE_PIXELS as int, MAX_SCALE as int);
    lemma_mul_bounds_signed(
        size.width as int,
        tile.width * scale,
        MAX_MAP_TILES as int,
        MAX_TILE_PIXELS * MAX_SCALE,
    );
    lemma_mul_bounds_signed(
        size.height as int,
        tile.height * scale,
        MAX_MAP_TILES as int,
        MAX_TILE_PIXELS * MAX_SCALE,
    );
}

/// Half of a nonnegative length, rounding down.
fn half(len: i64) -> (r: i64)
    requires
        0 <= len,
    ensures
        r == len as int / 2,
{
    len / 2
}

impl Point {
    /// World-space center of the collision footprint emitted for the tile at
    /// grid column `x` and already row-inverted row `y`: the tile's own world
    /// position offset by a full scaled tile in both axes (rightward and
    /// downward), because the footprint overlay is anchored differently than
    /// the tile it overlays.
    pub fn from_tiled_collision(
        tilemap_size: &TilemapSize,
        tile_size: &TilemapTileSize,
        scale: i64,
        x: i64,
        y: i64,
    ) -> (r: Self)
        requires
            mapping_dims_ok(tilemap_size, tile_size, scale as int),
            0 <= x < tilemap_size.width,
            0 <= y < tilemap_size.height,
        ensures
            r.x == spec_collision_world_x(
                x as int,
                tilemap_size.width as int,
                spec_scaled(tile_size.width as int, scale as int),
            ),
            r.y == spec_collision_world_y(
                y as int,
                tilemap_size.height as int,
                spec_scaled(tile_size.height as int, scale as int),
            ),
    {
        proof {
            lemma_mapping_products(tilemap_size, tile_size, scale as int);
            lemma_mul_bounds_signed(
                x as int,
                tile_size.width * scale,
                MAX_MAP_TILES as int,
                MAX_TILE_PIXELS * MAX_SCALE,
            );
            lemma_mul_bounds_signed(
                y as int,
                tile_size.height * scale,
                MAX_MAP_TILES as int,
                MAX_TILE_PIXELS * MAX_SCALE,
            );
        }
        let w = tile_size.width * scale;
        let h = tile_size.height * scale;
        let x = x * w - half((tilemap_size.width as i64) * w) + half(w) + w;
        let y = y * h - half((tilemap_size.height as i64) * h) + half(h) - h;
        Self { x, y }
    }

    /// World-space point at which the whole tile grid's first cell (column 0,
    /// bottom row) is centered: the map's origin for centering it on the
    /// screen.
    pub fn get_map_origin(
        tilemap_size: &TilemapSize,
        tile_size: &TilemapTileSize,
        scale: i64,
    ) -> (r: Self)
        requires
            mapping_dims_ok(tilemap_size, tile_size, scale as int),
        ensures
            r.x == spec_tile_world_x(
                0,
                tilemap_size.width as int,
                spec_scaled(tile_size.width as int, scale as int),
            ),
            r.y == spec_row_world_y(
                0,
                tilemap_size.height as int,
                spec_scaled(tile_size.height as int, scale as int),
            ),
    {
        proof {
            lemma_mapping_products(tilemap_size, tile_size, scale as int);
        }
        let w = tile_size.width * scale;
        let h = tile_size.height * scale;
        let x = half(w) - half((tilemap_size.width as i64) * w);
        let y = half(h) - half((tilemap_size.height as i64) * h);
        Self { x, y }
    }

    /// The document's top-left, row-major tile coordinates inverted into the
    /// renderer's bottom-up grid coordinates. The column is unchanged; the row
    /// is inverted.
    pub fn from_tiled_tile(tilemap_size: &TilemapSize, x: usize, y: usize) -> (r: Self)
        requires
            tilemap_size.width <= MAX_MAP_TILES,
            tilemap_size.height <= MAX_MAP_TILES,
            x < tilemap_size.width,
            y < tilemap_size.height,
        ensures
            r.x == x as int,
            r.y == spec_invert_row(y as int, tilemap_size.height as int),
    {
        Self { x: x as i64, y: (tilemap_size.height - 1 - y) as i64 }
    }

    /// World-space position of a document-space object at pixel coordinates
    /// `(x, y)`: scaled, centered horizontally, and with the vertical axis
    /// negated (document Y grows downward, world Y grows upward).
    pub fn from_tiled_object(
        tilemap_size: &TilemapSize,
        tile_size: &TilemapTileSize,
        scale: i64,
        x: i64,
        y: i64,
    ) -> (r: Self)
        requires
            mapping_dims_ok(tilemap_size, tile_size, scale as int),
            -MAX_OBJECT_COORD <= x <= MAX_OBJECT_COORD,
            -MAX_OBJECT_COORD <= y <= MAX_OBJECT_COORD,
        ensures
            r.x == spec_object_world_x(
                x as int,
                tilemap_size.width as int,
                spec_scaled(tile_size.width as int, scale as int),
                scale as int,
            ),
            r.y == spec_object_world_y(
                y as int,
                tilemap_size.height as int,
                spec_scaled(tile_size.height as int, scale as int),
                scale as int,
            ),
    {
        proof {
            lemma_mapping_products(tilemap_size, tile_size, scale as int);
            lemma_mul_bounds_signed(x as int, scale as int, MAX_OBJECT_COORD as int, MAX_SCALE as int);
            lemma_mul_bounds_signed(y as int, scale as int, MAX_OBJECT_COORD as int, MAX_SCALE as int);
        }
        let w = tile_size.width * scale;
        let h = tile_size.height * scale;
        let x = x * scale - half((tilemap_size.width as i64) * w);
        let y = -(y * scale - half((tilemap_size.height as i64) * h));
        Self { x, y }
    }

    /// World-space position of a rectangle-shaped document object: as
    /// `from_tiled_object`, shifted by 1.5 times the shape's width and height
    /// (toward the grid's interior). The factor is 1.5, not 0.5: it corrects
    /// at once for the anchor difference (shape objects anchor on their
    /// center, point objects on their top-left) and for the splitting of the
    /// zoom factor between map centering and shape centering.
    pub fn from_tiled_object_shape(
        tilemap_size: &TilemapSize,
        tile_size: &TilemapTileSize,
        scale: i64,
        x: i64,
        y: i64,
        width: i64,
        height: i64,
    ) -> (r: Self)
        requires
            mapping_dims_ok(tilemap_size, tile_size, scale as int),
            -MAX_OBJECT_COORD <= x <= MAX_OBJECT_COORD,
            -MAX_OBJECT_COORD <= y <= MAX_OBJECT_COORD,
            0 <= width <= MAX_OBJECT_COORD,
            0 <= height <= MAX_OBJECT_COORD,
        ensures
            r.x == spec_object_world_x(
                x as int,
                tilemap_size.width as int,
                spec_scaled(tile_size.width as int, scale as int),
                scale as int,
            ) + (3 * width) / 2,
            r.y == spec_object_world_y(
                y as int,
                tilemap_size.height as int,
                spec_scaled(tile_size.height as int, scale as int),
                scale as int,
            ) - (3 * height) / 2,
    {
        proof {
            lemma_mapping_products(tilemap_size, tile_size, scale as int);
            lemma_mul_bounds_signed(x as int, scale as int, MAX_OBJECT_COORD as int, MAX_SCALE as int);
            lemma_mul_bounds_signed(y as int, scale as int, MAX_OBJECT_COORD as int, MAX_SCALE as int);
        }
        let base = Self::from_tiled_object(tilemap_size, tile_size, scale, x, y);
        Self { x: base.x + half(3 * width), y: base.y - half(3 * height) }
    }
}

/// World-space center of the tile at document coordinates `(x, y)`: the
/// column mapped as `spec_tile_world_x`, the row inverted and mapped as
/// `spec_row_world_y`.
pub fn tile_to_world(
    tilemap_size: &TilemapSize,
    tile_size: &TilemapTileSize,
    scale: i64,
    x: usize,
    y: usize,
) -> (r: Point)
    requires
        mapping_dims_ok(tilemap_size, tile_size, scale as int),
        x < tilemap_size.width,
        y < tilemap_size.height,
    ensures
        r.x == spec_tile_world_x(
            x as int,
            tilemap_size.width as int,
            spec_scaled(tile_size.width as int, scale as int),
        ),
        r.y == spec_tile_world_y(
            y as int,
            tilemap_size.height as int,
            spec_scaled(tile_size.height as int, scale as int),
        ),
{
    let grid = Point::from_tiled_tile(tilemap_size, x, y);
    proof {
        lemma_mapping_products(tilemap_size, tile_size, scale as int);
        lemma_mul_bounds_signed(
            grid.x as int,
            tile_size.width * scale,
            MAX_MAP_TILES as int,
            MAX_TILE_PIXELS * MAX_SCALE,
        );
        lemma_mul_bounds_signed(
            grid.y as int,
            tile_size.height * scale,
            MAX_MAP_TILES as int,
            MAX_TILE_PIXELS * MAX_SCALE,
        );
    }
    let w = tile_size.width * scale;
    let h = tile_size.height * scale;
    let wx = grid.x * w - half((tilemap_size.width as i64) * w) + half(w);
    let wy = grid.y * h - half((tilemap_size.height as i64) * h) + half(h);
    Point { x: wx, y: wy }
}

/// Row inversion is an involution: inverting a document row twice gives the
/// row back, so the tile-center mapping agrees with itself across the double
/// inversion (the column plays no part in the inversion and is unchanged).
pub proof fn lemma_row_inversion_involutive(y: int, map_h: int, h: int)
    requires
        0 <= y < map_h,
    ensures
        spec_invert_row(spec_invert_row(y, map_h), map_h) == y,
        spec_tile_world_y(y, map_h, h) == spec_tile_world_y(
            spec_invert_row(spec_invert_row(y, map_h), map_h),
            map_h,
            h,
        ),
{
}

/// Placing a tile through the map origin plus its grid offset lands exactly
/// on the tile-center mapping: the tile grid and everything derived from the
/// same width, height and scale parameters agree on where a cell sits.
pub proof fn lemma_origin_grid_consistent(x: int, m: int, map_w: int, map_h: int, w: int, h: int)
    ensures
        spec_tile_world_x(0, map_w, w) + x * w == spec_tile_world_x(x, map_w, w),
        spec_row_world_y(0, map_h, h) + m * h == spec_row_world_y(m, map_h, h),
{
}

/// The collision footprint for a cell sits exactly one full scaled tile away
/// from the sprite placed for the same cell, in both axes — never half a tile
/// (the tile-center offset).
pub proof fn lemma_collision_offset_full_tile(x: int, y: int, map_w: int, map_h: int, w: int, h: int)
    requires
        0 <= y < map_h,
        0 < w,
        0 < h,
    ensures
        spec_collision_world_x(x, map_w, w) - spec_tile_world_x(x, map_w, w) == w,
        spec_tile_world_y(y, map_h, h) - spec_collision_world_y(
            spec_invert_row(y, map_h),
            map_h,
            h,
        ) == h,
        w != w / 2,
        h != h / 2,
{
}

} // verus!
