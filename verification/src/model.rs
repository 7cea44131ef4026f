//! The in-memory model of a parsed tile-map document: tile layers (grids of
//! tile references with flip flags), object layers (point or rectangle
//! entities with optional sprite reference, name and class tag), tilesets
//! with per-tile collision-shape metadata, and the tileset-index to
//! image-resource association the loader records.
//!
//! The document is immutable once loaded; everything that walks it
//! (materializer, collision extractor) reads it only. Decoding the raw bytes
//! happens outside the library; this model holds plain values.

use vstd::prelude::*;

use crate::coords::{MAX_MAP_TILES, MAX_OBJECT_COORD, MAX_TILE_PIXELS};

verus! {

/// A reference from a layer cell or an object to one tile of one tileset,
/// with the document's flip flags.
#[derive(Copy, Clone, Debug, PartialEq, Eq, Structural)]
pub struct TileRef {
    pub tileset_index: usize,
    pub tile_id: u32,
    pub flip_h: bool,
    pub flip_v: bool,
    pub flip_d: bool,
}

/// A collision shape declared on a tile in its tileset definition. Only
/// rectangles take part in collision extraction; anything else is skipped.
#[derive(Copy, Clone, Debug, PartialEq, Eq, Structural)]
pub enum CollisionShape {
    Rect { width: i64, height: i64 },
    Other,
}

/// One tile's definition inside a tileset: an optional classification tag
/// (the document's user type) and optional collision shapes.
#[derive(Clone, Debug)]
pub struct TileDef {
    pub user_type: Option<String>,
    pub collision: Option<Vec<CollisionShape>>,
}

/// A tileset: tile pixel size, atlas spacing and layout, and one definition
/// per tile. `image` names the source texture, if the tileset has one.
#[derive(Debug)]
pub struct Tileset {
    pub tile_width: i64,
    pub tile_height: i64,
    pub spacing: i64,
    pub columns: u32,
    pub tilecount: u32,
    pub image: Option<String>,
    pub tiles: Vec<TileDef>,
}

/// A rectangle shape carried by a shape-only object, in document pixels.
#[derive(Copy, Clone, Debug, PartialEq, Eq, Structural)]
pub struct RectShape {
    pub width: i64,
    pub height: i64,
}

/// A freely positioned entity of an object layer: either sprite-bearing
/// (`tile` present) or shape-only (`shape` present), at document-space pixel
/// coordinates, with optional name and class tag.
#[derive(Clone, Debug)]
pub struct MapObject {
    pub x: i64,
    pub y: i64,
    pub name: Option<String>,
    pub class: Option<String>,
    pub tile: Option<TileRef>,
    pub shape: Option<RectShape>,
}

/// A finite tile layer's dense grid, row-major from the document's top-left.
#[derive(Clone, Debug)]
pub struct TileGrid {
    pub width: usize,
    pub height: usize,
    pub cells: Vec<Option<TileRef>>,
}

impl TileGrid {
    /// A grid is well formed when it holds exactly one cell per coordinate.
    pub open spec fn wf(&self) -> bool {
        &&& 0 < self.width <= MAX_MAP_TILES
        &&& 0 < self.height <= MAX_MAP_TILES
        &&& self.cells@.len() == self.width * self.height
    }

    /// The cell at column `x`, row `y` (document order: row-major, top-down).
    pub open spec fn spec_tile_at(&self, x: int, y: int) -> Option<TileRef> {
        self.cells@[y * self.width + x]
    }

    /// Reads the tile reference at column `x`, row `y`.
    pub fn get_tile(&self, x: usize, y: usize) -> (r: Option<TileRef>)
        requires
            self.wf(),
            x < self.width,
            y < self.height,
        ensures
            r == self.spec_tile_at(x as int, y as int),
    {
        proof {
            lemma_grid_index_in_range(x as int, y as int, self.width as int, self.height as int);
            crate::coords::lemma_mul_bounds_signed(
                self.height as int,
                self.width as int,
                MAX_MAP_TILES as int,
                MAX_MAP_TILES as int,
            );
        }
        self.cells[y * self.width + x]
    }
}

/// A row-major grid index stays inside the grid.
pub proof fn lemma_grid_index_in_range(x: int, y: int, w: int, h: int)
    by (nonlinear_arith)
    requires
        0 <= x < w,
        0 <= y < h,
    ensures
        0 <= y * w + x < h * w,
{
}

/// A tile layer's content: only finite (pre-sized) layers carry a grid;
/// infinite (chunked) layers are represented but never materialized.
#[derive(Clone, Debug)]
pub enum TileLayerData {
    Finite(TileGrid),
    Infinite,
}

/// What one layer holds: a tile grid or a list of objects.
#[derive(Clone, Debug)]
pub enum LayerKind {
    Tiles(TileLayerData),
    Objects(Vec<MapObject>),
}

/// One layer of the document. Layer order determines draw order: a layer's
/// index becomes the depth coordinate of everything it spawns.
#[derive(Clone, Debug)]
pub struct Layer {
    pub name: String,
    pub kind: LayerKind,
}

/// The decoded tile-map document plus the loader's tileset-index to
/// image-handle association (`tilemap_textures[i]` is the handle loaded for
/// tileset `i`, or `None` when its image could not be resolved).
#[derive(Debug)]
pub struct TiledMap {
    pub width: usize,
    pub height: usize,
    pub tile_width: i64,
    pub tile_height: i64,
    pub tilesets: Vec<Tileset>,
    pub layers: Vec<Layer>,
    pub tilemap_textures: Vec<Option<u64>>,
}

/// A tileset is well formed when its dimensions are in mapper bounds, it has
/// one definition per tile, and its atlas layout is nonempty.
pub open spec fn tileset_wf(ts: &Tileset) -> bool {
    &&& 0 < ts.tile_width <= MAX_TILE_PIXELS
    &&& 0 < ts.tile_height <= MAX_TILE_PIXELS
    &&& 0 <= ts.spacing <= MAX_TILE_PIXELS
    &&& 0 < ts.columns
    &&& ts.tiles@.len() == ts.tilecount
}

/// An object is well formed when its coordinates and any shape are in mapper
/// bounds and it references a tileset that exists.
pub open spec fn object_wf(o: &MapObject, n_tilesets: int) -> bool {
    &&& -MAX_OBJECT_COORD <= o.x <= MAX_OBJECT_COORD
    &&& -MAX_OBJECT_COORD <= o.y <= MAX_OBJECT_COORD
    &&& match o.shape {
        Some(s) => 0 <= s.width <= MAX_OBJECT_COORD && 0 <= s.height <= MAX_OBJECT_COORD,
        None => true,
    }
    &&& match o.tile {
        Some(t) => t.tileset_index < n_tilesets,
        None => true,
    }
}

impl TiledMap {
    /// The whole document is well formed: map dimensions in bounds, every
    /// tileset well formed with one recorded texture slot, every finite tile
    /// grid matching the map's dimensions with every cell referencing an
    /// existing tileset, and every object in bounds.
    pub open spec fn wf(&self) -> bool {
        &&& 0 < self.width <= MAX_MAP_TILES
        &&& 0 < self.height <= MAX_MAP_TILES
        &&& 0 < self.tile_width <= MAX_TILE_PIXELS
        &&& 0 < self.tile_height <= MAX_TILE_PIXELS
        &&& self.tilemap_textures@.len() == self.tilesets@.len()
        &&& forall|t: int|
            0 <= t < self.tilesets@.len() ==> tileset_wf(&self.tilesets@[t])
        &&& forall|l: int|
            0 <= l < self.layers@.len() ==> self.layer_wf(&self.layers@[l])
    }

    /// One layer's well-formedness inside this document.
    pub open spec fn layer_wf(&self, layer: &Layer) -> bool {
        match layer.kind {
            LayerKind::Tiles(TileLayerData::Finite(grid)) => {
                &&& grid.wf()
                &&& grid.width == self.width
                &&& grid.height == self.height
                &&& forall|k: int|
                    0 <= k < grid.cells@.len() ==> match #[trigger] grid.cells@[k] {
                        Some(t) => t.tileset_index < self.tilesets@.len() && t.tile_id
                            < self.tilesets@[t.tileset_index as int].tilecount,
                        None => true,
                    }
            },
            LayerKind::Tiles(TileLayerData::Infinite) => true,
            LayerKind::Objects(objects) => forall|o: int|
                0 <= o < objects@.len() ==> object_wf(
                    &objects@[o],
                    self.tilesets@.len() as int,
                ),
        }
    }
}

/// Decides `tileset_wf`.
fn check_tileset(ts: &Tileset) -> (r: bool)
    ensures
        r == tileset_wf(ts),
{
    0 < ts.tile_width && ts.tile_width <= MAX_TILE_PIXELS && 0 < ts.tile_height
        && ts.tile_height <= MAX_TILE_PIXELS && 0 <= ts.spacing && ts.spacing <= MAX_TILE_PIXELS
        && 0 < ts.columns && ts.tiles.len() == ts.tilecount as usize
}

/// Decides `object_wf`.
fn check_object(o: &MapObject, n_tilesets: usize) -> (r: bool)
    ensures
        r == object_wf(o, n_tilesets as int),
{
    let coords_ok = -MAX_OBJECT_COORD <= o.x && o.x <= MAX_OBJECT_COORD && -MAX_OBJECT_COORD <= o.y
        && o.y <= MAX_OBJECT_COORD;
    let shape_ok = match o.shape {
        Some(s) => 0 <= s.width && s.width <= MAX_OBJECT_COORD && 0 <= s.height && s.height
            <= MAX_OBJECT_COORD,
        None => true,
    };
    let tile_ok = match o.tile {
        Some(t) => t.tileset_index < n_tilesets,
        None => true,
    };
    coords_ok && shape_ok && tile_ok
}

impl TiledMap {
    /// Decides `layer_wf` for one layer of this document.
    fn check_layer(&self, layer: &Layer) -> (r: bool)
        ensures
            r == self.layer_wf(layer),
    {
        match &layer.kind {
            LayerKind::Tiles(TileLayerData::Finite(grid)) => {
                if !(0 < grid.width && grid.width <= MAX_MAP_TILES as usize && 0 < grid.height
                    && grid.height <= MAX_MAP_TILES as usize) {
                    return false;
                }
                proof {
                    crate::coords::lemma_mul_bounds_signed(
                        grid.width as int,
                        grid.height as int,
                        MAX_MAP_TILES as int,
                        MAX_MAP_TILES as int,
                    );
                }
                if grid.cells.len() != grid.width * grid.height {
                    return false;
                }
                if grid.width != self.width || grid.height != self.height {
                    return false;
                }
                let mut k: usize = 0;
                while k < grid.cells.len()
                    invariant
                        0 <= k <= grid.cells@.len(),
                        layer.kind matches LayerKind::Tiles(TileLayerData::Finite(g)) && g
                            == *grid,
                        grid.wf(),
                        grid.width == self.width,
                        grid.height == self.height,
                        forall|j: int|
                            0 <= j < k ==> match #[trigger] grid.cells@[j] {
                                Some(t) => t.tileset_index < self.tilesets@.len() && t.tile_id
                                    < self.tilesets@[t.tileset_index as int].tilecount,
                                None => true,
                            },
                    decreases grid.cells@.len() - k,
                {
                    if let Some(t) = grid.cells[k] {
                        if t.tileset_index >= self.tilesets.len() {
                            return false;
                        }
                        if t.tile_id >= self.tilesets[t.tileset_index].tilecount {
                            return false;
                        }
                    }
                    k = k + 1;
                }
                true
            },
            LayerKind::Tiles(TileLayerData::Infinite) => true,
            LayerKind::Objects(objects) => {
                let mut j: usize = 0;
                while j < objects.len()
                    invariant
                        0 <= j <= objects@.len(),
                        layer.kind matches LayerKind::Objects(os) && os@ == objects@,
                        forall|i: int|
                            0 <= i < j ==> object_wf(&objects@[i], self.tilesets@.len() as int),
                    decreases objects@.len() - j,
                {
                    if !check_object(&objects[j], self.tilesets.len()) {
                        return false;
                    }
                    j = j + 1;
                }
                true
            },
        }
    }

    /// Decides `wf`: whether this document is safe to hand to the
    /// materializer and the collision extractor.
    pub fn check_wf(&self) -> (r: bool)
        ensures
            r == self.wf(),
    {
        if !(0 < self.width && self.width <= MAX_MAP_TILES as usize && 0 < self.height && self.height
            <= MAX_MAP_TILES as usize && 0 < self.tile_width && self.tile_width <= MAX_TILE_PIXELS && 0
            < self.tile_height && self.tile_height <= MAX_TILE_PIXELS) {
            return false;
        }
        if self.tilemap_textures.len() != self.tilesets.len() {
            return false;
        }
        let mut t: usize = 0;
        while t < self.tilesets.len()
            invariant
                0 <= t <= self.tilesets@.len(),
                forall|i: int| 0 <= i < t ==> tileset_wf(&self.tilesets@[i]),
            decreases self.tilesets@.len() - t,
        {
            if !check_tileset(&self.tilesets[t]) {
                return false;
            }
            t = t + 1;
        }
        let mut l: usize = 0;
        while l < self.layers.len()
            invariant
                0 <= l <= self.layers@.len(),
                forall|i: int| 0 <= i < l ==> self.layer_wf(&self.layers@[i]),
            decreases self.layers@.len() - l,
        {
            if !self.check_layer(&self.layers[l]) {
                return false;
            }
            l = l + 1;
        }
        true
    }
}

/// A load-time failure. A decode failure loses the whole document; a missing
/// image loses only the tileset that referenced it (its layers are skipped,
/// the rest of the map still materializes).
#[derive(Copy, Clone, Debug, PartialEq, Eq, Structural)]
pub enum MapLoadError {
    DecodeFailed,
    MissingImage { tileset_index: usize },
}

/// The tileset-index to image-handle pairs for the resolutions that
/// succeeded, in tileset order.
pub open spec fn spec_texture_assignments(resolved: Seq<Option<u64>>) -> Seq<(usize, u64)>
    decreases resolved.len(),
{
    if resolved.len() == 0 {
        Seq::empty()
    } else {
        let rest = spec_texture_assignments(resolved.drop_last());
        match resolved.last() {
            Some(h) => rest + seq![((resolved.len() - 1) as usize, h)],
            None => rest,
        }
    }
}

/// One `MissingImage` error per tileset whose image did not resolve, in
/// tileset order.
pub open spec fn spec_missing_images(resolved: Seq<Option<u64>>) -> Seq<MapLoadError>
    decreases resolved.len(),
{
    if resolved.len() == 0 {
        Seq::empty()
    } else {
        let rest = spec_missing_images(resolved.drop_last());
        match resolved.last() {
            Some(_) => rest,
            None => rest + seq![
                MapLoadError::MissingImage { tileset_index: (resolved.len() - 1) as usize },
            ],
        }
    }
}

/// The loader's texture-association step: given, per tileset, the handle its
/// image resolved to (or `None`), records the successful associations and
/// reports one `MissingImage` per failure. A missing image is not fatal —
/// the caller skips that tileset's layers and the rest of the map loads.
pub fn assign_tileset_textures(resolved: &Vec<Option<u64>>) -> (r: (
    Vec<(usize, u64)>,
    Vec<MapLoadError>,
))
    ensures
        r.0@ == spec_texture_assignments(resolved@),
        r.1@ == spec_missing_images(resolved@),
{
    let mut assignments: Vec<(usize, u64)> = Vec::new();
    let mut errors: Vec<MapLoadError> = Vec::new();
    let mut i: usize = 0;
    proof {
        assert(resolved@.take(0) =~= Seq::<Option<u64>>::empty());
    }
    while i < resolved.len()
        invariant
            0 <= i <= resolved@.len(),
            assignments@ == spec_texture_assignments(resolved@.take(i as int)),
            errors@ == spec_missing_images(resolved@.take(i as int)),
        decreases resolved@.len() - i,
    {
        match resolved[i] {
            Some(handle) => {
                assignments.push((i, handle));
            },
            None => {
                errors.push(MapLoadError::MissingImage { tileset_index: i });
            },
        }
        proof {
            assert(resolved@.take(i as int + 1).drop_last() =~= resolved@.take(i as int));
            assert(resolved@.take(i as int + 1).last() == resolved@[i as int]);
        }
        i = i + 1;
    }
    proof {
        assert(resolved@.take(resolved@.len() as int) =~= resolved@);
    }
    (assignments, errors)
}

} // verus!
