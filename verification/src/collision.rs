//! Axis-aligned collision testing and the per-frame movement resolver.
//!
//! Rectangles are given by their center and full extents. All tests work on
//! doubled coordinates (twice the edge positions), so half-extents never
//! round: a box exactly touching another (zero gap) does not overlap, and
//! every comparison below is exact.
//!
//! On overlap, the resolver inspects which edge was struck relative to the
//! travel direction with a four-way tie-break table, and corrects the moving
//! entity back to the obstacle's boundary — never merely stopping in place,
//! since one frame's movement can carry the entity well inside the obstacle.

use vstd::prelude::*;

use crate::coords::{Point, TilemapTileSize};
use crate::movement::{Direction, Moveable, MAX_SPEED, MAX_WORLD_COORD};

verus! {

/// Largest rectangle extent (width or height) the collision tests accept.
pub const MAX_RECT_EXTENT: i64 = 0x1_0000_0000;

/// Which side of the stationary box the moving box struck (or `Inside` when
/// the boxes overlap without the moving box sticking out on either axis).
#[derive(Copy, Clone, Debug, PartialEq, Eq, Structural)]
pub enum Collision {
    Left,
    Right,
    Top,
    Bottom,
    Inside,
}

/// Twice a box's left edge.
pub open spec fn dmin_x(p: Point, s: TilemapTileSize) -> int {
    2 * p.x - s.width
}

/// Twice a box's right edge.
pub open spec fn dmax_x(p: Point, s: TilemapTileSize) -> int {
    2 * p.x + s.width
}

/// Twice a box's bottom edge.
pub open spec fn dmin_y(p: Point, s: TilemapTileSize) -> int {
    2 * p.y - s.height
}

/// Twice a box's top edge.
pub open spec fn dmax_y(p: Point, s: TilemapTileSize) -> int {
    2 * p.y + s.height
}

/// Two boxes overlap when each one's left edge lies strictly left of the
/// other's right edge, and likewise vertically. Exact touching is not an
/// overlap.
pub open spec fn spec_overlaps(a: Point, asz: TilemapTileSize, b: Point, bsz: TilemapTileSize) -> bool {
    &&& dmin_x(a, asz) < dmax_x(b, bsz)
    &&& dmin_x(b, bsz) < dmax_x(a, asz)
    &&& dmin_y(a, asz) < dmax_y(b, bsz)
    &&& dmin_y(b, bsz) < dmax_y(a, asz)
}

/// Which side of `b` the overlapping box `a` struck: on each axis, `a` sticks
/// out on a side when both of its edges lie beyond `b`'s corresponding edges;
/// among the axes where it sticks out, the one with the smaller penetration
/// depth wins, the horizontal axis breaking ties. If `a` sticks out on
/// neither axis it is `Inside`.
pub open spec fn spec_side(a: Point, asz: TilemapTileSize, b: Point, bsz: TilemapTileSize) -> Collision {
    let x_left = dmin_x(a, asz) < dmin_x(b, bsz) && dmax_x(a, asz) < dmax_x(b, bsz);
    let x_right = dmin_x(a, asz) > dmin_x(b, bsz) && dmax_x(a, asz) > dmax_x(b, bsz);
    let y_bottom = dmin_y(a, asz) < dmin_y(b, bsz) && dmax_y(a, asz) < dmax_y(b, bsz);
    let y_top = dmin_y(a, asz) > dmin_y(b, bsz) && dmax_y(a, asz) > dmax_y(b, bsz);
    let pen_x = if x_left {
        dmax_x(a, asz) - dmin_x(b, bsz)
    } else {
        dmax_x(b, bsz) - dmin_x(a, asz)
    };
    let pen_y = if y_bottom {
        dmax_y(a, asz) - dmin_y(b, bsz)
    } else {
        dmax_y(b, bsz) - dmin_y(a, asz)
    };
    if x_left || x_right {
        if (y_bottom || y_top) && pen_y < pen_x {
            if y_bottom {
                Collision::Bottom
            } else {
                Collision::Top
            }
        } else {
            if x_left {
                Collision::Left
            } else {
                Collision::Right
            }
        }
    } else {
        if y_bottom || y_top {
            if y_bottom {
                Collision::Bottom
            } else {
                Collision::Top
            }
        } else {
            Collision::Inside
        }
    }
}

/// The collision test: `None` when the boxes do not overlap (touching
/// included), otherwise the struck side of `b`.
pub open spec fn spec_collide(a: Point, asz: TilemapTileSize, b: Point, bsz: TilemapTileSize) -> Option<Collision> {
    if spec_overlaps(a, asz, b, bsz) {
        Some(spec_side(a, asz, b, bsz))
    } else {
        None
    }
}

/// A center position the collision tests accept: bounded so doubled edges
/// stay inside machine integers (corrected positions may exceed the plain
/// world bound by up to one extent).
pub open spec fn pos_ok(p: Point) -> bool {
    &&& -2 * MAX_WORLD_COORD <= p.x <= 2 * MAX_WORLD_COORD
    &&& -2 * MAX_WORLD_COORD <= p.y <= 2 * MAX_WORLD_COORD
}

/// Extents the collision tests accept.
pub open spec fn size_ok(s: TilemapTileSize) -> bool {
    &&& 0 <= s.width <= MAX_RECT_EXTENT
    &&& 0 <= s.height <= MAX_RECT_EXTENT
}

/// Axis-aligned bounding-box collision between box `a` (center `a_pos`, full
/// extents `a_size`) and box `b`: `None` when they do not overlap, otherwise
/// the side of `b` that `a` struck.
pub fn collide(
    a_pos: &Point,
    a_size: &TilemapTileSize,
    b_pos: &Point,
    b_size: &TilemapTileSize,
) -> (r: Option<Collision>)
    requires
        pos_ok(*a_pos),
        pos_ok(*b_pos),
        size_ok(*a_size),
        size_ok(*b_size),
    ensures
        r == spec_collide(*a_pos, *a_size, *b_pos, *b_size),
{
    let a_min_x = 2 * a_pos.x - a_size.width;
    let a_max_x = 2 * a_pos.x + a_size.width;
    let a_min_y = 2 * a_pos.y - a_size.height;
    let a_max_y = 2 * a_pos.y + a_size.height;
    let b_min_x = 2 * b_pos.x - b_size.width;
    let b_max_x = 2 * b_pos.x + b_size.width;
    let b_min_y = 2 * b_pos.y - b_size.height;
    let b_max_y = 2 * b_pos.y + b_size.height;

    if !(a_min_x < b_max_x && b_min_x < a_max_x && a_min_y < b_max_y && b_min_y < a_max_y) {
        return None;
    }

    let x_left = a_min_x < b_min_x && a_max_x < b_max_x;
    let x_right = a_min_x > b_min_x && a_max_x > b_max_x;
    let y_bottom = a_min_y < b_min_y && a_max_y < b_max_y;
    let y_top = a_min_y > b_min_y && a_max_y > b_max_y;
    let pen_x = if x_left {
        a_max_x - b_min_x
    } else {
        b_max_x - a_min_x
    };
    let pen_y = if y_bottom {
        a_max_y - b_min_y
    } else {
        b_max_y - a_min_y
    };

    if x_left || x_right {
        if (y_bottom || y_top) && pen_y < pen_x {
            if y_bottom {
                Some(Collision::Bottom)
            } else {
                Some(Collision::Top)
            }
        } else {
            if x_left {
                Some(Collision::Left)
            } else {
                Some(Collision::Right)
            }
        }
    } else {
        if y_bottom || y_top {
            if y_bottom {
                Some(Collision::Bottom)
            } else {
                Some(Collision::Top)
            }
        } else {
            Some(Collision::Inside)
        }
    }
}

/// Half of a nonnegative length, rounding up: the correction distance that
/// guarantees the corrected box no longer overlaps.
pub open spec fn spec_half_up(s: int) -> int {
    (s + 1) / 2
}

/// What one footprint does to the moving entity: on overlap, the four-way
/// tie-break table — travel direction against struck edge — zeroes the speed
/// and snaps the entity back to the footprint's boundary on the travel axis;
/// every other combination (sliding past a corner, or a box entirely inside)
/// leaves the entity alone.
pub open spec fn spec_resolve_one(
    pos: Point,
    mv: Moveable,
    psize: TilemapTileSize,
    fp: Point,
    fsize: TilemapTileSize,
) -> (Point, Moveable) {
    match spec_collide(pos, psize, fp, fsize) {
        Some(side) => {
            let stop = Moveable { speed: 0, direction: mv.direction };
            let wsum = spec_half_up(fsize.width + psize.width);
            let hsum = spec_half_up(fsize.height + psize.height);
            match (mv.direction, side) {
                (Direction::Left, Collision::Right) => (
                    Point { x: (fp.x + wsum) as i64, y: pos.y },
                    stop,
                ),
                (Direction::Right, Collision::Left) => (
                    Point { x: (fp.x - wsum) as i64, y: pos.y },
                    stop,
                ),
                (Direction::Up, Collision::Bottom) => (
                    Point { x: pos.x, y: (fp.y - hsum) as i64 },
                    stop,
                ),
                (Direction::Down, Collision::Top) => (
                    Point { x: pos.x, y: (fp.y + hsum) as i64 },
                    stop,
                ),
                _ => (pos, mv),
            }
        },
        None => (pos, mv),
    }
}

/// What a whole frame's collision pass does: each footprint applied in turn,
/// in order, to the state the previous one left.
pub open spec fn spec_resolve_all(
    pos: Point,
    mv: Moveable,
    psize: TilemapTileSize,
    fps: Seq<(Point, TilemapTileSize)>,
) -> (Point, Moveable)
    decreases fps.len(),
{
    if fps.len() == 0 {
        (pos, mv)
    } else {
        let step = spec_resolve_one(pos, mv, psize, fps[0].0, fps[0].1);
        spec_resolve_all(step.0, step.1, psize, fps.skip(1))
    }
}

/// A footprint the resolver accepts: position and extents in bounds.
pub open spec fn footprint_ok(fp: (Point, TilemapTileSize)) -> bool {
    &&& -MAX_WORLD_COORD <= fp.0.x <= MAX_WORLD_COORD
    &&& -MAX_WORLD_COORD <= fp.0.y <= MAX_WORLD_COORD
    &&& size_ok(fp.1)
}

/// Half of a nonnegative length, rounding up.
fn half_up(s: i64) -> (r: i64)
    requires
        0 <= s < i64::MAX,
    ensures
        r == spec_half_up(s as int),
{
    (s + 1) / 2
}

/// The per-frame collision pass: tests the player's bounding box against
/// every collision footprint in turn and applies the directional tie-break
/// correction for each overlap.
pub fn check_collideable(
    player_transform: &mut Point,
    player_moveable: &mut Moveable,
    player_size: &TilemapTileSize,
    collideables: &Vec<(Point, TilemapTileSize)>,
)
    requires
        pos_ok(*old(player_transform)),
        0 <= old(player_moveable).speed <= MAX_SPEED,
        size_ok(*player_size),
        forall|i: int|
            0 <= i < collideables@.len() ==> footprint_ok(#[trigger] collideables@[i]),
    ensures
        *final(player_transform) == spec_resolve_all(
            *old(player_transform),
            *old(player_moveable),
            *player_size,
            collideables@,
        ).0,
        *final(player_moveable) == spec_resolve_all(
            *old(player_transform),
            *old(player_moveable),
            *player_size,
            collideables@,
        ).1,
{
    let mut pos: Point = *player_transform;
    let mut mv: Moveable = *player_moveable;
    let ghost fps = collideables@;
    let ghost pos0 = pos;
    let ghost mv0 = mv;

    proof {
        assert(fps.skip(0) =~= fps);
    }
    let mut i: usize = 0;
    while i < collideables.len()
        invariant
            0 <= i <= fps.len(),
            collideables@ == fps,
            size_ok(*player_size),
            forall|j: int| 0 <= j < fps.len() ==> footprint_ok(#[trigger] fps[j]),
            pos_ok(pos),
            0 <= mv.speed <= MAX_SPEED,
            spec_resolve_all(pos, mv, *player_size, fps.skip(i as int)) == spec_resolve_all(
                pos0,
                mv0,
                *player_size,
                fps,
            ),
        decreases fps.len() - i,
    {
        let (fp_pos, fp_size) = collideables[i];
        let ghost prev_pos = pos;
        let ghost prev_mv = mv;
        if let Some(collision) = collide(&pos, player_size, &fp_pos, &fp_size) {
            match (mv.direction, collision) {
                (Direction::Left, Collision::Right) => {
                    pos.x = fp_pos.x + half_up(fp_size.width + player_size.width);
                    mv.speed = 0;
                },
                (Direction::Right, Collision::Left) => {
                    pos.x = fp_pos.x - half_up(fp_size.width + player_size.width);
                    mv.speed = 0;
                },
                (Direction::Up, Collision::Bottom) => {
                    pos.y = fp_pos.y - half_up(fp_size.height + player_size.height);
                    mv.speed = 0;
                },
                (Direction::Down, Collision::Top) => {
                    pos.y = fp_pos.y + half_up(fp_size.height + player_size.height);
                    mv.speed = 0;
                },
                _ => {},
            }
        }
        proof {
            assert((pos, mv) == spec_resolve_one(prev_pos, prev_mv, *player_size, fps[i as int].0, fps[i as int].1));
            assert(fps.skip(i as int)[0] == fps[i as int]);
            assert(fps.skip(i as int).skip(1) =~= fps.skip(i as int + 1));
        }
        i = i + 1;
    }

    *player_transform = pos;
    *player_moveable = mv;
}

/// A box exactly touching a footprint (zero gap on either axis, or further
/// away) does not overlap it, and the resolver leaves the entity untouched.
pub proof fn lemma_touching_not_corrected(
    pos: Point,
    mv: Moveable,
    psize: TilemapTileSize,
    fp: Point,
    fsize: TilemapTileSize,
)
    requires
        2 * (pos.x - fp.x) >= psize.width + fsize.width || 2 * (fp.x - pos.x) >= psize.width
            + fsize.width || 2 * (pos.y - fp.y) >= psize.height + fsize.height || 2 * (fp.y - pos.y)
            >= psize.height + fsize.height,
    ensures
        !spec_overlaps(pos, psize, fp, fsize),
        spec_collide(pos, psize, fp, fsize) is None,
        spec_resolve_one(pos, mv, psize, fp, fsize) == (pos, mv),
{
}

/// Any correction the resolver applies leaves zero residual overlap with the
/// footprint that caused it: the corrected box at most touches it.
pub proof fn lemma_correction_leaves_no_overlap(
    pos: Point,
    mv: Moveable,
    psize: TilemapTileSize,
    fp: Point,
    fsize: TilemapTileSize,
)
    requires
        size_ok(psize),
        size_ok(fsize),
        pos_ok(pos),
        -MAX_WORLD_COORD <= fp.x <= MAX_WORLD_COORD,
        -MAX_WORLD_COORD <= fp.y <= MAX_WORLD_COORD,
    ensures
        spec_resolve_one(pos, mv, psize, fp, fsize).0 != pos ==> !spec_overlaps(
            spec_resolve_one(pos, mv, psize, fp, fsize).0,
            psize,
            fp,
            fsize,
        ),
{
    let r = spec_resolve_one(pos, mv, psize, fp, fsize);
    if r.0 != pos {
        let ws = psize.width + fsize.width;
        let hs = fsize.height + psize.height;
        assert(2 * spec_half_up(ws) >= ws);
        assert(2 * spec_half_up(hs) >= hs);
    }
}

/// The collision pass keeps the player's state inside machine bounds: the
/// corrected position stays near the footprints, the speed only ever drops
/// to zero, and the direction is never touched.
pub proof fn lemma_resolve_all_bounds(
    pos: Point,
    mv: Moveable,
    psize: TilemapTileSize,
    fps: Seq<(Point, TilemapTileSize)>,
)
    requires
        pos_ok(pos),
        0 <= mv.speed <= MAX_SPEED,
        size_ok(psize),
        forall|i: int| 0 <= i < fps.len() ==> footprint_ok(#[trigger] fps[i]),
    ensures
        pos_ok(spec_resolve_all(pos, mv, psize, fps).0),
        0 <= spec_resolve_all(pos, mv, psize, fps).1.speed <= MAX_SPEED,
        spec_resolve_all(pos, mv, psize, fps).1.direction == mv.direction,
    decreases fps.len(),
{
    if fps.len() > 0 {
        let step = spec_resolve_one(pos, mv, psize, fps[0].0, fps[0].1);
        assert(forall|i: int| 0 <= i < fps.skip(1).len() ==> fps.skip(1)[i] == fps[i + 1]);
        lemma_resolve_all_bounds(step.0, step.1, psize, fps.skip(1));
    }
}

/// A frame in which the player overlaps no footprint corrects nothing: the
/// whole collision pass leaves position and movement state unchanged.
pub proof fn lemma_no_overlap_no_correction(
    pos: Point,
    mv: Moveable,
    psize: TilemapTileSize,
    fps: Seq<(Point, TilemapTileSize)>,
)
    requires
        forall|i: int|
            0 <= i < fps.len() ==> !spec_overlaps(pos, psize, (#[trigger] fps[i]).0, fps[i].1),
    ensures
        spec_resolve_all(pos, mv, psize, fps) == (pos, mv),
    decreases fps.len(),
{
    if fps.len() > 0 {
        assert(spec_resolve_one(pos, mv, psize, fps[0].0, fps[0].1) == (pos, mv));
        assert(forall|i: int|
            0 <= i < fps.skip(1).len() ==> fps.skip(1)[i] == fps[i + 1]);
        lemma_no_overlap_no_correction(pos, mv, psize, fps.skip(1));
    }
}

} // verus!
