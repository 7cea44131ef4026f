//! Per-entity movement state and the per-frame input and integration steps.
//!
//! Movement is strictly axis-aligned: one direction is active at a time, and
//! the input step checks Up, Down, Left, Right in that order, the first held
//! key winning. When no key is held the speed coasts down by a fixed
//! per-frame decrement (`SPEED_DECAY`) until it reaches zero — the coasting
//! policy is the one implemented here, named in one place, rather than an
//! instant stop.

use vstd::prelude::*;

use crate::coords::Point;

verus! {

/// Speed, in world units per second, set while a directional key is held.
pub const PLAYER_SPEED: i64 = 125;

/// Per-frame speed decrement applied while no directional key is held.
pub const SPEED_DECAY: i64 = 2;

/// Largest speed the integration step accepts, in world units per second.
pub const MAX_SPEED: i64 = 0x10_0000;

/// Largest frame duration the integration step accepts, in milliseconds.
pub const MAX_ELAPSED_MS: u64 = 0x4000_0000;

/// Largest magnitude of a world coordinate the per-frame systems accept.
pub const MAX_WORLD_COORD: i64 = 0x0100_0000_0000_0000;

/// The direction an entity is currently moving in, or `Stopped`.
#[derive(Copy, Clone, Debug, PartialEq, Eq, Structural)]
pub enum Direction {
    Stopped,
    Up,
    Down,
    Left,
    Right,
}

/// Per-entity movement state: a scalar speed and the active direction.
#[derive(Copy, Clone, Debug, PartialEq, Eq, Structural)]
pub struct Moveable {
    pub speed: i64,
    pub direction: Direction,
}

impl Moveable {
    /// A freshly spawned entity stands still.
    pub fn new() -> (r: Self)
        ensures
            r.speed == 0,
            r.direction == Direction::Stopped,
    {
        Self { speed: 0, direction: Direction::Stopped }
    }
}

/// The directional keys' pressed state, polled once per frame.
#[derive(Copy, Clone, Debug, PartialEq, Eq, Structural)]
pub struct DirectionalInput {
    pub up: bool,
    pub down: bool,
    pub left: bool,
    pub right: bool,
}

/// What the input step leaves in the movement state: the first held key in
/// the order Up, Down, Left, Right sets its direction at full speed;
/// otherwise the speed coasts down by `SPEED_DECAY`, and once it can no
/// longer pay the decrement the entity stops.
pub open spec fn spec_input_step(m: Moveable, input: DirectionalInput) -> Moveable {
    if input.up {
        Moveable { speed: PLAYER_SPEED as i64, direction: Direction::Up }
    } else if input.down {
        Moveable { speed: PLAYER_SPEED as i64, direction: Direction::Down }
    } else if input.left {
        Moveable { speed: PLAYER_SPEED as i64, direction: Direction::Left }
    } else if input.right {
        Moveable { speed: PLAYER_SPEED as i64, direction: Direction::Right }
    } else if m.speed > SPEED_DECAY {
        Moveable { speed: (m.speed - SPEED_DECAY) as i64, direction: m.direction }
    } else {
        Moveable { speed: 0, direction: Direction::Stopped }
    }
}

/// The per-frame input step for the player's movement state.
pub fn input_system_keyboard(player_movement: &mut Moveable, input: &DirectionalInput)
    requires
        0 <= old(player_movement).speed <= MAX_SPEED,
    ensures
        *final(player_movement) == spec_input_step(*old(player_movement), *input),
        0 <= final(player_movement).speed <= MAX_SPEED,
{
    if input.up {
        player_movement.direction = Direction::Up;
        player_movement.speed = PLAYER_SPEED;
        return ;
    }
    if input.down {
        player_movement.direction = Direction::Down;
        player_movement.speed = PLAYER_SPEED;
        return ;
    }
    if input.left {
        player_movement.direction = Direction::Left;
        player_movement.speed = PLAYER_SPEED;
        return ;
    }
    if input.right {
        player_movement.direction = Direction::Right;
        player_movement.speed = PLAYER_SPEED;
        return ;
    }
    if player_movement.speed > SPEED_DECAY {
        player_movement.speed = player_movement.speed - SPEED_DECAY;
    } else {
        player_movement.direction = Direction::Stopped;
        player_movement.speed = 0;
    }
}

/// How far an entity moves in one frame: speed (world units per second)
/// times the frame duration, in whole world units (the fraction of a unit a
/// short frame leaves over rounds down).
pub open spec fn spec_displacement(speed: int, elapsed_ms: int) -> int {
    speed * elapsed_ms / 1000
}

/// Where the integration step leaves a position: displaced along the single
/// active axis, or unchanged when stopped.
pub open spec fn spec_integrate(pos: Point, m: Moveable, elapsed_ms: int) -> Point {
    let amount = spec_displacement(m.speed as int, elapsed_ms);
    match m.direction {
        Direction::Stopped => pos,
        Direction::Up => Point { x: pos.x, y: (pos.y + amount) as i64 },
        Direction::Down => Point { x: pos.x, y: (pos.y - amount) as i64 },
        Direction::Left => Point { x: (pos.x - amount) as i64, y: pos.y },
        Direction::Right => Point { x: (pos.x + amount) as i64, y: pos.y },
    }
}

/// The per-frame integration step: displaces the player's position along the
/// active axis by speed times elapsed time.
pub fn update_player_position(
    player_transform: &mut Point,
    player_movement: &Moveable,
    elapsed_ms: u64,
)
    requires
        0 <= player_movement.speed <= MAX_SPEED,
        elapsed_ms <= MAX_ELAPSED_MS,
        -MAX_WORLD_COORD <= old(player_transform).x <= MAX_WORLD_COORD,
        -MAX_WORLD_COORD <= old(player_transform).y <= MAX_WORLD_COORD,
    ensures
        *final(player_transform) == spec_integrate(
            *old(player_transform),
            *player_movement,
            elapsed_ms as int,
        ),
{
    if let Direction::Stopped = player_movement.direction {
        return ;
    }
    proof {
        crate::coords::lemma_mul_bounds_signed(
            player_movement.speed as int,
            elapsed_ms as int,
            MAX_SPEED as int,
            MAX_ELAPSED_MS as int,
        );
    }
    let movement_amount = (player_movement.speed * (elapsed_ms as i64)) / 1000;
    match player_movement.direction {
        Direction::Up => {
            player_transform.y = player_transform.y + movement_amount;
        },
        Direction::Down => {
            player_transform.y = player_transform.y - movement_amount;
        },
        Direction::Left => {
            player_transform.x = player_transform.x - movement_amount;
        },
        Direction::Right => {
            player_transform.x = player_transform.x + movement_amount;
        },
        Direction::Stopped => {},
    }
}

/// The touch input step: the player snaps directly to the touch position.
/// Touch handling is a placeholder in this design (no direction is derived
/// from the gesture), and this function states exactly that.
pub fn input_system_touch(player_transform: &mut Point, touch_position: &Point)
    ensures
        *final(player_transform) == *touch_position,
{
    player_transform.x = touch_position.x;
    player_transform.y = touch_position.y;
}

} // verus!
