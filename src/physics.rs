//! The player's motion: horizontal nudges, gravity, the velocity floor and
//! position integration.
use vstd::prelude::*;

verus! {

/// Lowest vertical speed, in units per second, is `-MAX_Y_VEL`.
pub const MAX_Y_VEL: i64 = 100;

/// What gravity takes off the vertical speed on each frame, whatever the
/// frame's duration.
pub const GRAVITY_STEP: i64 = 10;

/// Horizontal speed, in units per second, while a direction is held.
pub const HORIZONTAL_SPEED: i64 = 100;

/// Thousandths of a unit per unit.
pub const MILLI: i64 = 1000;

/// Height, in thousandths of a unit, below which the game is over.
pub const FLOOR_Y: i64 = -250_000;

/// The player's own state; its position is kept beside it.
#[derive(Clone, Copy, Debug, PartialEq, Eq, Structural)]
pub struct Player {
    pub falling: bool,
    /// Vertical speed in units per second; negative is downward.
    pub y_velocity: i64,
}

/// A point of the world, in thousandths of a unit.
#[derive(Clone, Copy, Debug, PartialEq, Eq, Structural)]
pub struct Position {
    pub x: i64,
    pub y: i64,
}

/// The smallest and largest value of an `i64`, as integers.
pub open spec fn i64_min() -> int {
    i64::MIN as int
}

pub open spec fn i64_max() -> int {
    i64::MAX as int
}

/// `v` held within the range of an `i64`.
pub open spec fn saturate(v: int) -> int {
    if v < i64_min() {
        i64_min()
    } else if v > i64_max() {
        i64_max()
    } else {
        v
    }
}

/// Horizontal speed for the held directions: right wins over left.
pub open spec fn spec_horizontal_speed(left: bool, right: bool) -> int {
    if right {
        HORIZONTAL_SPEED as int
    } else if left {
        -HORIZONTAL_SPEED
    } else {
        0
    }
}

/// Vertical speed after one frame's gravity step, held at the floor.
pub open spec fn next_velocity(p: Player) -> int {
    if p.falling {
        if p.y_velocity - GRAVITY_STEP < -MAX_Y_VEL {
            -MAX_Y_VEL
        } else {
            p.y_velocity - GRAVITY_STEP
        }
    } else {
        p.y_velocity as int
    }
}

/// The player after one frame's gravity step.
pub open spec fn fallen(p: Player) -> Player {
    Player { falling: p.falling, y_velocity: next_velocity(p) as i64 }
}

/// The position reached from `pos` at the given speeds over `dt_ms`
/// milliseconds, held within the range of an `i64`.
pub open spec fn moved(pos: Position, x_speed: int, y_speed: int, dt_ms: u32) -> Position {
    Position {
        x: saturate(pos.x + x_speed * dt_ms) as i64,
        y: saturate(pos.y + y_speed * dt_ms) as i64,
    }
}

/// Whether a frame that starts at `pos` ends the game.
pub open spec fn below_floor(pos: Position) -> bool {
    pos.y < FLOOR_Y
}

impl Player {
    /// A player's speed stays between the floor and rest: it starts at
    /// rest and nothing makes it rise.
    pub open spec fn wf(self) -> bool {
        -MAX_Y_VEL <= self.y_velocity <= 0
    }

    /// A fresh player: at rest and already falling.
    pub fn new() -> (r: Player)
        ensures
            r.falling,
            r.y_velocity == 0,
            r.wf(),
    {
        Player { falling: true, y_velocity: 0 }
    }

    /// Applies one frame's gravity step.
    pub fn fall(&mut self)
        requires
            old(self).wf(),
        ensures
            *final(self) == fallen(*old(self)),
            final(self).wf(),
    {
        if self.falling {
            self.y_velocity = self.y_velocity - GRAVITY_STEP;
            if self.y_velocity < -MAX_Y_VEL {
                self.y_velocity = -MAX_Y_VEL;
            }
        }
    }
}

impl Default for Player {
    fn default() -> (r: Player)
        ensures
            r.falling,
            r.y_velocity == 0,
    {
        Player::new()
    }
}

impl Position {
    /// The world's origin.
    pub fn origin() -> (r: Position)
        ensures
            r.x == 0,
            r.y == 0,
    {
        Position { x: 0, y: 0 }
    }
}

/// Horizontal speed for the held directions: left gives `-100`, right
/// `100`, and right wins when both are held.
pub fn horizontal_speed(left: bool, right: bool) -> (r: i64)
    ensures
        r == spec_horizontal_speed(left, right),
{
    let mut speed: i64 = 0;
    if left {
        speed = -HORIZONTAL_SPEED;
    }
    if right {
        speed = HORIZONTAL_SPEED;
    }
    speed
}

/// `a + speed * dt_ms`, held within the range of an `i64`.
pub fn advance(a: i64, speed: i64, dt_ms: u32) -> (r: i64)
    requires
        -HORIZONTAL_SPEED <= speed <= HORIZONTAL_SPEED,
    ensures
        r == saturate(a + speed * dt_ms),
{
    assert(-100 * 4294967295 <= speed * dt_ms <= 100 * 4294967295) by (nonlinear_arith)
        requires
            -100 <= speed <= 100,
            0 <= dt_ms <= 4294967295,
    ;
    let delta: i128 = speed as i128 * dt_ms as i128;
    let sum: i128 = a as i128 + delta;
    if sum < i64::MIN as i128 {
        i64::MIN
    } else if sum > i64::MAX as i128 {
        i64::MAX
    } else {
        sum as i64
    }
}

/// One frame of the player's motion. Returns whether the frame started
/// below the floor; that test uses the position from before the move.
/// Gravity takes a fixed step per frame, while the speeds move the
/// position in proportion to `dt_ms`.
pub fn step(player: &mut Player, pos: &mut Position, dt_ms: u32, left: bool, right: bool) -> (over: bool)
    requires
        old(player).wf(),
    ensures
        over == below_floor(*old(pos)),
        *final(player) == fallen(*old(player)),
        final(player).wf(),
        *final(pos) == moved(
            *old(pos),
            spec_horizontal_speed(left, right),
            next_velocity(*old(player)),
            dt_ms,
        ),
{
    let over = pos.y < FLOOR_Y;
    let x_speed = horizontal_speed(left, right);
    player.fall();
    pos.x = advance(pos.x, x_speed, dt_ms);
    pos.y = advance(pos.y, player.y_velocity, dt_ms);
    over
}

} // verus!
