//! The player: a position on the field and a vertical velocity.
//!
//! Velocity is kept in tenths of a row per physics tick, so that gravity's
//! increment of 0.2 rows and the terminal velocity of 2.0 rows are exact.
use vstd::prelude::*;

use crate::draw::{Color, Draw};
use crate::{div_toward_zero, trunc_div};

verus! {

/// Velocity gained per physics tick, in tenths of a row.
pub const GRAVITY: i32 = 2;

/// Terminal velocity, in tenths of a row per tick.
pub const TERMINAL_VELOCITY: i32 = 20;

/// Velocity set by a flap, in tenths of a row per tick (upward).
pub const FLAP_VELOCITY: i32 = -20;

/// The player. `x` is the world position, which advances by one per physics
/// tick; `y` is the row, 0 at the top and growing downward; `velocity` is in
/// tenths of a row per tick, negative upward.
#[derive(Clone, Copy, Debug, PartialEq, Eq, Structural)]
pub struct Player {
    pub x: i32,
    pub y: i32,
    pub velocity: i32,
}

/// Velocity after one tick of gravity: raised by the increment, never past the
/// terminal velocity; a velocity already at or past it is left alone.
pub open spec fn velocity_after_gravity(v: int) -> int {
    if v < TERMINAL_VELOCITY {
        if v + GRAVITY < TERMINAL_VELOCITY {
            v + GRAVITY
        } else {
            TERMINAL_VELOCITY as int
        }
    } else {
        v
    }
}

/// Whole rows covered in one tick at velocity `v` (tenths), truncated toward zero.
pub open spec fn whole_rows(v: int) -> int {
    trunc_div(v, 10)
}

/// A row kept from rising above the top edge.
pub open spec fn clamp_top(r: int) -> int {
    if r < 0 {
        0
    } else {
        r
    }
}

/// The player after one physics tick.
pub open spec fn after_physics_tick(p: Player) -> Player {
    let v = velocity_after_gravity(p.velocity as int);
    Player {
        x: (p.x + 1) as i32,
        y: clamp_top(p.y + whole_rows(v)) as i32,
        velocity: v as i32,
    }
}

/// Whether a physics tick on `p` stays within the machine integers.
pub open spec fn physics_tick_fits(p: Player) -> bool {
    &&& p.x < i32::MAX
    &&& p.y + whole_rows(velocity_after_gravity(p.velocity as int)) <= i32::MAX
    &&& p.y + whole_rows(velocity_after_gravity(p.velocity as int)) >= i32::MIN
}

impl Player {
    /// A player at `(x, y)`, at rest.
    pub fn new(x: i32, y: i32) -> (r: Player)
        ensures
            r == (Player { x, y, velocity: 0 }),
    {
        Player { x, y, velocity: 0 }
    }

    /// One physics tick: gravity raises the velocity toward the terminal
    /// velocity, the player moves by the whole rows of the new velocity and one
    /// column forward, and is then kept from rising above the top edge.
    pub fn gravity_and_move(&mut self)
        requires
            physics_tick_fits(*old(self)),
        ensures
            *final(self) == after_physics_tick(*old(self)),
    {
        if self.velocity < TERMINAL_VELOCITY {
            if self.velocity + GRAVITY < TERMINAL_VELOCITY {
                self.velocity = self.velocity + GRAVITY;
            } else {
                self.velocity = TERMINAL_VELOCITY;
            }
        }
        let d = div_toward_zero(self.velocity, 10);
        self.y = self.y + d;
        self.x = self.x + 1;
        if self.y < 0 {
            self.y = 0;
        }
    }

    /// A flap: the velocity becomes the fixed upward impulse, whatever it was.
    pub fn flap(&mut self)
        ensures
            *final(self) == (Player { velocity: FLAP_VELOCITY, ..*old(self) }),
    {
        self.velocity = FLAP_VELOCITY;
    }

    /// Moves by the whole rows of the current velocity, then adds one increment
    /// of gravity, with no terminal cap, no horizontal move and no clamp.
    pub fn update(&mut self)
        requires
            old(self).velocity + GRAVITY <= i32::MAX,
            i32::MIN <= old(self).y + whole_rows(old(self).velocity as int) <= i32::MAX,
        ensures
            *final(self) == (Player {
                y: (old(self).y + whole_rows(old(self).velocity as int)) as i32,
                velocity: (old(self).velocity + GRAVITY) as i32,
                ..*old(self)
            }),
    {
        let d = div_toward_zero(self.velocity, 10);
        self.y = self.y + d;
        self.velocity = self.velocity + GRAVITY;
    }

    /// The player's glyph: always in column 0, on its own row.
    pub fn render(&self) -> (r: Draw)
        ensures
            r == player_glyph(*self),
    {
        Draw::Glyph { x: 0, y: self.y, fg: Color::Yellow, bg: Color::Black, glyph: '@' }
    }
}

/// The drawing command for the player.
pub open spec fn player_glyph(p: Player) -> Draw {
    Draw::Glyph { x: 0, y: p.y, fg: Color::Yellow, bg: Color::Black, glyph: '@' }
}

/// After any physics tick the player is at or below the top edge.
pub proof fn lemma_tick_keeps_top(p: Player)
    requires
        p.y + whole_rows(velocity_after_gravity(p.velocity as int)) <= i32::MAX,
    ensures
        after_physics_tick(p).y >= 0,
{
}

/// Without a flap, a physics tick never lowers the velocity, and a velocity at
/// or under the terminal velocity stays at or under it.
pub proof fn lemma_tick_velocity(p: Player)
    ensures
        after_physics_tick(p).velocity >= p.velocity,
        p.velocity <= TERMINAL_VELOCITY ==> after_physics_tick(p).velocity <= TERMINAL_VELOCITY,
{
}

} // verus!
