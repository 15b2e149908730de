//! A side-scrolling reflex game engine: a falling player kept aloft by flaps,
//! obstacles with a narrowing gap, and a menu / playing / dead mode machine.
//!
//! The engine performs no I/O. Each frame it takes the elapsed time and the
//! key pressed, updates its state, and returns the drawing commands for the
//! host to carry out.
use vstd::prelude::*;

pub mod draw;
pub mod obstacle;
pub mod player;
pub mod state;

verus! {

/// Width of the playing field, in columns.
pub const SCREEN_WIDTH: i32 = 80;

/// Height of the playing field, in rows.
pub const SCREEN_HEIGHT: i32 = 50;

/// `a / d` rounded toward zero, as machine division does it.
pub open spec fn trunc_div(a: int, d: int) -> int {
    if a >= 0 {
        a / d
    } else {
        -((-a) / d)
    }
}

/// Machine division by a positive divisor, rounding toward zero.
pub fn div_toward_zero(a: i32, d: i32) -> (r: i32)
    requires
        d > 0,
    ensures
        r == trunc_div(a as int, d as int),
{
    if a >= 0 {
        a / d
    } else {
        let n: i64 = -(a as i64);
        let q: i64 = n / (d as i64);
        (-q) as i32
    }
}

} // verus!
