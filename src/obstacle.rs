//! Obstacles: a vertical bar with a passable gap, whose size narrows as the
//! score grows.
use vstd::prelude::*;

use crate::draw::{Color, Draw};
use crate::player::Player;
use crate::{div_toward_zero, trunc_div, SCREEN_HEIGHT};

verus! {

/// Lowest row a gap may be centred on.
pub const GAP_CENTER_LOW: i32 = 10;

/// One past the highest row a gap may be centred on.
pub const GAP_CENTER_HIGH: i32 = 40;

/// Gap size at score 0; it shrinks by one per point.
pub const START_GAP_SIZE: i32 = 20;

/// Smallest gap size.
pub const MIN_GAP_SIZE: i32 = 2;

/// An obstacle at world column `x`, with a gap of `size` rows centred on row
/// `gap_y`.
#[derive(Clone, Copy, Debug, PartialEq, Eq, Structural)]
pub struct Obstacle {
    pub x: i32,
    pub gap_y: i32,
    pub size: i32,
}

/// Gap size at a given score: `max(2, 20 - score)`.
pub open spec fn gap_size_for(score: int) -> int {
    if START_GAP_SIZE - score > MIN_GAP_SIZE {
        START_GAP_SIZE - score
    } else {
        MIN_GAP_SIZE as int
    }
}

/// Half the gap size, rounded toward zero.
pub open spec fn half_gap(o: Obstacle) -> int {
    trunc_div(o.size as int, 2)
}

/// First row of the gap that the top bar does not cover.
pub open spec fn gap_top(o: Obstacle) -> int {
    o.gap_y - half_gap(o)
}

/// First row of the bottom bar.
pub open spec fn gap_bottom(o: Obstacle) -> int {
    o.gap_y + half_gap(o)
}

/// The player hits the obstacle: same column, and a row strictly above or
/// strictly below the gap.
pub open spec fn collides(o: Obstacle, p: Player) -> bool {
    p.x == o.x && (p.y < gap_top(o) || p.y > gap_bottom(o))
}

/// Whether the obstacle's gap edges are machine integers.
pub open spec fn gap_edges_fit(o: Obstacle) -> bool {
    &&& i32::MIN <= gap_top(o) <= i32::MAX
    &&& i32::MIN <= gap_bottom(o) <= i32::MAX
}

/// One cell of an obstacle's bar.
pub open spec fn bar_glyph(column: int, row: int) -> Draw {
    Draw::Glyph { x: column as i32, y: row as i32, fg: Color::Red, bg: Color::Black, glyph: '|' }
}

/// Number of rows in the top bar: rows `0 .. gap_top`.
pub open spec fn top_rows(o: Obstacle) -> int {
    if gap_top(o) > 0 {
        gap_top(o)
    } else {
        0
    }
}

/// Number of rows in the bottom bar: rows `gap_bottom .. SCREEN_HEIGHT`.
pub open spec fn bottom_rows(o: Obstacle) -> int {
    if SCREEN_HEIGHT - gap_bottom(o) > 0 {
        SCREEN_HEIGHT - gap_bottom(o)
    } else {
        0
    }
}

/// The drawing commands for an obstacle, seen from a player at world column
/// `player_x`: the top bar from row 0 down, then the bottom bar down to the
/// field's last row, both in the obstacle's screen column.
pub open spec fn obstacle_draws(o: Obstacle, player_x: int) -> Seq<Draw> {
    let column = o.x - player_x;
    Seq::new(top_rows(o) as nat, |i: int| bar_glyph(column, i))
        + Seq::new(bottom_rows(o) as nat, |i: int| bar_glyph(column, gap_bottom(o) + i))
}

/// Relies on bracket_lib's `RandomNumberGenerator::new`, seeded from the
/// system, and its `range`, which draws uniformly from `min .. max`.
#[verifier::external_body]
fn random_in_range(min: i32, max: i32) -> (r: i32)
    requires
        min < max,
    ensures
        min <= r < max,
{
    bracket_lib::random::RandomNumberGenerator::new().range(min, max)
}

impl Obstacle {
    /// An obstacle at column `x` with its gap centred on `gap_y`, sized for
    /// `score`.
    pub fn with_gap(x: i32, gap_y: i32, score: i32) -> (r: Obstacle)
        requires
            START_GAP_SIZE - score <= i32::MAX,
        ensures
            r == (Obstacle { x, gap_y, size: gap_size_for(score as int) as i32 }),
    {
        let shrunk = START_GAP_SIZE - score;
        let size = if shrunk > MIN_GAP_SIZE {
            shrunk
        } else {
            MIN_GAP_SIZE
        };
        Obstacle { x, gap_y, size }
    }

    /// An obstacle at column `x`, sized for `score`, with its gap centred on a
    /// row drawn at random from `GAP_CENTER_LOW .. GAP_CENTER_HIGH`.
    pub fn new(x: i32, score: i32) -> (r: Obstacle)
        requires
            START_GAP_SIZE - score <= i32::MAX,
        ensures
            r.x == x,
            r.size == gap_size_for(score as int),
            GAP_CENTER_LOW <= r.gap_y < GAP_CENTER_HIGH,
    {
        let gap_y = random_in_range(GAP_CENTER_LOW, GAP_CENTER_HIGH);
        Obstacle::with_gap(x, gap_y, score)
    }

    /// Whether `player` hits this obstacle.
    pub fn hit_obstacle(&self, player: &Player) -> (r: bool)
        ensures
            r == collides(*self, *player),
    {
        let half = div_toward_zero(self.size, 2) as i64;
        let does_x_match = player.x == self.x;
        let above_gap = (player.y as i64) < (self.gap_y as i64) - half;
        let below_gap = (player.y as i64) > (self.gap_y as i64) + half;
        does_x_match && (above_gap || below_gap)
    }

    /// The drawing commands for this obstacle, seen from a player at world
    /// column `player_x`.
    pub fn render(&self, player_x: i32) -> (r: Vec<Draw>)
        requires
            i32::MIN <= self.x - player_x <= i32::MAX,
            gap_edges_fit(*self),
        ensures
            r@ == obstacle_draws(*self, player_x as int),
    {
        let column = self.x - player_x;
        let half = div_toward_zero(self.size, 2);
        let top = self.gap_y - half;
        let bottom = self.gap_y + half;
        let ghost top_part = Seq::new(top_rows(*self) as nat, |i: int| bar_glyph(column as int, i));
        let ghost bottom_part = Seq::new(
            bottom_rows(*self) as nat,
            |i: int| bar_glyph(column as int, bottom + i),
        );
        let mut r: Vec<Draw> = Vec::new();
        let mut y: i32 = 0;
        while y < top
            invariant
                top == gap_top(*self),
                top_part.len() == top_rows(*self),
                forall|i: int| 0 <= i < top_part.len() ==> top_part[i] == bar_glyph(column as int, i),
                0 <= y,
                y <= top_rows(*self),
                r@ =~= top_part.subrange(0, y as int),
            decreases top - y,
        {
            assert(top_rows(*self) == top);
            assert(top_part[y as int] == bar_glyph(column as int, y as int));
            r.push(Draw::Glyph { x: column, y, fg: Color::Red, bg: Color::Black, glyph: '|' });
            y = y + 1;
        }
        assert(y == top_rows(*self));
        assert(r@ =~= top_part);
        let mut y: i32 = bottom;
        while y < SCREEN_HEIGHT
            invariant
                bottom == gap_bottom(*self),
                bottom_part.len() == bottom_rows(*self),
                forall|i: int|
                    0 <= i < bottom_part.len() ==> bottom_part[i] == bar_glyph(
                        column as int,
                        bottom + i,
                    ),
                bottom <= y,
                y - bottom <= bottom_rows(*self),
                r@ =~= top_part + bottom_part.subrange(0, y - bottom),
            decreases SCREEN_HEIGHT - y,
        {
            assert(bottom_rows(*self) == SCREEN_HEIGHT - bottom);
            assert(bottom_part[y - bottom] == bar_glyph(column as int, y as int));
            r.push(Draw::Glyph { x: column, y, fg: Color::Red, bg: Color::Black, glyph: '|' });
            y = y + 1;
        }
        assert(y - bottom == bottom_rows(*self));
        assert(r@ =~= top_part + bottom_part);
        r
    }
}

/// The gap size is `max(2, 20 - score)` for every non-negative score, and is
/// pinned at 2 from score 18 on.
pub proof fn lemma_gap_size(score: int)
    requires
        score >= 0,
    ensures
        gap_size_for(score) == if 20 - score > 2 { 20 - score } else { 2 },
        score >= 18 ==> gap_size_for(score) == 2,
        gap_size_for(score) <= 20,
{
}

/// A player in another column never hits the obstacle, whatever its row.
pub proof fn lemma_no_hit_off_column(o: Obstacle, p: Player)
    requires
        p.x != o.x,
    ensures
        !collides(o, p),
{
}

} // verus!
