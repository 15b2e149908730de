//! The game: one player, one obstacle, the score, a frame-time accumulator and
//! the mode (menu, playing, dead), advanced one rendered frame at a time.
use vstd::prelude::*;

use crate::draw::{Color, Draw};
use crate::obstacle::{
    collides, gap_edges_fit, gap_size_for, obstacle_draws, Obstacle, GAP_CENTER_HIGH,
    GAP_CENTER_LOW,
};
use crate::player::{
    after_physics_tick, player_glyph, physics_tick_fits, Player, FLAP_VELOCITY,
    TERMINAL_VELOCITY,
};
use crate::{SCREEN_HEIGHT, SCREEN_WIDTH};

verus! {

/// Time between two physics ticks, in microseconds.
pub const FRAME_DURATION: u64 = 75_000;

/// Column a new run starts the player at.
pub const START_X: i32 = 5;

/// Row a new run starts the player at.
pub const START_Y: i32 = 25;

/// The phase of the game.
#[derive(Clone, Copy, Debug, PartialEq, Eq, Structural)]
pub enum GameMode {
    Menu,
    Playing,
    End,
}

/// The keys the game reacts to; any other key is `Other`.
#[derive(Clone, Copy, Debug, PartialEq, Eq, Structural)]
pub enum Key {
    /// Play, from the menu or after death.
    P,
    /// Quit, from the menu or after death.
    Q,
    /// Flap, while playing.
    Space,
    Other,
}

/// What one frame hands back to the host: what to draw, and whether to quit.
#[derive(Clone, Debug, PartialEq, Eq)]
pub struct Frame {
    pub draws: Vec<Draw>,
    pub quit: bool,
}

/// The whole game. `frame_time` is the time not yet spent on physics ticks,
/// in microseconds.
#[derive(Clone, Copy, Debug, PartialEq, Eq)]
pub struct State {
    pub player: Player,
    pub frame_time: u64,
    pub mode: GameMode,
    pub obstacle: Obstacle,
    pub score: i32,
}

/// The player a run starts with.
pub open spec fn start_player() -> Player {
    Player { x: START_X, y: START_Y, velocity: 0 }
}

/// `o` is a fresh obstacle at column `x` for `score`: sized by the score, its
/// gap centred on a row of the band.
pub open spec fn fresh_obstacle(o: Obstacle, x: int, score: int) -> bool {
    &&& o.x == x
    &&& o.size == gap_size_for(score)
    &&& GAP_CENTER_LOW <= o.gap_y < GAP_CENTER_HIGH
}

/// `s` is the start of a run in mode `mode`.
pub open spec fn is_start(s: State, mode: GameMode) -> bool {
    &&& s.mode == mode
    &&& s.player == start_player()
    &&& s.frame_time == 0
    &&& s.score == 0
    &&& fresh_obstacle(s.obstacle, SCREEN_WIDTH as int, 0)
}

/// The state after the time and input part of a playing frame: `elapsed`
/// microseconds join the accumulator; once it exceeds the frame duration it is
/// emptied and one physics tick runs; then a flap key makes the player flap.
pub open spec fn after_advance(s: State, elapsed: u32, key: Option<Key>) -> State {
    let acc = s.frame_time + elapsed;
    let s1 = if acc > FRAME_DURATION {
        State { frame_time: 0, player: after_physics_tick(s.player), ..s }
    } else {
        State { frame_time: acc as u64, ..s }
    };
    if key == Some(Key::Space) {
        State { player: Player { velocity: FLAP_VELOCITY, ..s1.player }, ..s1 }
    } else {
        s1
    }
}

/// The player has gone past the obstacle's column.
pub open spec fn passed(s: State) -> bool {
    s.player.x > s.obstacle.x
}

/// The run ends: the player is below the field, or hits the obstacle it has
/// not passed. (An obstacle that replaces a passed one stands a field's width
/// ahead, so it cannot be hit in the same frame.)
pub open spec fn dies(s: State) -> bool {
    s.player.y > SCREEN_HEIGHT || (!passed(s) && collides(s.obstacle, s.player))
}

/// `t` follows `s` by the scoring and death checks of a playing frame: passing
/// the obstacle scores a point and brings a fresh obstacle a field's width
/// ahead of the player; dying ends the run. Nothing else changes.
pub open spec fn settled(s: State, t: State) -> bool {
    &&& t.player == s.player
    &&& t.frame_time == s.frame_time
    &&& if passed(s) {
        &&& t.score == s.score + 1
        &&& fresh_obstacle(t.obstacle, s.player.x + SCREEN_WIDTH, s.score + 1)
    } else {
        &&& t.score == s.score
        &&& t.obstacle == s.obstacle
    }
    &&& t.mode == if dies(s) {
        GameMode::End
    } else {
        s.mode
    }
}

/// The drawing commands for a state.
pub open spec fn frame_draws(s: State) -> Seq<Draw> {
    match s.mode {
        GameMode::Menu => seq![
            Draw::Clear,
            Draw::PrintCentered { y: 5, text: "Welcome to play flarrt dargon" },
            Draw::PrintCentered { y: 8, text: "(P) Play Game" },
            Draw::PrintCentered { y: 10, text: "(Q) Quite Game" },
        ],
        GameMode::Playing => seq![
            Draw::ClearTo { bg: Color::Navy },
            player_glyph(s.player),
            Draw::Print { x: 0, y: 0, text: "Press SPACE to flap." },
            Draw::PrintNumber { x: 0, y: 1, label: "Score: ", value: s.score },
        ] + obstacle_draws(s.obstacle, s.player.x as int),
        GameMode::End => seq![
            Draw::Clear,
            Draw::PrintCentered { y: 5, text: "You are dead" },
            Draw::PrintNumberCentered { y: 6, label: "You earn ", value: s.score, suffix: " points" },
            Draw::PrintCentered { y: 8, text: "(P) Play Again" },
            Draw::PrintCentered { y: 10, text: "(Q) Quite Game" },
        ],
    }
}

/// The obstacle of `s` can be drawn in machine integers.
pub open spec fn render_fits(s: State) -> bool {
    &&& i32::MIN <= s.obstacle.x - s.player.x <= i32::MAX
    &&& gap_edges_fit(s.obstacle)
}

/// `t` and `r` are a possible outcome of one frame from `s`, with `elapsed`
/// microseconds since the last frame and `key` pressed. On the menu and after
/// death the screen is drawn, then "play" starts a new run and "quit" asks the
/// host to stop. While playing, time and input are applied, the screen is
/// drawn, then the scoring and death checks run.
pub open spec fn frame_outcome(s: State, elapsed: u32, key: Option<Key>, t: State, r: Frame) -> bool {
    if s.mode == GameMode::Playing {
        let a = after_advance(s, elapsed, key);
        &&& r.draws@ == frame_draws(a)
        &&& !r.quit
        &&& settled(a, t)
    } else {
        &&& r.draws@ == frame_draws(s)
        &&& if key == Some(Key::P) {
            is_start(t, GameMode::Playing) && !r.quit
        } else if key == Some(Key::Q) {
            t == s && r.quit
        } else {
            t == s && !r.quit
        }
    }
}

impl Default for State {
    fn default() -> (r: State)
        ensures
            is_start(r, GameMode::Menu),
            r.wf(),
    {
        State::new()
    }
}

impl State {
    /// The invariant of every state the game reaches.
    pub open spec fn wf(&self) -> bool {
        &&& 0 <= self.player.x
        &&& 0 <= self.player.y
        &&& FLAP_VELOCITY <= self.player.velocity <= TERMINAL_VELOCITY
        &&& self.mode == GameMode::Playing ==> self.player.y <= i32::MAX - 2
        &&& self.frame_time <= FRAME_DURATION
        &&& 0 <= self.score
        &&& self.score + SCREEN_WIDTH <= self.obstacle.x <= self.player.x + SCREEN_WIDTH
        &&& self.obstacle.size == gap_size_for(self.score as int)
        &&& GAP_CENTER_LOW <= self.obstacle.gap_y < GAP_CENTER_HIGH
    }

    /// A new game, on the menu.
    pub fn new() -> (r: State)
        ensures
            is_start(r, GameMode::Menu),
            r.wf(),
    {
        State {
            mode: GameMode::Menu,
            player: Player::new(START_X, START_Y),
            frame_time: 0,
            obstacle: Obstacle::new(SCREEN_WIDTH, 0),
            score: 0,
        }
    }

    /// Starts a new run: a fresh player, obstacle, score and accumulator, in
    /// the playing mode.
    pub fn restart(&mut self)
        ensures
            is_start(*final(self), GameMode::Playing),
            final(self).wf(),
    {
        self.player = Player::new(START_X, START_Y);
        self.frame_time = 0;
        self.mode = GameMode::Playing;
        self.obstacle = Obstacle::new(SCREEN_WIDTH, 0);
        self.score = 0;
    }

    /// The time and input part of a playing frame.
    pub fn advance(&mut self, elapsed: u32, key: Option<Key>)
        requires
            old(self).frame_time + elapsed <= u64::MAX,
            old(self).frame_time + elapsed > FRAME_DURATION ==> physics_tick_fits(old(self).player),
        ensures
            *final(self) == after_advance(*old(self), elapsed, key),
    {
        let acc: u64 = self.frame_time + elapsed as u64;
        if acc > FRAME_DURATION {
            self.frame_time = 0;
            self.player.gravity_and_move();
        } else {
            self.frame_time = acc;
        }
        if matches!(key, Some(Key::Space)) {
            self.player.flap();
        }
    }

    /// The scoring and death checks of a playing frame.
    pub fn settle(&mut self)
        requires
            passed(*old(self)) ==> old(self).score < i32::MAX,
            passed(*old(self)) ==> old(self).player.x + SCREEN_WIDTH <= i32::MAX,
            old(self).score >= 0,
        ensures
            settled(*old(self), *final(self)),
    {
        if self.player.x > self.obstacle.x {
            self.score = self.score + 1;
            self.obstacle = Obstacle::new(self.player.x + SCREEN_WIDTH, self.score);
        }
        if self.player.y > SCREEN_HEIGHT || self.obstacle.hit_obstacle(&self.player) {
            self.mode = GameMode::End;
        }
    }

    /// The drawing commands for the current state. It reads the state and
    /// changes nothing.
    pub fn render(&self) -> (r: Vec<Draw>)
        requires
            self.mode == GameMode::Playing ==> render_fits(*self),
        ensures
            r@ == frame_draws(*self),
    {
        match self.mode {
            GameMode::Menu => vec![
                Draw::Clear,
                Draw::PrintCentered { y: 5, text: "Welcome to play flarrt dargon" },
                Draw::PrintCentered { y: 8, text: "(P) Play Game" },
                Draw::PrintCentered { y: 10, text: "(Q) Quite Game" },
            ],
            GameMode::Playing => {
                let mut r = vec![
                    Draw::ClearTo { bg: Color::Navy },
                    self.player.render(),
                    Draw::Print { x: 0, y: 0, text: "Press SPACE to flap." },
                    Draw::PrintNumber { x: 0, y: 1, label: "Score: ", value: self.score },
                ];
                let mut bars = self.obstacle.render(self.player.x);
                r.append(&mut bars);
                r
            },
            GameMode::End => vec![
                Draw::Clear,
                Draw::PrintCentered { y: 5, text: "You are dead" },
                Draw::PrintNumberCentered {
                    y: 6,
                    label: "You earn ",
                    value: self.score,
                    suffix: " points",
                },
                Draw::PrintCentered { y: 8, text: "(P) Play Again" },
                Draw::PrintCentered { y: 10, text: "(Q) Quite Game" },
            ],
        }
    }

    /// One rendered frame, `elapsed` microseconds after the previous one, with
    /// `key` the key pressed during it, if any.
    pub fn tick(&mut self, elapsed: u32, key: Option<Key>) -> (r: Frame)
        requires
            old(self).wf(),
            old(self).mode == GameMode::Playing ==> old(self).player.x < i32::MAX - SCREEN_WIDTH,
        ensures
            final(self).wf(),
            frame_outcome(*old(self), elapsed, key, *final(self), r),
    {
        match self.mode {
            GameMode::Playing => {
                self.advance(elapsed, key);
                let draws = self.render();
                self.settle();
                Frame { draws, quit: false }
            },
            _ => {
                let draws = self.render();
                let mut quit = false;
                match key {
                    Some(Key::P) => self.restart(),
                    Some(Key::Q) => quit = true,
                    _ => {},
                }
                Frame { draws, quit }
            },
        }
    }
}

/// From the menu, the play key always starts a run: playing, score 0, the
/// player at its start position and at rest, and nothing asked of the host.
pub proof fn lemma_menu_play_starts_run(s: State, elapsed: u32, t: State, r: Frame)
    requires
        s.mode == GameMode::Menu,
        frame_outcome(s, elapsed, Some(Key::P), t, r),
    ensures
        t.mode == GameMode::Playing,
        t.score == 0,
        t.player == (Player { x: START_X, y: START_Y, velocity: 0 }),
        !r.quit,
{
}

/// While playing, a frame that leaves the player below the field ends the
/// run, whatever the obstacle.
pub proof fn lemma_below_field_ends_run(
    s: State,
    elapsed: u32,
    key: Option<Key>,
    t: State,
    r: Frame,
)
    requires
        s.mode == GameMode::Playing,
        frame_outcome(s, elapsed, key, t, r),
        after_advance(s, elapsed, key).player.y > SCREEN_HEIGHT,
    ensures
        t.mode == GameMode::End,
{
}

/// While playing, a frame that takes the player past the obstacle's column
/// scores one point and brings a fresh obstacle a field's width ahead, sized
/// for the new score.
pub proof fn lemma_pass_scores(s: State, elapsed: u32, key: Option<Key>, t: State, r: Frame)
    requires
        s.mode == GameMode::Playing,
        frame_outcome(s, elapsed, key, t, r),
        passed(after_advance(s, elapsed, key)),
    ensures
        t.score == s.score + 1,
        t.obstacle.x == after_advance(s, elapsed, key).player.x + SCREEN_WIDTH,
        t.obstacle.size == gap_size_for(s.score + 1),
        GAP_CENTER_LOW <= t.obstacle.gap_y < GAP_CENTER_HIGH,
{
}

/// Rendering has no hidden effect: drawing a state twice, or two equal
/// states, gives the same commands.
pub proof fn lemma_render_repeatable(s: State, t: State)
    requires
        s == t,
    ensures
        frame_draws(s) == frame_draws(t),
{
}

} // verus!
