use flappy::draw::{Color, Draw};
use flappy::obstacle::Obstacle;
use flappy::player::Player;
use flappy::state::{GameMode, Key, State};
use flappy::{div_toward_zero, SCREEN_WIDTH};

fn playing(player: Player, obstacle: Obstacle, score: i32) -> State {
    State { player, frame_time: 0, mode: GameMode::Playing, obstacle, score }
}

#[test]
fn gravity_keeps_player_below_top_edge() {
    let mut p = Player { x: 3, y: 0, velocity: -20 };
    p.gravity_and_move();
    assert_eq!(p, Player { x: 4, y: 0, velocity: -18 });
    let mut q = Player { x: 0, y: 1, velocity: -20 };
    q.gravity_and_move();
    assert_eq!(q.y, 0);
}

#[test]
fn gravity_raises_velocity_up_to_terminal() {
    let mut p = Player::new(5, 25);
    p.gravity_and_move();
    assert_eq!(p, Player { x: 6, y: 25, velocity: 2 });
    let mut last = p.velocity;
    for _ in 0..20 {
        p.gravity_and_move();
        assert!(p.velocity >= last);
        assert!(p.velocity <= 20);
        last = p.velocity;
    }
    assert_eq!(p.velocity, 20);
    let mut odd = Player { x: 0, y: 0, velocity: 19 };
    odd.gravity_and_move();
    assert_eq!(odd.velocity, 20);
    assert_eq!(odd.y, 2);
}

#[test]
fn gravity_moves_by_truncated_rows() {
    let mut p = Player { x: 0, y: 10, velocity: 14 };
    p.gravity_and_move();
    assert_eq!(p, Player { x: 1, y: 11, velocity: 16 });
    let mut q = Player { x: 0, y: 10, velocity: -18 };
    q.gravity_and_move();
    assert_eq!(q, Player { x: 1, y: 9, velocity: -16 });
}

#[test]
fn flap_sets_upward_impulse() {
    for v in [-20, -3, 0, 7, 20] {
        let mut p = Player { x: 9, y: 12, velocity: v };
        p.flap();
        assert_eq!(p, Player { x: 9, y: 12, velocity: -20 });
    }
}

#[test]
fn update_moves_then_accelerates_without_cap() {
    let mut p = Player { x: 0, y: 10, velocity: -15 };
    p.update();
    assert_eq!(p, Player { x: 0, y: 9, velocity: -13 });
    let mut q = Player { x: 2, y: 10, velocity: 20 };
    q.update();
    assert_eq!(q, Player { x: 2, y: 12, velocity: 22 });
}

#[test]
fn division_rounds_toward_zero() {
    assert_eq!(div_toward_zero(7, 2), 3);
    assert_eq!(div_toward_zero(-7, 2), -3);
    assert_eq!(div_toward_zero(-15, 10), -1);
    assert_eq!(div_toward_zero(i32::MIN, 10), -214748364);
}

#[test]
fn gap_size_narrows_with_score() {
    assert_eq!(Obstacle::with_gap(80, 25, 0).size, 20);
    assert_eq!(Obstacle::with_gap(80, 25, 1).size, 19);
    assert_eq!(Obstacle::with_gap(80, 25, 17).size, 3);
    assert_eq!(Obstacle::with_gap(80, 25, 18).size, 2);
    assert_eq!(Obstacle::with_gap(80, 25, 500).size, 2);
    assert_eq!(Obstacle::with_gap(7, 31, 4), Obstacle { x: 7, gap_y: 31, size: 16 });
}

#[test]
fn new_obstacle_draws_gap_in_band() {
    for score in 0..40 {
        let o = Obstacle::new(100, score);
        assert_eq!(o.x, 100);
        assert_eq!(o.size, std::cmp::max(2, 20 - score));
        assert!(o.gap_y >= 10 && o.gap_y < 40);
    }
}

#[test]
fn new_obstacle_gap_varies() {
    let first = Obstacle::new(80, 0).gap_y;
    let mut differs = false;
    for _ in 0..200 {
        let o = Obstacle::new(80, 0);
        assert!(o.gap_y >= 10 && o.gap_y < 40);
        if o.gap_y != first {
            differs = true;
        }
    }
    assert!(differs);
}

#[test]
fn collision_only_outside_gap_in_same_column() {
    let o = Obstacle { x: 10, gap_y: 25, size: 20 };
    assert!(o.hit_obstacle(&Player { x: 10, y: 14, velocity: 0 }));
    assert!(!o.hit_obstacle(&Player { x: 10, y: 15, velocity: 0 }));
    assert!(!o.hit_obstacle(&Player { x: 10, y: 25, velocity: 0 }));
    assert!(!o.hit_obstacle(&Player { x: 10, y: 35, velocity: 0 }));
    assert!(o.hit_obstacle(&Player { x: 10, y: 36, velocity: 0 }));
    for y in -5..60 {
        assert!(!o.hit_obstacle(&Player { x: 11, y, velocity: 0 }));
        assert!(!o.hit_obstacle(&Player { x: 9, y, velocity: 0 }));
    }
    let narrow = Obstacle { x: 0, gap_y: 20, size: 3 };
    assert!(narrow.hit_obstacle(&Player { x: 0, y: 18, velocity: 0 }));
    assert!(!narrow.hit_obstacle(&Player { x: 0, y: 19, velocity: 0 }));
    assert!(!narrow.hit_obstacle(&Player { x: 0, y: 21, velocity: 0 }));
    assert!(narrow.hit_obstacle(&Player { x: 0, y: 22, velocity: 0 }));
}

#[test]
fn obstacle_render_draws_two_bars() {
    let o = Obstacle { x: 90, gap_y: 25, size: 20 };
    let draws = o.render(80);
    assert_eq!(draws.len(), 30);
    let bar = |y: i32| Draw::Glyph { x: 10, y, fg: Color::Red, bg: Color::Black, glyph: '|' };
    for (i, d) in draws.iter().enumerate() {
        let row = if i < 15 { i as i32 } else { 35 + (i as i32 - 15) };
        assert_eq!(*d, bar(row));
    }
    let low = Obstacle { x: 5, gap_y: 45, size: 12 };
    let draws = low.render(5);
    assert_eq!(draws.len(), 39);
    assert_eq!(draws[38], Draw::Glyph { x: 0, y: 38, fg: Color::Red, bg: Color::Black, glyph: '|' });
}

#[test]
fn new_game_starts_on_menu() {
    let s = State::new();
    assert_eq!(s.mode, GameMode::Menu);
    assert_eq!(s.player, Player { x: 5, y: 25, velocity: 0 });
    assert_eq!(s.score, 0);
    assert_eq!(s.frame_time, 0);
    assert_eq!(s.obstacle.x, SCREEN_WIDTH);
    assert_eq!(s.obstacle.size, 20);
    let d = State::default();
    assert_eq!(d.mode, GameMode::Menu);
    assert_eq!(d.player, s.player);
}

#[test]
fn menu_play_starts_fresh_run() {
    let mut s = State::new();
    let frame = s.tick(16_000, Some(Key::P));
    assert!(!frame.quit);
    assert_eq!(frame.draws[0], Draw::Clear);
    assert_eq!(s.mode, GameMode::Playing);
    assert_eq!(s.score, 0);
    assert_eq!(s.player, Player { x: 5, y: 25, velocity: 0 });
    assert_eq!(s.frame_time, 0);
    assert_eq!(s.obstacle.x, 80);
    assert_eq!(s.obstacle.size, 20);
}

#[test]
fn menu_quit_and_other_keys() {
    let mut s = State::new();
    let before = s;
    let frame = s.tick(16_000, Some(Key::Q));
    assert!(frame.quit);
    assert_eq!(s, before);
    let frame = s.tick(16_000, Some(Key::Space));
    assert!(!frame.quit);
    assert_eq!(s, before);
    let frame = s.tick(16_000, None);
    assert!(!frame.quit);
    assert_eq!(frame.draws.len(), 4);
    assert_eq!(frame.draws[3], Draw::PrintCentered { y: 10, text: "(Q) Quite Game" });
    assert_eq!(s, before);
    let mut far = State::new();
    far.player.x = i32::MAX;
    far.obstacle.x = i32::MAX;
    far.tick(16_000, Some(Key::P));
    assert_eq!(far.mode, GameMode::Playing);
    assert_eq!(far.player, Player { x: 5, y: 25, velocity: 0 });
}

#[test]
fn dead_play_again_restarts() {
    let mut s = playing(Player { x: 300, y: 40, velocity: 12 }, Obstacle::with_gap(340, 20, 7), 7);
    s.mode = GameMode::End;
    let frame = s.tick(16_000, None);
    assert_eq!(frame.draws.len(), 5);
    assert_eq!(
        frame.draws[2],
        Draw::PrintNumberCentered { y: 6, label: "You earn ", value: 7, suffix: " points" }
    );
    assert_eq!(s.mode, GameMode::End);
    s.tick(16_000, Some(Key::P));
    assert_eq!(s.mode, GameMode::Playing);
    assert_eq!(s.score, 0);
    assert_eq!(s.player, Player { x: 5, y: 25, velocity: 0 });
}

#[test]
fn physics_waits_for_frame_duration() {
    let mut s = playing(Player::new(5, 25), Obstacle::with_gap(80, 25, 0), 0);
    s.tick(50_000, None);
    assert_eq!(s.frame_time, 50_000);
    assert_eq!(s.player, Player::new(5, 25));
    s.tick(25_000, None);
    assert_eq!(s.frame_time, 75_000);
    assert_eq!(s.player.x, 5);
    s.tick(1, None);
    assert_eq!(s.frame_time, 0);
    assert_eq!(s.player, Player { x: 6, y: 25, velocity: 2 });
    s.tick(1_000_000, None);
    assert_eq!(s.frame_time, 0);
    assert_eq!(s.player.x, 7);
}

#[test]
fn flap_applies_without_physics_tick() {
    let mut s = playing(Player { x: 5, y: 25, velocity: 10 }, Obstacle::with_gap(80, 25, 0), 0);
    let frame = s.tick(1_000, Some(Key::Space));
    assert!(!frame.quit);
    assert_eq!(s.player, Player { x: 5, y: 25, velocity: -20 });
    assert_eq!(s.frame_time, 1_000);
}

#[test]
fn passing_obstacle_scores_and_respawns() {
    let mut s = playing(Player::new(5, 25), Obstacle::with_gap(80, 25, 0), 0);
    while s.player.x <= 80 {
        let key = if s.player.y >= 25 && s.player.velocity >= 0 { Some(Key::Space) } else { None };
        s.tick(80_000, key);
        assert_eq!(s.mode, GameMode::Playing);
        if s.player.x <= 80 {
            assert_eq!(s.score, 0);
        }
    }
    assert_eq!(s.player.x, 81);
    assert_eq!(s.score, 1);
    assert_eq!(s.obstacle.x, 81 + 80);
    assert_eq!(s.obstacle.size, 19);
    assert!(s.obstacle.gap_y >= 10 && s.obstacle.gap_y < 40);
}

#[test]
fn pass_from_one_column_before() {
    let mut s = playing(Player { x: 80, y: 25, velocity: 0 }, Obstacle::with_gap(83, 25, 3), 3);
    let frame = s.tick(75_001, None);
    assert_eq!(s.score, 3);
    assert_eq!(s.player.x, 81);
    s.tick(75_001, None);
    s.tick(75_001, None);
    let frame2 = s.tick(75_001, None);
    assert_eq!(s.player.x, 84);
    assert_eq!(s.score, 4);
    assert_eq!(s.obstacle.x, 164);
    assert_eq!(s.obstacle.size, 16);
    assert_eq!(s.mode, GameMode::Playing);
    assert_eq!(frame.draws[3], Draw::PrintNumber { x: 0, y: 1, label: "Score: ", value: 3 });
    assert_eq!(frame2.draws[3], Draw::PrintNumber { x: 0, y: 1, label: "Score: ", value: 3 });
}

#[test]
fn falling_below_field_ends_run() {
    let mut s = playing(Player { x: 20, y: 51, velocity: 0 }, Obstacle::with_gap(80, 25, 0), 0);
    s.tick(0, None);
    assert_eq!(s.mode, GameMode::End);
    assert_eq!(s.player.y, 51);
    let mut t = playing(Player { x: 20, y: 50, velocity: 0 }, Obstacle::with_gap(80, 25, 0), 0);
    t.tick(0, None);
    assert_eq!(t.mode, GameMode::Playing);
    let mut u = playing(Player { x: 20, y: 49, velocity: 20 }, Obstacle::with_gap(80, 25, 0), 0);
    u.tick(75_001, None);
    assert_eq!(u.player.y, 51);
    assert_eq!(u.mode, GameMode::End);
}

#[test]
fn hitting_obstacle_ends_run() {
    let mut s = playing(Player { x: 79, y: 5, velocity: 0 }, Obstacle::with_gap(80, 25, 0), 0);
    s.tick(75_001, None);
    assert_eq!(s.player.x, 80);
    assert_eq!(s.mode, GameMode::End);
    assert_eq!(s.score, 0);
}

#[test]
fn render_is_repeatable() {
    let s = playing(Player { x: 40, y: 12, velocity: 4 }, Obstacle::with_gap(80, 25, 0), 0);
    let a = s.render();
    let b = s.render();
    assert_eq!(a, b);
    assert_eq!(a.len(), 4 + 30);
    assert_eq!(a[0], Draw::ClearTo { bg: Color::Navy });
    assert_eq!(a[1], Draw::Glyph { x: 0, y: 12, fg: Color::Yellow, bg: Color::Black, glyph: '@' });
    assert_eq!(a[2], Draw::Print { x: 0, y: 0, text: "Press SPACE to flap." });
    assert_eq!(a[4], Draw::Glyph { x: 40, y: 0, fg: Color::Red, bg: Color::Black, glyph: '|' });
    let m = State::new();
    assert_eq!(m.render(), m.render());
    assert_eq!(m.render()[1], Draw::PrintCentered { y: 5, text: "Welcome to play flarrt dargon" });
}
