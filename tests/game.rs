use rand::thread_rng;
use road_racer::actors::{detect_collision, Direction, Enemy, Player, PLAYER_ROW, START_LANE};
use road_racer::game::{GameState, Key, Status, SCORE_ROW};
use road_racer::layout::{Cell, World, LEFT_LANE, RIGHT_LANE, ROAD_HEIGHT, ROAD_WIDTH};

fn ticks(g: &mut GameState, n: usize, lane: i32) -> Status {
    let mut status = Status::Running;
    for _ in 0..n {
        status = g.tick_with(None, lane);
    }
    status
}

#[test]
fn ten_left_moves_from_center_reach_left_lane() {
    let mut p = Player::default();
    for _ in 0..10 {
        p.steer(Direction::Left);
        assert!(p.col >= LEFT_LANE && p.col <= RIGHT_LANE);
    }
    assert_eq!(p.col, 1);
}

#[test]
fn right_moves_stop_at_right_lane() {
    let mut p = Player::default();
    p.steer(Direction::Right);
    assert_eq!(p.col, 3);
    p.steer(Direction::Right);
    assert_eq!(p.col, 3);
    p.steer(Direction::Left);
    assert_eq!(p.col, 2);
}

#[test]
fn mixed_moves_stay_in_lanes() {
    let mut p = Player::default();
    let moves = [
        Direction::Left,
        Direction::Right,
        Direction::Right,
        Direction::Right,
        Direction::Left,
        Direction::Left,
        Direction::Left,
        Direction::Left,
        Direction::Right,
    ];
    for d in moves {
        p.steer(d);
        assert!(p.col >= 1 && p.col <= 3);
    }
    assert_eq!(p.col, 2);
    assert_eq!(p.lin, PLAYER_ROW);
    assert!(p.is_alive);
}

#[test]
fn default_player_is_alive_in_center() {
    let p = Player::default();
    assert_eq!(p, Player { col: START_LANE, lin: 9, is_alive: true });
}

#[test]
fn collision_needs_same_cell() {
    let p = Player::default();
    assert!(detect_collision(&p, &Enemy { col: 2, lin: 9 }));
    assert!(!detect_collision(&p, &Enemy { col: 1, lin: 9 }));
    assert!(!detect_collision(&p, &Enemy { col: 2, lin: 8 }));
}

#[test]
fn world_has_fixed_layout() {
    let w = World::new();
    assert_eq!(w.road.len(), ROAD_HEIGHT);
    for row in &w.road {
        assert_eq!(row.len(), ROAD_WIDTH);
        assert_eq!(row, &vec![Cell::Wall, Cell::Empty, Cell::Empty, Cell::Empty, Cell::Wall]);
    }
}

#[test]
fn enemy_row_returns_after_22_ticks() {
    let mut g = GameState::start(thread_rng(), 1);
    assert_eq!(g.enemy_line, 0);
    let mut seen = Vec::new();
    for _ in 0..22 {
        assert_eq!(g.tick_with(None, 1), Status::Running);
        seen.push(g.enemy_line);
        assert_eq!(g.enemy.lin, g.enemy_line);
    }
    assert_eq!(g.enemy_line, 0);
    assert_eq!(seen[..11], [1, 2, 3, 4, 5, 6, 7, 8, 9, 10, 0]);
    assert_eq!(seen[..11], seen[11..]);
}

#[test]
fn enemy_lane_changes_only_on_wrap() {
    let mut g = GameState::start(thread_rng(), 1);
    for t in 1..=10 {
        assert_eq!(g.tick_with(None, 3), Status::Running);
        assert_eq!(g.enemy_line, t);
        assert_eq!(g.enemy.col, 1);
    }
    assert_eq!(g.tick_with(None, 3), Status::Running);
    assert_eq!(g.enemy_line, 0);
    assert_eq!(g.enemy.col, 3);
    g.tick_with(Some(Key::Left), 2);
    assert_eq!(g.enemy.col, 3);
}

#[test]
fn score_is_three_after_33_ticks() {
    let mut g = GameState::start(thread_rng(), 1);
    assert_eq!(ticks(&mut g, 10, 1), Status::Running);
    assert_eq!(g.score, 1);
    assert_eq!(g.enemy_line, SCORE_ROW);
    assert_eq!(ticks(&mut g, 23, 1), Status::Running);
    assert_eq!(g.score, 3);
    assert!(g.is_alive);
}

#[test]
fn collision_in_shared_lane_kills() {
    let mut g = GameState::start(thread_rng(), 2);
    assert_eq!(ticks(&mut g, 8, 2), Status::Running);
    assert!(g.is_alive);
    assert_eq!(g.tick_with(None, 2), Status::Dead);
    assert_eq!(g.enemy_line, 9);
    assert!(!g.is_alive);
    assert!(!g.player.is_alive);
    assert_eq!(g.score, 0);
}

#[test]
fn dodging_left_avoids_collision_and_scores() {
    let mut g = GameState::start(thread_rng(), 2);
    assert_eq!(g.tick_with(Some(Key::Left), 2), Status::Running);
    assert_eq!(g.player.col, 1);
    assert_eq!(ticks(&mut g, 8, 2), Status::Running);
    assert_eq!(g.enemy_line, 9);
    assert!(g.is_alive);
    assert_eq!(g.score, 0);
    assert_eq!(g.tick_with(None, 2), Status::Running);
    assert_eq!(g.score, 1);
}

#[test]
fn dodge_on_the_colliding_tick_saves_the_car() {
    let mut g = GameState::start(thread_rng(), 2);
    ticks(&mut g, 8, 2);
    assert_eq!(g.tick_with(Some(Key::Right), 2), Status::Running);
    assert_eq!(g.player.col, 3);
    assert!(g.is_alive);
}

#[test]
fn exit_key_at_tick_five_freezes_state() {
    let mut g = GameState::start(thread_rng(), 2);
    assert_eq!(ticks(&mut g, 4, 2), Status::Running);
    let before = (g.is_alive, g.score, g.enemy_line, g.player, g.enemy);
    assert_eq!(g.tick_with(Some(Key::Exit), 3), Status::Exited);
    assert_eq!((g.is_alive, g.score, g.enemy_line, g.player, g.enemy), before);
    assert_eq!(g.enemy_line, 4);
}

#[test]
fn exit_key_ends_a_dead_game_too() {
    let mut g = GameState::start(thread_rng(), 2);
    assert_eq!(ticks(&mut g, 9, 2), Status::Dead);
    let before = (g.is_alive, g.score, g.enemy_line, g.player, g.enemy);
    assert_eq!(g.tick_with(Some(Key::Exit), 1), Status::Exited);
    assert_eq!((g.is_alive, g.score, g.enemy_line, g.player, g.enemy), before);
}

#[test]
fn dead_game_is_frozen() {
    let mut g = GameState::start(thread_rng(), 2);
    assert_eq!(ticks(&mut g, 9, 2), Status::Dead);
    let dead = (g.is_alive, g.score, g.enemy_line, g.player, g.enemy);
    assert_eq!(g.tick_with(None, 1), Status::Dead);
    assert_eq!((g.is_alive, g.score, g.enemy_line, g.player, g.enemy), dead);
    assert_eq!(g.tick_with(None, 1), Status::Dead);
    assert_eq!((g.is_alive, g.score, g.enemy_line, g.player, g.enemy), dead);
    assert_eq!(ticks(&mut g, 30, 3), Status::Dead);
    assert_eq!((g.is_alive, g.score, g.enemy_line, g.player, g.enemy), dead);
}

#[test]
fn dead_car_still_steers_but_nothing_else_moves() {
    let mut g = GameState::start(thread_rng(), 2);
    assert_eq!(ticks(&mut g, 9, 2), Status::Dead);
    assert_eq!(g.tick_with(Some(Key::Left), 1), Status::Dead);
    assert_eq!(g.player.col, 1);
    assert_eq!(g.enemy, Enemy { col: 2, lin: 9 });
    assert_eq!(g.enemy_line, 9);
    assert_eq!(g.score, 0);
    assert!(!g.is_alive);
}

#[test]
fn update_with_places_enemy_on_wrap() {
    let mut g = GameState::start(thread_rng(), 1);
    for _ in 0..10 {
        g.update_with(3);
    }
    assert_eq!(g.enemy, Enemy { col: 1, lin: 10 });
    assert_eq!(g.score, 1);
    g.update_with(3);
    assert_eq!(g.enemy, Enemy { col: 3, lin: 0 });
    assert_eq!(g.enemy_line, 0);
}

#[test]
fn new_game_starts_alive_with_enemy_in_a_lane() {
    for _ in 0..50 {
        let g = GameState::new(thread_rng());
        assert!(g.is_alive);
        assert_eq!(g.score, 0);
        assert_eq!(g.enemy_line, 0);
        assert_eq!(g.enemy.lin, 0);
        assert!(g.enemy.col >= 1 && g.enemy.col <= 3);
        assert_eq!(g.player, Player::default());
    }
}

#[test]
fn random_enemy_lanes_cover_every_lane() {
    let mut rng = thread_rng();
    let mut seen = [false; 4];
    for _ in 0..300 {
        let e = Enemy::new(&mut rng);
        assert_eq!(e.lin, 0);
        assert!(e.col >= 1 && e.col <= 3);
        seen[e.col as usize] = true;
    }
    assert_eq!(seen, [false, true, true, true]);
}

#[test]
fn random_ticks_keep_the_game_in_shape() {
    let mut g = GameState::start(thread_rng(), 1);
    for t in 1..=330 {
        let status = g.tick(None);
        if status != Status::Running {
            assert_eq!(status, Status::Dead);
            assert_eq!(g.enemy_line, 9);
            assert_eq!(g.enemy.col, 2);
            return;
        }
        assert_eq!(g.enemy_line as usize, t % 11);
        assert!(g.enemy.col >= 1 && g.enemy.col <= 3);
    }
    assert_eq!(g.score, 30);
}

#[test]
fn update_draws_lane_on_wrap() {
    let mut g = GameState::start(thread_rng(), 1);
    for _ in 0..11 {
        g.update();
    }
    assert_eq!(g.enemy_line, 0);
    assert!(g.enemy.col >= 1 && g.enemy.col <= 3);
}
