use crate::actors::{steered, Direction};
use crate::game::{step, GameModel, Key, Status, SCORE_ROW};
use crate::layout::{LEFT_LANE, RIGHT_LANE, ROAD_HEIGHT};
use vstd::prelude::*;

verus! {

/// The column reached from `col` by the moves `dirs`, first to last.
pub open spec fn steer_all(col: int, dirs: Seq<Direction>) -> int
    decreases dirs.len(),
{
    if dirs.len() == 0 {
        col
    } else {
        steer_all(steered(col, dirs[0]), dirs.drop_first())
    }
}

/// The state reached from `m` by one tick per key of `keys`, the enemy
/// taking lane `lanes[i]` should its cycle wrap on tick `i`.
pub open spec fn run(m: GameModel, keys: Seq<Option<Key>>, lanes: Seq<int>) -> GameModel
    decreases keys.len(),
{
    if keys.len() == 0 {
        m
    } else {
        run(step(m, keys[0], lanes[0]).0, keys.drop_first(), lanes.drop_first())
    }
}

/// Every lane in `lanes` is drivable and there is one per key.
pub open spec fn lanes_fit(keys: Seq<Option<Key>>, lanes: Seq<int>) -> bool {
    &&& lanes.len() == keys.len()
    &&& forall|i: int| 0 <= i < lanes.len() ==> LEFT_LANE <= #[trigger] lanes[i] <= RIGHT_LANE
}

/// None of `keys` is the exit key.
pub open spec fn no_exit(keys: Seq<Option<Key>>) -> bool {
    forall|i: int| 0 <= i < keys.len() ==> #[trigger] keys[i] != Some(Key::Exit)
}

/// The number of points a living car scores while the enemy advances `n`
/// rows from row `line`: one for each arrival at the last row.
pub open spec fn points_for(line: int, n: nat) -> int {
    (line + n + 1) / (ROAD_HEIGHT as int) - (line + 1) / (ROAD_HEIGHT as int)
}

/// Whatever moves the car makes from a lane, it ends in a lane.
pub proof fn lemma_steering_stays_in_lanes(col: int, dirs: Seq<Direction>)
    requires
        LEFT_LANE <= col <= RIGHT_LANE,
    ensures
        LEFT_LANE <= steer_all(col, dirs) <= RIGHT_LANE,
    decreases dirs.len(),
{
    if dirs.len() > 0 {
        lemma_steering_stays_in_lanes(steered(col, dirs[0]), dirs.drop_first());
    }
}

/// A tick keeps a game well formed.
pub proof fn lemma_step_keeps_wf(m: GameModel, key: Option<Key>, lane: int)
    requires
        m.wf(),
        LEFT_LANE <= lane <= RIGHT_LANE,
    ensures
        step(m, key, lane).0.wf(),
{
}

/// The enemy changes lane only on a tick that brings it back to the top row.
pub proof fn lemma_enemy_lane_changes_only_on_wrap(m: GameModel, key: Option<Key>, lane: int)
    requires
        m.wf(),
    ensures
        step(m, key, lane).0.enemy.col != m.enemy.col ==> step(m, key, lane).0.enemy_line == 0
            && step(m, key, lane).0.enemy.lin == 0,
{
}

/// A tick on a dead game changes neither the score, nor the alive flags, nor
/// the enemy; on any key but a move, it changes nothing at all.
pub proof fn lemma_dead_tick_is_frozen(m: GameModel, key: Option<Key>, lane: int)
    requires
        m.wf(),
        !m.alive,
    ensures
        step(m, key, lane).0.score == m.score,
        !step(m, key, lane).0.alive,
        !step(m, key, lane).0.player.is_alive,
        step(m, key, lane).0.enemy == m.enemy,
        step(m, key, lane).0.enemy_line == m.enemy_line,
        step(m, key, lane).1 != Status::Running,
        key != Some(Key::Left) && key != Some(Key::Right) ==> step(m, key, lane).0 == m,
        key != Some(Key::Left) && key != Some(Key::Right) ==> step(step(m, key, lane).0, key, lane)
            == step(m, key, lane),
{
}

/// Over any run of ticks, a dead game keeps its score, its enemy, and stays
/// dead.
pub proof fn lemma_death_is_final(m: GameModel, keys: Seq<Option<Key>>, lanes: Seq<int>)
    requires
        m.wf(),
        !m.alive,
        lanes_fit(keys, lanes),
    ensures
        run(m, keys, lanes).wf(),
        !run(m, keys, lanes).alive,
        run(m, keys, lanes).score == m.score,
        run(m, keys, lanes).enemy == m.enemy,
        run(m, keys, lanes).enemy_line == m.enemy_line,
    decreases keys.len(),
{
    if keys.len() > 0 {
        lemma_dead_tick_is_frozen(m, keys[0], lanes[0]);
        lemma_step_keeps_wf(m, keys[0], lanes[0]);
        lemma_death_is_final(step(m, keys[0], lanes[0]).0, keys.drop_first(), lanes.drop_first());
    }
}

/// While the car survives and nobody exits, the enemy's row advances by one
/// per tick around a cycle of `ROAD_HEIGHT` rows, so a whole number of
/// cycles brings it back to where it was.
pub proof fn lemma_enemy_row_cycles(m: GameModel, keys: Seq<Option<Key>>, lanes: Seq<int>)
    requires
        m.wf(),
        lanes_fit(keys, lanes),
        no_exit(keys),
        run(m, keys, lanes).alive,
    ensures
        run(m, keys, lanes).enemy_line == (m.enemy_line + keys.len()) % (ROAD_HEIGHT as int),
        run(m, keys, lanes).enemy.lin == run(m, keys, lanes).enemy_line,
        keys.len() as int % (ROAD_HEIGHT as int) == 0 ==> run(m, keys, lanes).enemy_line == m.enemy_line,
    decreases keys.len(),
{
    if keys.len() > 0 {
        let m1 = step(m, keys[0], lanes[0]).0;
        lemma_step_keeps_wf(m, keys[0], lanes[0]);
        assert(keys[0] != Some(Key::Exit));
        if !m1.alive {
            lemma_death_is_final(m1, keys.drop_first(), lanes.drop_first());
        }
        assert(m.alive);
        lemma_enemy_row_cycles(m1, keys.drop_first(), lanes.drop_first());
        assert(m1.enemy_line == (m.enemy_line + 1) % 11);
    }
}

/// While the car survives and nobody exits, the score grows by one each
/// time the enemy reaches the last row, and by nothing otherwise.
pub proof fn lemma_score_counts_traversals(m: GameModel, keys: Seq<Option<Key>>, lanes: Seq<int>)
    requires
        m.wf(),
        lanes_fit(keys, lanes),
        no_exit(keys),
        run(m, keys, lanes).alive,
    ensures
        run(m, keys, lanes).score == m.score + points_for(m.enemy_line, keys.len()),
    decreases keys.len(),
{
    if keys.len() > 0 {
        let m1 = step(m, keys[0], lanes[0]).0;
        lemma_step_keeps_wf(m, keys[0], lanes[0]);
        assert(keys[0] != Some(Key::Exit));
        if !m1.alive {
            lemma_death_is_final(m1, keys.drop_first(), lanes.drop_first());
        }
        lemma_score_counts_traversals(m1, keys.drop_first(), lanes.drop_first());
        assert(SCORE_ROW == ROAD_HEIGHT - 1);
    }
}

} // verus!
