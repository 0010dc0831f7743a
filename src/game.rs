use crate::actors::{collides, detect_collision, steered, Direction, Enemy, Player, PLAYER_ROW, START_LANE};
use crate::layout::{World, LEFT_LANE, RIGHT_LANE, ROAD_HEIGHT};
use crate::random::gen_range_i32;
use crate::render::row_text;
use vstd::prelude::*;

verus! {

/// The row whose arrival of the enemy scores a point: the last row of the road.
pub const SCORE_ROW: i32 = 10;

/// A key that the game reacts to; every other key is ignored.
#[derive(Clone, Copy, Debug, PartialEq, Eq, Structural)]
pub enum Key {
    Left,
    Right,
    Exit,
}

/// Where the game stands after a tick.
#[derive(Clone, Copy, Debug, PartialEq, Eq, Structural)]
pub enum Status {
    Running,
    Dead,
    Exited,
}

/// The mathematical state of a game: everything but the road and the
/// random source.
pub ghost struct GameModel {
    pub alive: bool,
    pub score: nat,
    pub enemy_line: int,
    pub player: Player,
    pub enemy: Enemy,
}

impl GameModel {
    /// Both actors stand in a lane, the car on its row, the enemy on the
    /// current row of its cycle, and the game's alive flag mirrors the car's.
    pub open spec fn wf(self) -> bool {
        &&& self.player.lin == PLAYER_ROW
        &&& LEFT_LANE <= self.player.col <= RIGHT_LANE
        &&& LEFT_LANE <= self.enemy.col <= RIGHT_LANE
        &&& 0 <= self.enemy_line < ROAD_HEIGHT
        &&& self.enemy.lin == self.enemy_line
        &&& self.alive == self.player.is_alive
    }
}

/// The row that follows `line` in the enemy's cycle.
pub open spec fn next_line(line: int) -> int {
    (line + 1) % (ROAD_HEIGHT as int)
}

/// The state after the car reacts to `key`.
pub open spec fn after_key(m: GameModel, key: Option<Key>) -> GameModel {
    match key {
        Some(Key::Left) => GameModel {
            player: Player { col: steered(m.player.col as int, Direction::Left) as i32, ..m.player },
            ..m
        },
        Some(Key::Right) => GameModel {
            player: Player { col: steered(m.player.col as int, Direction::Right) as i32, ..m.player },
            ..m
        },
        _ => m,
    }
}

/// The state after the enemy moves one row down its cycle: it takes the lane
/// `fresh_lane` when the cycle wraps to the top, the car dies when the enemy
/// lands on its cell, and a living car scores when the enemy reaches the
/// last row.
pub open spec fn advanced(m: GameModel, fresh_lane: int) -> GameModel {
    let line = next_line(m.enemy_line);
    let enemy = Enemy {
        col: if line == 0 { fresh_lane as i32 } else { m.enemy.col },
        lin: line as i32,
    };
    let alive = m.player.is_alive && !collides(m.player, enemy);
    GameModel {
        alive,
        score: if line == SCORE_ROW && alive { m.score + 1 } else { m.score },
        enemy_line: line,
        player: Player { is_alive: alive, ..m.player },
        enemy,
    }
}

/// One tick of the game on `key`, with `fresh_lane` the lane that the enemy
/// takes should its cycle wrap. The exit key ends the game untouched; a dead
/// car only reacts to the key; otherwise the enemy advances.
pub open spec fn step(m: GameModel, key: Option<Key>, fresh_lane: int) -> (GameModel, Status) {
    if key == Some(Key::Exit) {
        (m, Status::Exited)
    } else {
        let moved = after_key(m, key);
        if !moved.alive {
            (moved, Status::Dead)
        } else {
            let next = advanced(moved, fresh_lane);
            (next, if next.alive { Status::Running } else { Status::Dead })
        }
    }
}

/// A running game: the actors, the score, the enemy's row cycle, the road,
/// and the random source that places the enemy.
pub struct GameState {
    pub is_alive: bool,
    pub score: u64,
    pub enemy_line: i32,
    pub rng: rand::rngs::ThreadRng,
    pub player: Player,
    pub enemy: Enemy,
    pub world: World,
}

impl View for GameState {
    type V = GameModel;

    open spec fn view(&self) -> GameModel {
        GameModel {
            alive: self.is_alive,
            score: self.score as nat,
            enemy_line: self.enemy_line as int,
            player: self.player,
            enemy: self.enemy,
        }
    }
}

impl GameState {
    /// The model is well formed and the road holds the fixed layout.
    pub open spec fn wf(&self) -> bool {
        self@.wf() && self.world.wf()
    }

    /// A new game: a living car in the middle lane, no score, the enemy at
    /// the top of the road in a lane drawn from `rng`.
    pub fn new(rng: rand::rngs::ThreadRng) -> (g: GameState)
        ensures
            g.wf(),
            g.is_alive,
            g.score == 0,
            g.enemy_line == 0,
            g.player.col == START_LANE,
    {
        let mut rng = rng;
        let enemy = Enemy::new(&mut rng);
        GameState {
            is_alive: true,
            score: 0,
            enemy_line: 0,
            rng,
            player: Player::default(),
            enemy,
            world: World::new(),
        }
    }

    /// A new game whose enemy starts at the top of the road in lane
    /// `enemy_lane`; `rng` places it on later cycles.
    pub fn start(rng: rand::rngs::ThreadRng, enemy_lane: i32) -> (g: GameState)
        requires
            LEFT_LANE <= enemy_lane <= RIGHT_LANE,
        ensures
            g.wf(),
            g.is_alive,
            g.score == 0,
            g.enemy_line == 0,
            g.player.col == START_LANE,
            g.enemy.col == enemy_lane,
    {
        GameState {
            is_alive: true,
            score: 0,
            enemy_line: 0,
            rng,
            player: Player::default(),
            enemy: Enemy { col: enemy_lane, lin: 0 },
            world: World::new(),
        }
    }

    /// Moves the enemy one row down its cycle, placing it in `fresh_lane`
    /// when the cycle wraps, then records a collision and scores.
    pub fn update_with(&mut self, fresh_lane: i32)
        requires
            old(self).wf(),
            LEFT_LANE <= fresh_lane <= RIGHT_LANE,
            old(self).score < u64::MAX,
        ensures
            final(self).wf(),
            final(self)@ == advanced(old(self)@, fresh_lane as int),
            final(self).world == old(self).world,
    {
        self.enemy_line = if self.enemy_line + 1 >= ROAD_HEIGHT as i32 { 0 } else { self.enemy_line + 1 };
        self.enemy.lin = self.enemy_line;
        if self.enemy_line == 0 {
            self.enemy.col = fresh_lane;
        }
        if detect_collision(&self.player, &self.enemy) {
            self.player.is_alive = false;
        }
        self.is_alive = self.player.is_alive;
        if self.enemy_line == SCORE_ROW && self.player.is_alive {
            self.score = self.score + 1;
        }
    }

    /// Moves the enemy one row down its cycle, drawing its lane from the
    /// game's random source when the cycle wraps, then records a collision
    /// and scores.
    pub fn update(&mut self)
        requires
            old(self).wf(),
            old(self).score < u64::MAX,
        ensures
            final(self).wf(),
            exists|lane: int|
                LEFT_LANE <= lane <= RIGHT_LANE && final(self)@ == #[trigger] advanced(old(self)@, lane),
            final(self).world == old(self).world,
    {
        let lane = if self.enemy_line + 1 >= ROAD_HEIGHT as i32 {
            gen_range_i32(&mut self.rng, LEFT_LANE, RIGHT_LANE + 1)
        } else {
            self.enemy.col
        };
        self.update_with(lane);
    }

    /// One tick of the game on `key` (`None` when no key was pressed), with
    /// `fresh_lane` the lane that the enemy takes should its cycle wrap.
    pub fn tick_with(&mut self, key: Option<Key>, fresh_lane: i32) -> (status: Status)
        requires
            old(self).wf(),
            LEFT_LANE <= fresh_lane <= RIGHT_LANE,
            old(self).score < u64::MAX,
        ensures
            final(self).wf(),
            (final(self)@, status) == step(old(self)@, key, fresh_lane as int),
            final(self).world == old(self).world,
    {
        match key {
            Some(Key::Exit) => {
                return Status::Exited;
            },
            Some(Key::Left) => self.player.steer(Direction::Left),
            Some(Key::Right) => self.player.steer(Direction::Right),
            None => {},
        }
        if !self.is_alive {
            return Status::Dead;
        }
        self.update_with(fresh_lane);
        if self.is_alive {
            Status::Running
        } else {
            Status::Dead
        }
    }

    /// One tick of the game on `key` (`None` when no key was pressed),
    /// drawing the enemy's lane from the game's random source should its
    /// cycle wrap.
    pub fn tick(&mut self, key: Option<Key>) -> (status: Status)
        requires
            old(self).wf(),
            old(self).score < u64::MAX,
        ensures
            final(self).wf(),
            exists|lane: int|
                LEFT_LANE <= lane <= RIGHT_LANE
                    && (final(self)@, status) == #[trigger] step(old(self)@, key, lane),
            final(self).world == old(self).world,
    {
        let lane = if self.enemy_line + 1 >= ROAD_HEIGHT as i32 {
            gen_range_i32(&mut self.rng, LEFT_LANE, RIGHT_LANE + 1)
        } else {
            self.enemy.col
        };
        self.tick_with(key, lane)
    }

    /// The text of every row of the current frame, top to bottom.
    pub fn draw_road(&self) -> (rows: Vec<String>)
        requires
            self.world.wf(),
        ensures
            rows@.len() == ROAD_HEIGHT,
            forall|r: int| 0 <= r < ROAD_HEIGHT ==>
                (#[trigger] rows@[r])@ == row_text(self.world@[r], r, self.player, self.enemy),
    {
        self.world.draw_road(&self.player, &self.enemy)
    }
}

} // verus!
