use crate::layout::{LEFT_LANE, RIGHT_LANE};
use crate::random::gen_range_i32;
use vstd::prelude::*;

verus! {

/// The row of the road on which the player's car drives.
pub const PLAYER_ROW: i32 = 9;

/// The lane the player starts in.
pub const START_LANE: i32 = 2;

/// A sideways move of the player's car.
#[derive(Clone, Copy, Debug, PartialEq, Eq, Structural)]
pub enum Direction {
    Left,
    Right,
}

/// The column reached by one move from column `col`, kept within the lanes.
pub open spec fn steered(col: int, dir: Direction) -> int {
    match dir {
        Direction::Left => if col <= LEFT_LANE { LEFT_LANE as int } else { col - 1 },
        Direction::Right => if col >= RIGHT_LANE { RIGHT_LANE as int } else { col + 1 },
    }
}

/// The player's car.
#[derive(Clone, Copy, Debug, PartialEq, Eq, Structural)]
pub struct Player {
    pub col: i32,
    pub lin: i32,
    pub is_alive: bool,
}

impl Default for Player {
    /// A living car in the middle lane, on the player's row.
    fn default() -> (p: Player)
        ensures
            p.col == START_LANE,
            p.lin == PLAYER_ROW,
            p.is_alive,
    {
        Player { col: START_LANE, lin: PLAYER_ROW, is_alive: true }
    }
}

impl Player {
    /// Moves the car one lane in `dir`; a move into a wall leaves it where it is.
    pub fn steer(&mut self, dir: Direction)
        ensures
            final(self).col == steered(old(self).col as int, dir),
            final(self).lin == old(self).lin,
            final(self).is_alive == old(self).is_alive,
    {
        match dir {
            Direction::Left => {
                self.col = if self.col <= LEFT_LANE { LEFT_LANE } else { self.col - 1 };
            },
            Direction::Right => {
                self.col = if self.col >= RIGHT_LANE { RIGHT_LANE } else { self.col + 1 };
            },
        }
    }
}

/// The single enemy that falls down the road.
#[derive(Clone, Copy, Debug, PartialEq, Eq, Structural)]
pub struct Enemy {
    pub col: i32,
    pub lin: i32,
}

impl Enemy {
    /// An enemy at the top of the road, in a lane drawn from `rng`.
    pub fn new(rng: &mut rand::rngs::ThreadRng) -> (e: Enemy)
        ensures
            LEFT_LANE <= e.col <= RIGHT_LANE,
            e.lin == 0,
    {
        Enemy { col: gen_range_i32(rng, LEFT_LANE, RIGHT_LANE + 1), lin: 0 }
    }
}

/// The enemy and the car share a cell.
pub open spec fn collides(player: Player, enemy: Enemy) -> bool {
    enemy.lin == player.lin && enemy.col == player.col
}

/// Tells whether the enemy has hit the player's car.
pub fn detect_collision(player: &Player, enemy: &Enemy) -> (hit: bool)
    ensures
        hit == collides(*player, *enemy),
{
    enemy.lin == player.lin && enemy.col == player.col
}

} // verus!
