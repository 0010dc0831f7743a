use crate::actors::{Enemy, Player};
use crate::layout::{Cell, World, LEFT_LANE, RIGHT_LANE};
use vstd::prelude::*;
use vstd::string::StringExecFns;

verus! {

/// The character drawn for a bare road cell.
pub open spec fn cell_glyph(cell: Cell) -> char {
    match cell {
        Cell::Wall => '|',
        Cell::Empty => ' ',
    }
}

/// The character drawn at column `c` of row `line`, whose road cell is `cell`.
/// The car wins over the enemy where both stand; elsewhere the road shows.
pub open spec fn frame_glyph(cell: Cell, line: int, c: int, player: Player, enemy: Enemy) -> char {
    if line == player.lin && c == player.col && LEFT_LANE <= player.col <= RIGHT_LANE {
        'C'
    } else if line == enemy.lin && c == enemy.col {
        'Z'
    } else {
        cell_glyph(cell)
    }
}

/// The text of row `line` of a frame, whose road cells are `field`.
pub open spec fn row_text(field: Seq<Cell>, line: int, player: Player, enemy: Enemy) -> Seq<char> {
    Seq::new(field.len(), |c: int| frame_glyph(field[c], line, c, player, enemy))
}

/// Appends the one-character text `glyph` to `s`.
fn push_glyph(s: &mut String, glyph: &str)
    requires
        glyph@.len() == 1,
    ensures
        final(s)@ == old(s)@.push(glyph@[0]),
{
    s.append(glyph);
    assert(final(s)@ =~= old(s)@.push(glyph@[0]));
}

impl World {
    /// The text of row `line`, whose road cells are `field`, with the car
    /// and the enemy drawn over it.
    pub fn draw_field(&self, field: &Vec<Cell>, line: i32, player: &Player, enemy: &Enemy) -> (row: String)
        ensures
            row@ == row_text(field@, line as int, *player, *enemy),
    {
        let mut row = String::new();
        let mut c: usize = 0;
        while c < field.len()
            invariant
                c <= field@.len(),
                row@ =~= Seq::new(c as nat, |i: int| frame_glyph(field@[i], line as int, i, *player, *enemy)),
            decreases field@.len() - c,
        {
            let on_player = LEFT_LANE <= player.col && player.col <= RIGHT_LANE
                && line == player.lin && c == player.col as usize;
            let on_enemy = line == enemy.lin && 0 <= enemy.col && c == enemy.col as usize;
            if on_player {
                proof { reveal_strlit("C"); }
                push_glyph(&mut row, "C");
            } else if on_enemy {
                proof { reveal_strlit("Z"); }
                push_glyph(&mut row, "Z");
            } else {
                match field[c] {
                    Cell::Wall => {
                        proof { reveal_strlit("|"); }
                        push_glyph(&mut row, "|");
                    },
                    Cell::Empty => {
                        proof { reveal_strlit(" "); }
                        push_glyph(&mut row, " ");
                    },
                }
            }
            c = c + 1;
        }
        row
    }

    /// The text of every row of the road, top to bottom, with the car and
    /// the enemy drawn over it.
    pub fn draw_road(&self, player: &Player, enemy: &Enemy) -> (rows: Vec<String>)
        requires
            self@.len() <= i32::MAX,
        ensures
            rows@.len() == self@.len(),
            forall|r: int| 0 <= r < self@.len() ==>
                (#[trigger] rows@[r])@ == row_text(self@[r], r, *player, *enemy),
    {
        let mut rows: Vec<String> = Vec::new();
        let mut r: usize = 0;
        while r < self.road.len()
            invariant
                r <= self@.len(),
                self@.len() <= i32::MAX,
                rows@.len() == r,
                forall|i: int| 0 <= i < r ==>
                    (#[trigger] rows@[i])@ == row_text(self@[i], i, *player, *enemy),
            decreases self@.len() - r,
        {
            let text = self.draw_field(&self.road[r], r as i32, player, enemy);
            rows.push(text);
            r = r + 1;
        }
        rows
    }
}

} // verus!
