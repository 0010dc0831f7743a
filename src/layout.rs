use vstd::prelude::*;

verus! {

/// Number of rows of the road.
pub const ROAD_HEIGHT: usize = 11;

/// Number of cells in each row of the road, walls included.
pub const ROAD_WIDTH: usize = 5;

/// Leftmost drivable column.
pub const LEFT_LANE: i32 = 1;

/// Rightmost drivable column.
pub const RIGHT_LANE: i32 = 3;

/// One cell of the road.
#[derive(Clone, Copy, Debug, PartialEq, Eq, Structural)]
pub enum Cell {
    Wall,
    Empty,
}

/// The cell that the fixed layout puts at column `c` of every row: walls at
/// both edges, drivable lanes between them.
pub open spec fn layout_cell(c: int) -> Cell {
    if c == 0 || c == ROAD_WIDTH - 1 {
        Cell::Wall
    } else {
        Cell::Empty
    }
}

/// One row of the fixed layout.
pub open spec fn layout_row() -> Seq<Cell> {
    Seq::new(ROAD_WIDTH as nat, |c: int| layout_cell(c))
}

/// The static road: an immutable grid of cells.
pub struct World {
    pub road: Vec<Vec<Cell>>,
}

impl View for World {
    type V = Seq<Seq<Cell>>;

    open spec fn view(&self) -> Seq<Seq<Cell>> {
        Seq::new(self.road@.len(), |r: int| self.road@[r]@)
    }
}

impl World {
    /// The road holds the fixed layout: `ROAD_HEIGHT` identical rows of
    /// `ROAD_WIDTH` cells.
    pub open spec fn wf(&self) -> bool {
        &&& self@.len() == ROAD_HEIGHT
        &&& forall|r: int| 0 <= r < ROAD_HEIGHT ==> #[trigger] self@[r] == layout_row()
    }

    /// Builds the fixed road layout.
    pub fn new() -> (w: World)
        ensures
            w.wf(),
    {
        let mut road: Vec<Vec<Cell>> = Vec::new();
        let mut r: usize = 0;
        while r < ROAD_HEIGHT
            invariant
                r <= ROAD_HEIGHT,
                road@.len() == r,
                forall|i: int| 0 <= i < r ==> (#[trigger] road@[i])@ == layout_row(),
            decreases ROAD_HEIGHT - r,
        {
            road.push(layout_row_cells());
            r = r + 1;
        }
        let w = World { road };
        assert(w@ =~= Seq::new(ROAD_HEIGHT as nat, |i: int| layout_row()));
        w
    }
}

/// Builds one row of the fixed layout.
fn layout_row_cells() -> (row: Vec<Cell>)
    ensures
        row@ == layout_row(),
{
    let mut row: Vec<Cell> = Vec::new();
    let mut c: usize = 0;
    while c < ROAD_WIDTH
        invariant
            c <= ROAD_WIDTH,
            row@ =~= Seq::new(c as nat, |i: int| layout_cell(i)),
        decreases ROAD_WIDTH - c,
    {
        if c == 0 || c == ROAD_WIDTH - 1 {
            row.push(Cell::Wall);
        } else {
            row.push(Cell::Empty);
        }
        c = c + 1;
    }
    row
}

} // verus!
