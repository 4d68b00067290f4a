//! The battlefield: a grid of cells.

use crate::battlefield::cell::Cell;
use crate::battlefield::cell::CellView;
use crate::results::GameError;
use crate::Dimension;
use crate::ShipTypeId;
use vstd::prelude::*;

verus! {

/// The mathematical model of a battlefield: its lines from top to bottom, each line holding
/// its cells from left to right. The cell at column `x` of line `y` is `grid[y][x]`.
pub type Grid = Seq<Seq<CellView>>;

/// Whether column `x` of line `y` exists in `grid`.
pub open spec fn in_bounds(grid: Grid, x: int, y: int) -> bool {
    0 <= y < grid.len() && 0 <= x < grid[y].len()
}

/// Whether `grid` is a rectangle of `height` lines by `width` columns.
pub open spec fn has_dimensions(grid: Grid, width: int, height: int) -> bool {
    &&& grid.len() == height
    &&& forall|y: int| 0 <= y < grid.len() ==> (#[trigger] grid[y]).len() == width
}

/// Whether `grid` is a playable battlefield: a rectangle of at least one column and at
/// least two lines.
pub open spec fn playable(grid: Grid) -> bool {
    &&& grid.len() >= 2
    &&& grid[0].len() >= 1
    &&& has_dimensions(grid, grid[0].len() as int, grid.len() as int)
}

/// The rectangle of `height` lines by `width` columns in which every cell is blank.
pub open spec fn blank_grid(width: int, height: int) -> Grid {
    Seq::new(height as nat, |y: int| Seq::new(width as nat, |x: int| CellView::blank()))
}

/// `grid` with the cell at column `x` of line `y` replaced by `cell`.
pub open spec fn with_cell(grid: Grid, x: int, y: int, cell: CellView) -> Grid {
    grid.update(y, grid[y].update(x, cell))
}

/// Whether every ship on `grid` is of one of the first `count` ship types.
pub open spec fn ships_known(grid: Grid, count: int) -> bool {
    forall|x: int, y: int|
        in_bounds(grid, x, y) ==> ((#[trigger] grid[y][x]).ship_type_id matches Some(id) ==> id
            < count)
}

/// The cells of `grid` that the ship of type `id` covers, each given by its column and line.
pub open spec fn ship_cells(grid: Grid, id: ShipTypeId) -> Set<(int, int)> {
    Set::new(|c: (int, int)| in_bounds(grid, c.0, c.1) && grid[c.1][c.0].ship_type_id == Some(id))
}

/// The cells of the ship of type `id` on `grid` that were not shot at: what is left of it.
pub open spec fn afloat(grid: Grid, id: ShipTypeId) -> Set<(int, int)> {
    Set::new(
        |c: (int, int)|
            in_bounds(grid, c.0, c.1) && grid[c.1][c.0].ship_type_id == Some(id)
                && !grid[c.1][c.0].shot,
    )
}

/// The battlefield of one player: a grid of cells of fixed size.
#[derive(PartialEq, Debug)]
pub struct Battlefield {
    cells: Vec<Vec<Cell>>,
}

impl View for Battlefield {
    type V = Grid;

    closed spec fn view(&self) -> Grid {
        grid_of(self.cells@)
    }
}

/// The grid that lines of cells stand for.
spec fn grid_of(cells: Seq<Vec<Cell>>) -> Grid {
    Seq::new(cells.len(), |y: int| Seq::new(cells[y]@.len(), |x: int| cells[y]@[x]@))
}

/// Replacing one cell in one line of cells replaces that cell in the grid they stand for.
proof fn lemma_grid_of_update(cells: Seq<Vec<Cell>>, x: int, y: int, line: Vec<Cell>, cell: Cell)
    requires
        0 <= y < cells.len(),
        0 <= x < cells[y]@.len(),
        line@ == cells[y]@.update(x, cell),
    ensures
        grid_of(cells.update(y, line)) == with_cell(grid_of(cells), x, y, cell@),
{
    assert(grid_of(cells.update(y, line)) =~~= with_cell(grid_of(cells), x, y, cell@));
}

/// The grids of a list of battlefields, one after the other.
pub open spec fn grids_of(battlefields: Seq<Battlefield>) -> Seq<Grid> {
    Seq::new(battlefields.len(), |i: int| battlefields[i]@)
}

impl Clone for Battlefield {
    /// Copies the battlefield cell by cell.
    fn clone(&self) -> (copy: Battlefield)
        ensures
            copy@ == self@,
    {
        let mut cells: Vec<Vec<Cell>> = Vec::new();
        let mut y: usize = 0;
        while y < self.cells.len()
            invariant
                y <= self.cells@.len(),
                cells@.len() == y,
                forall|j: int| 0 <= j < y ==> (#[trigger] cells@[j])@ == self.cells@[j]@,
            decreases self.cells@.len() - y,
        {
            let mut line: Vec<Cell> = Vec::new();
            let mut x: usize = 0;
            while x < self.cells[y].len()
                invariant
                    y < self.cells@.len(),
                    x <= self.cells@[y as int]@.len(),
                    line@.len() == x,
                    forall|i: int| 0 <= i < x ==> line@[i] == self.cells@[y as int]@[i],
                decreases self.cells@[y as int]@.len() - x,
            {
                line.push(self.cells[y][x]);
                x += 1;
            }
            assert(line@ =~= self.cells@[y as int]@);
            cells.push(line);
            y += 1;
        }
        let copy = Battlefield { cells };
        assert(copy@ =~~= self@);
        copy
    }
}

impl Battlefield {
    /// Whether this battlefield has the shape that `new` gives it.
    pub open spec fn wf(&self) -> bool {
        playable(self@)
    }

    /// The number of columns of a well-formed battlefield.
    pub open spec fn spec_width(&self) -> nat {
        self@[0].len()
    }

    /// The number of lines.
    pub open spec fn spec_height(&self) -> nat {
        self@.len()
    }

    /// Creates a battlefield of `width` columns and `height` lines on which every cell is
    /// empty and not shot at.
    ///
    /// # Errors
    /// * `IllegalDimensions` if `width` is less than 1 or `height` is less than 2.
    pub fn new(width: Dimension, height: Dimension) -> (result: Result<Battlefield, GameError>)
        ensures
            match result {
                Ok(battlefield) => {
                    &&& width >= 1
                    &&& height >= 2
                    &&& battlefield.wf()
                    &&& battlefield@ == blank_grid(width as int, height as int)
                },
                Err(error) => {
                    &&& width < 1 || height < 2
                    &&& error == GameError::IllegalDimensions
                },
            },
    {
        if width < 1 || height < 2 {
            Err(GameError::IllegalDimensions)
        } else {
            let battlefield = Battlefield { cells: Battlefield::init_cells(width, height) };
            assert(battlefield@ =~~= blank_grid(width as int, height as int));
            Ok(battlefield)
        }
    }

    fn init_cells(width: Dimension, height: Dimension) -> (cells: Vec<Vec<Cell>>)
        ensures
            cells@.len() == height,
            forall|y: int| 0 <= y < height ==> (#[trigger] cells@[y])@.len() == width,
            forall|y: int, x: int|
                0 <= y < height && 0 <= x < width ==> (#[trigger] cells@[y]@[x])@
                    == CellView::blank(),
    {
        let mut ret: Vec<Vec<Cell>> = Vec::new();
        let mut y: usize = 0;
        while y < height
            invariant
                y <= height,
                ret@.len() == y,
                forall|j: int| 0 <= j < y ==> (#[trigger] ret@[j])@.len() == width,
                forall|j: int, i: int|
                    0 <= j < y && 0 <= i < width ==> (#[trigger] ret@[j]@[i])@
                        == CellView::blank(),
            decreases height - y,
        {
            let mut line: Vec<Cell> = Vec::new();
            let mut x: usize = 0;
            while x < width
                invariant
                    x <= width,
                    line@.len() == x,
                    forall|i: int| 0 <= i < x ==> (#[trigger] line@[i])@ == CellView::blank(),
                decreases width - x,
            {
                line.push(Cell::new());
                x += 1;
            }
            ret.push(line);
            y += 1;
        }
        ret
    }

    /// Returns the number of columns.
    pub fn width(&self) -> (width: Dimension)
        requires
            self.wf(),
        ensures
            width == self.spec_width(),
    {
        self.cells[0].len()
    }

    /// Returns the number of lines.
    pub fn height(&self) -> (height: Dimension)
        ensures
            height == self.spec_height(),
    {
        self.cells.len()
    }

    /// Returns the cell at column `x` of line `y`, or nothing if there is no such cell.
    pub fn get_cell(&self, x: Dimension, y: Dimension) -> (cell: Option<&Cell>)
        ensures
            match cell {
                Some(c) => in_bounds(self@, x as int, y as int) && c@ == self@[y as int][x as int],
                None => !in_bounds(self@, x as int, y as int),
            },
    {
        if y < self.cells.len() && x < self.cells[y].len() {
            Some(&self.cells[y][x])
        } else {
            None
        }
    }

    /// Returns the cell at column `x` of line `y` for changing it, or nothing if there is no
    /// such cell. What is done to the cell is done to the battlefield; every other cell stays
    /// as it is.
    pub fn get_mut_cell(&mut self, x: Dimension, y: Dimension) -> (cell: Option<&mut Cell>)
        ensures
            match cell {
                Some(c) => {
                    &&& in_bounds(old(self)@, x as int, y as int)
                    &&& c@ == old(self)@[y as int][x as int]
                    &&& final(self)@ == with_cell(old(self)@, x as int, y as int, final(c)@)
                },
                None => {
                    &&& !in_bounds(old(self)@, x as int, y as int)
                    &&& final(self)@ == old(self)@
                },
            },
    {
        if y < self.cells.len() && x < self.cells[y].len() {
            proof {
                let cells = self.cells@;
                assert forall|line: Vec<Cell>, c: Cell|
                    #![trigger cells.update(y as int, line), cells[y as int]@.update(x as int, c)]
                    line@ == cells[y as int]@.update(x as int, c) implies grid_of(
                    cells.update(y as int, line),
                ) == with_cell(grid_of(cells), x as int, y as int, c@) by {
                    lemma_grid_of_update(cells, x as int, y as int, line, c);
                }
            }
            Some(&mut self.cells[y][x])
        } else {
            None
        }
    }
}

} // verus!
