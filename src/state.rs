use crate::config::Mode;
use crate::patterns::Pattern;
use crate::rules::RuleSet;
use vstd::prelude::*;

verus! {

/// One square of the grid.
#[derive(Clone, Copy, PartialEq, Eq, Structural, Debug)]
pub struct Cell {
    pub is_alive: bool,
    /// How many times the cell went from dead to alive (wrapping at `u32::MAX`).
    pub activation_count: u32,
}

/// The whole simulation: the grid, the scratch buffer of next states, and the
/// current selections.
pub struct GameState {
    /// Rows of cells, indexed `cells[y][x]`.
    pub cells: Vec<Vec<Cell>>,
    /// The alive/dead decision of the last generation, one entry per cell.
    pub next_cells: Vec<Vec<bool>>,
    pub mode: Mode,
    pub selected_pattern: Pattern,
    pub selected_rules: RuleSet,
}

/// The grid as a sequence of rows.
pub open spec fn grid_of(cells: Seq<Vec<Cell>>) -> Seq<Seq<Cell>> {
    cells.map_values(|row: Vec<Cell>| row@)
}

/// The boolean buffer as a sequence of rows.
pub open spec fn flags_of(rows: Seq<Vec<bool>>) -> Seq<Seq<bool>> {
    rows.map_values(|row: Vec<bool>| row@)
}

/// Number of rows.
pub open spec fn height_of<T>(g: Seq<Seq<T>>) -> int {
    g.len() as int
}

/// Number of columns (that of the first row).
pub open spec fn width_of<T>(g: Seq<Seq<T>>) -> int {
    if g.len() == 0 {
        0
    } else {
        g[0].len() as int
    }
}

/// A non-empty rectangle: at least one row, at least one column, all rows equally long.
pub open spec fn is_rectangular<T>(g: Seq<Seq<T>>) -> bool {
    &&& g.len() > 0
    &&& g[0].len() > 0
    &&& forall|y: int| 0 <= y < g.len() ==> (#[trigger] g[y]).len() == g[0].len()
}

/// Both grids have the same number of rows and each row the same length.
pub open spec fn same_shape<S, T>(a: Seq<Seq<S>>, b: Seq<Seq<T>>) -> bool {
    &&& a.len() == b.len()
    &&& forall|y: int| 0 <= y < a.len() ==> (#[trigger] a[y]).len() == b[y].len()
}

impl GameState {
    /// The grid is a non-empty rectangle and the scratch buffer has its shape.
    pub open spec fn wf(&self) -> bool {
        &&& is_rectangular(grid_of(self.cells@))
        &&& same_shape(grid_of(self.cells@), flags_of(self.next_cells@))
    }
}

} // verus!
