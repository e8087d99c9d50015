use vstd::prelude::*;

verus! {

/// Default number of columns of the simulated grid.
pub const GRID_WIDTH: usize = 250;

/// Default number of rows of the simulated grid.
pub const GRID_HEIGHT: usize = 250;

/// How cells are drawn: as flat colours or as images.
#[derive(Clone, Copy, PartialEq, Eq, Structural, Debug)]
pub enum Mode {
    Color,
    Image,
}

} // verus!
