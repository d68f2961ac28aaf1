//! Where cells go on the screen: each cell is a square of a fixed side,
//! laid out from the top left corner of the window.

use vstd::prelude::*;

verus! {

/// A square on the screen in whole pixels: the corner nearest the origin,
/// and the side.
#[derive(Clone, Copy, PartialEq, Eq, Structural, Debug)]
pub struct Square {
    pub x: u32,
    pub y: u32,
    pub side: u32,
}

impl View for Square {
    type V = (int, int, int);

    open spec fn view(&self) -> (int, int, int) {
        (self.x as int, self.y as int, self.side as int)
    }
}

/// The square that shows `cell` when cells are `width` pixels wide, as
/// corner column, corner row and side.
pub open spec fn cell_square(cell: (int, int), width: int) -> (int, int, int) {
    (cell.0 * width, cell.1 * width, width)
}

/// Whether the square of `cell` can be written in `u32` pixels.
pub open spec fn fits_screen(cell: (int, int), width: int) -> bool {
    cell.0 * width <= u32::MAX && cell.1 * width <= u32::MAX
}

impl Square {
    /// The square that shows the cell at column `x`, row `y`.
    pub fn of_cell(x: u32, y: u32, width: u32) -> (square: Square)
        requires
            fits_screen((x as int, y as int), width as int),
        ensures
            square@ == cell_square((x as int, y as int), width as int),
    {
        Square { x: x * width, y: y * width, side: width }
    }
}

/// On a grid whose full width and height fit in `u32` pixels, so does the
/// square of every cell.
pub proof fn lemma_grid_fits_screen(cell: (int, int), cols: int, rows: int, width: int)
    requires
        0 <= cell.0 < cols,
        0 <= cell.1 < rows,
        0 <= width,
        cols * width <= u32::MAX,
        rows * width <= u32::MAX,
    ensures
        fits_screen(cell, width),
{
    assert(cell.0 * width <= cols * width) by (nonlinear_arith)
        requires
            0 <= cell.0 < cols,
            0 <= width,
    ;
    assert(cell.1 * width <= rows * width) by (nonlinear_arith)
        requires
            0 <= cell.1 < rows,
            0 <= width,
    ;
}

} // verus!
