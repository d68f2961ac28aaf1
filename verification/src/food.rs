//! The food: one cell that the snake is after.

use vstd::prelude::*;

use crate::render::cell_square;
use crate::render::fits_screen;
use crate::render::Square;
use crate::snake::Snake;

verus! {

/// The food, by column and row.
pub struct Food {
    x: u32,
    y: u32,
}

impl View for Food {
    type V = (int, int);

    closed spec fn view(&self) -> (int, int) {
        (self.x as int, self.y as int)
    }
}

impl Food {
    /// Food at column `x`, row `y`.
    pub fn new(x: u32, y: u32) -> (food: Food)
        ensures
            food@ == (x as int, y as int),
    {
        Food { x, y }
    }

    /// The column of the food.
    pub fn x(&self) -> (x: u32)
        ensures
            x == self@.0,
    {
        self.x
    }

    /// The row of the food.
    pub fn y(&self) -> (y: u32)
        ensures
            y == self@.1,
    {
        self.y
    }

    /// Whether the head of the snake is on the food.
    pub fn update(&self, s: &Snake) -> (eaten: bool)
        requires
            s@.body.len() > 0,
        ensures
            eaten == (s@.head() == self@),
    {
        let front = s.head();
        front.0 == self.x && front.1 == self.y
    }

    /// The square that shows the food when cells are `width` pixels wide.
    pub fn render(&self, width: u32) -> (square: Square)
        requires
            fits_screen(self@, width as int),
        ensures
            square@ == cell_square(self@, width as int),
    {
        Square::of_cell(self.x, self.y, width)
    }
}

} // verus!
