//! The snake: its cells from head to tail, and its heading.

use std::collections::VecDeque;
use vstd::prelude::*;

use crate::direction::Direction;
use crate::grid::all_in_grid;
use crate::grid::in_grid;
use crate::render::cell_square;
use crate::render::fits_screen;
use crate::render::Square;

verus! {

/// One cell of the grid, as column then row.
#[derive(Clone, Copy, PartialEq, Eq, Structural, Debug)]
pub struct SnakePiece(pub u32, pub u32);

impl View for SnakePiece {
    type V = (int, int);

    open spec fn view(&self) -> (int, int) {
        (self.0 as int, self.1 as int)
    }
}

/// What a snake is to the rules: its cells from head to tail, its heading,
/// and the side in pixels of the squares it is drawn with.
#[verifier::ext_equal]
pub struct SnakeView {
    pub body: Seq<(int, int)>,
    pub direction: Direction,
    pub width: int,
}

impl SnakeView {
    /// A snake has at least a head, and no two of its cells coincide.
    pub open spec fn wf(self) -> bool {
        self.body.len() > 0 && self.body.no_duplicates()
    }

    /// Every cell of the snake lies on the grid.
    pub open spec fn within(self, cols: int, rows: int) -> bool {
        all_in_grid(self.body, cols, rows)
    }

    /// The cell of the head.
    pub open spec fn head(self) -> (int, int) {
        self.body[0]
    }

    /// Where the head would go on the next tick.
    pub open spec fn next_head(self) -> (int, int) {
        self.direction.step(self.head())
    }

    /// The cells that stay where they are over a tick: all of them when the
    /// snake grows, all but the tail when it only moves.
    pub open spec fn retained(self, just_eaten: bool) -> Seq<(int, int)> {
        if just_eaten {
            self.body
        } else {
            self.body.drop_last()
        }
    }

    /// Whether the next tick succeeds: the head stays on the grid and does
    /// not run into a cell that the snake keeps.
    pub open spec fn can_advance(self, just_eaten: bool, cols: int, rows: int) -> bool {
        in_grid(self.next_head(), cols, rows) && !self.retained(just_eaten).contains(
            self.next_head(),
        )
    }

    /// The snake after a successful tick.
    pub open spec fn advanced(self, just_eaten: bool) -> SnakeView {
        SnakeView {
            body: seq![self.next_head()] + self.retained(just_eaten),
            direction: self.direction,
            width: self.width,
        }
    }

    /// Whether the square of every cell can be written in `u32` pixels.
    pub open spec fn fits_screen(self) -> bool {
        forall|i: int| 0 <= i < self.body.len() ==> fits_screen(#[trigger] self.body[i], self.width)
    }

    /// The snake after a request to turn: a request to reverse is ignored,
    /// any other is taken.
    pub open spec fn turned(self, requested: Direction) -> SnakeView {
        SnakeView {
            body: self.body,
            direction: if requested == self.direction.spec_opposite() {
                self.direction
            } else {
                requested
            },
            width: self.width,
        }
    }
}

/// A tick that goes through leaves the snake in order and on the grid: its
/// cells are again pairwise distinct, since the new head is none of the
/// cells that stay. It is longer by one cell if it had just eaten, and as
/// long as before if not.
pub proof fn lemma_advanced_in_order(snake: SnakeView, just_eaten: bool, cols: int, rows: int)
    requires
        snake.wf(),
        snake.within(cols, rows),
        snake.can_advance(just_eaten, cols, rows),
    ensures
        snake.advanced(just_eaten).wf(),
        snake.advanced(just_eaten).within(cols, rows),
        snake.advanced(just_eaten).head() == snake.next_head(),
        snake.advanced(just_eaten).body.len() == snake.body.len() + if just_eaten {
            1int
        } else {
            0int
        },
{
    let kept = snake.retained(just_eaten);
    let after = snake.advanced(just_eaten).body;
    assert forall|i: int, j: int| 0 <= i < after.len() && 0 <= j < after.len() && i != j implies after[i]
        != after[j] by {
        if i > 0 && j > 0 {
            assert(after[i] == snake.body[i - 1]);
            assert(after[j] == snake.body[j - 1]);
        } else if i > 0 {
            assert(after[i] == kept[i - 1]);
        } else {
            assert(after[j] == kept[j - 1]);
        }
    }
    assert forall|i: int| 0 <= i < after.len() implies in_grid(#[trigger] after[i], cols, rows) by {
        if i > 0 {
            assert(after[i] == snake.body[i - 1]);
        }
    }
}

/// The snake. Its cells run from the head, at the front, to the tail.
pub struct Snake {
    snake_parts: VecDeque<SnakePiece>,
    width: u32,
    d: Direction,
}

impl View for Snake {
    type V = SnakeView;

    closed spec fn view(&self) -> SnakeView {
        SnakeView {
            body: self.snake_parts@.map_values(|p: SnakePiece| p@),
            direction: self.d,
            width: self.width as int,
        }
    }
}

impl Snake {
    /// A snake of one cell at column `x`, row `y`.
    pub fn new(x: u32, y: u32, width: u32, d: Direction) -> (snake: Snake)
        ensures
            snake@.body == seq![(x as int, y as int)],
            snake@.direction == d,
            snake@.width == width,
            snake@.wf(),
    {
        let mut snake_parts: VecDeque<SnakePiece> = VecDeque::new();
        snake_parts.push_front(SnakePiece(x, y));
        let snake = Snake { snake_parts, width, d };
        assert(snake@.body =~= seq![(x as int, y as int)]);
        snake
    }

    /// The number of cells.
    pub fn len(&self) -> (n: usize)
        ensures
            n == self@.body.len(),
    {
        self.snake_parts.len()
    }

    /// The cell of the head.
    pub fn head(&self) -> (front: SnakePiece)
        requires
            self@.body.len() > 0,
        ensures
            front@ == self@.head(),
    {
        self.snake_parts[0]
    }

    /// The heading.
    pub fn direction(&self) -> (d: Direction)
        ensures
            d == self@.direction,
    {
        self.d
    }

    /// The side in pixels of the squares the snake is drawn with.
    pub fn width(&self) -> (width: u32)
        ensures
            width == self@.width,
    {
        self.width
    }

    /// Whether every cell of the snake lies on a grid of `cols` columns and
    /// `rows` rows.
    pub fn is_within(&self, cols: u32, rows: u32) -> (within: bool)
        ensures
            within == self@.within(cols as int, rows as int),
    {
        let n = self.snake_parts.len();
        let mut i: usize = 0;
        while i < n
            invariant
                i <= n == self.snake_parts@.len(),
                forall|j: int|
                    0 <= j < i ==> in_grid(#[trigger] self@.body[j], cols as int, rows as int),
            decreases n - i,
        {
            let p = self.snake_parts[i];
            assert(p@ == self@.body[i as int]);
            if p.0 >= cols || p.1 >= rows {
                return false;
            }
            i += 1;
        }
        true
    }

    /// The cells from head to tail.
    pub fn cells(&self) -> (cells: Vec<SnakePiece>)
        ensures
            cells@.map_values(|p: SnakePiece| p@) == self@.body,
    {
        let mut cells: Vec<SnakePiece> = Vec::new();
        let n = self.snake_parts.len();
        let mut i: usize = 0;
        while i < n
            invariant
                i <= n == self.snake_parts@.len(),
                cells@ == self.snake_parts@.take(i as int),
            decreases n - i,
        {
            cells.push(self.snake_parts[i]);
            assert(self.snake_parts@.take(i + 1) =~= self.snake_parts@.take(i as int).push(
                self.snake_parts@[i as int],
            ));
            i += 1;
        }
        assert(self.snake_parts@.take(n as int) =~= self.snake_parts@);
        cells
    }

    /// Asks the snake to head in `requested`. A request to turn right round
    /// is ignored; any other is taken.
    pub fn set_direction(&mut self, requested: Direction)
        ensures
            final(self)@ == old(self)@.turned(requested),
            requested == old(self)@.direction.spec_opposite() ==> final(self)@.direction == old(
                self,
            )@.direction,
            requested != old(self)@.direction.spec_opposite() ==> final(self)@.direction
                == requested,
    {
        if requested != self.d.opposite() {
            self.d = requested;
        }
    }

    /// The squares that show the snake, from head to tail.
    pub fn render(&self) -> (squares: Vec<Square>)
        requires
            self@.fits_screen(),
        ensures
            squares@.len() == self@.body.len(),
            forall|i: int|
                0 <= i < squares@.len() ==> (#[trigger] squares@[i])@ == cell_square(
                    self@.body[i],
                    self@.width,
                ),
    {
        let mut squares: Vec<Square> = Vec::new();
        let n = self.snake_parts.len();
        let mut i: usize = 0;
        while i < n
            invariant
                i <= n == self.snake_parts@.len(),
                self@.fits_screen(),
                squares@.len() == i,
                forall|j: int|
                    0 <= j < i ==> (#[trigger] squares@[j])@ == cell_square(
                        self@.body[j],
                        self@.width,
                    ),
            decreases n - i,
        {
            let p = self.snake_parts[i];
            assert(p@ == self@.body[i as int]);
            squares.push(Square::of_cell(p.0, p.1, self.width));
            i += 1;
        }
        squares
    }

    /// Whether one of the first `n` cells, counted from the head, is the
    /// cell at column `x`, row `y`.
    fn hits_first(&self, x: u32, y: u32, n: usize) -> (hit: bool)
        requires
            n <= self@.body.len(),
        ensures
            hit == self@.body.take(n as int).contains((x as int, y as int)),
    {
        let ghost cell = (x as int, y as int);
        let ghost body = self@.body;
        let mut i: usize = 0;
        while i < n
            invariant
                i <= n <= self.snake_parts@.len(),
                body == self@.body,
                cell == (x as int, y as int),
                forall|j: int| 0 <= j < i ==> body[j] != cell,
            decreases n - i,
        {
            let p = self.snake_parts[i];
            if x == p.0 && y == p.1 {
                assert(body.take(n as int)[i as int] == cell);
                return true;
            }
            i += 1;
        }
        false
    }

    /// Whether the snake lies on the cell at column `x`, row `y`.
    pub fn is_collide(&self, x: u32, y: u32) -> (hit: bool)
        ensures
            hit == self@.body.contains((x as int, y as int)),
    {
        assert(self@.body.take(self@.body.len() as int) =~= self@.body);
        self.hits_first(x, y, self.snake_parts.len())
    }

    /// Moves the snake one cell in its heading, on a grid of `cols` columns
    /// and `rows` rows. With `just_eaten` the tail stays and the snake grows
    /// by one cell; without it the tail cell is given up, and the head may
    /// take it. The move fails, and leaves the snake as it was, when the
    /// head would leave the grid or run into a cell that the snake keeps.
    /// Either way the cells of the snake are pairwise distinct afterwards.
    pub fn update(&mut self, just_eaten: bool, cols: u32, rows: u32) -> (ok: bool)
        requires
            old(self)@.wf(),
            old(self)@.within(cols as int, rows as int),
        ensures
            ok == old(self)@.can_advance(just_eaten, cols as int, rows as int),
            ok ==> final(self)@ == old(self)@.advanced(just_eaten),
            !ok ==> final(self)@ == old(self)@,
            final(self)@.wf(),
            final(self)@.within(cols as int, rows as int),
            !just_eaten ==> final(self)@.body.len() == old(self)@.body.len(),
            just_eaten && ok ==> final(self)@.body.len() == old(self)@.body.len() + 1,
    {
        let front: SnakePiece = self.snake_parts[0];
        assert(front@ == self@.head());

        if (self.d == Direction::UP && front.1 == 0) || (self.d == Direction::LEFT && front.0 == 0)
            || (self.d == Direction::DOWN && front.1 == rows - 1) || (self.d == Direction::RIGHT
            && front.0 == cols - 1) {
            return false;
        }
        let new_front = match self.d {
            Direction::UP => SnakePiece(front.0, front.1 - 1),
            Direction::DOWN => SnakePiece(front.0, front.1 + 1),
            Direction::LEFT => SnakePiece(front.0 - 1, front.1),
            Direction::RIGHT => SnakePiece(front.0 + 1, front.1),
        };
        assert(new_front@ == self@.next_head());

        let len = self.snake_parts.len();
        let kept: usize = if just_eaten {
            len
        } else {
            len - 1
        };
        assert(self@.body.take(kept as int) =~= self@.retained(just_eaten));
        if self.hits_first(new_front.0, new_front.1, kept) {
            return false;
        }
        if !just_eaten {
            self.snake_parts.pop_back();
        }
        self.snake_parts.push_front(new_front);

        proof {
            let before = old(self)@;
            assert(self@.body =~= before.advanced(just_eaten).body);
            lemma_advanced_in_order(before, just_eaten, cols as int, rows as int);
        }
        true
    }
}

} // verus!
