//! The game: one snake, one piece of food, and the score, moved on by
//! ticks and steered by key presses.

use vstd::prelude::*;

use crate::direction::Direction;
use crate::direction::Key;
use crate::food::Food;
use crate::grid::has_free_cell;
use crate::grid::in_grid;
use crate::grid::is_first_free;
use crate::grid::lemma_cells_fit_grid;
use crate::grid::lemma_free_cell_iff_room;
use crate::grid::reads_before;
use crate::random::gen_range;
use crate::random::thread_rng;
use crate::render::cell_square;
use crate::render::fits_screen;
use crate::render::lemma_grid_fits_screen;
use crate::render::Square;
use crate::snake::lemma_advanced_in_order;
use crate::snake::Snake;
use crate::snake::SnakeView;

verus! {

/// Columns of the standard grid.
pub const COLS: u32 = 30;

/// Rows of the standard grid.
pub const ROWS: u32 = 20;

/// Side in pixels of one cell of the standard game.
pub const SQUARE_WIDTH: u32 = 20;

/// Ticks per second at which the standard game is meant to run.
pub const UPDATES_PER_SECOND: u64 = 10;

/// How many cells are drawn at random for one new piece of food before the
/// first free cell is taken instead. A draw is wasted when it hits the
/// snake, and the count makes sure that placing food always ends.
pub const MAX_DRAWS: u32 = 1048576;

/// What a game is to the rules.
#[verifier::ext_equal]
pub struct GameView {
    pub cols: int,
    pub rows: int,
    pub square_width: int,
    pub snake: SnakeView,
    pub food: (int, int),
    /// Set by the tick on which the head reached the food, and used up by
    /// the tick after it, which lets the snake grow and counts the point.
    pub just_eaten: bool,
    pub score: int,
    /// Whether the game has ended. A game that has ended stays so.
    pub over: bool,
}

impl GameView {
    /// The game as it starts: nothing eaten yet, no points.
    pub open spec fn start(
        cols: int,
        rows: int,
        square_width: int,
        snake: SnakeView,
        food: (int, int),
    ) -> GameView {
        GameView {
            cols,
            rows,
            square_width,
            snake,
            food,
            just_eaten: false,
            score: 0,
            over: false,
        }
    }

    /// The standard game as it starts: a snake of one cell in the middle of
    /// the standard grid, heading down, and the food near the top left
    /// corner.
    pub open spec fn standard() -> GameView {
        GameView::start(
            COLS as int,
            ROWS as int,
            SQUARE_WIDTH as int,
            SnakeView {
                body: seq![(COLS as int / 2, ROWS as int / 2)],
                direction: Direction::DOWN,
                width: SQUARE_WIDTH as int,
            },
            (1, 1),
        )
    }

    /// Snake and food lie on the grid, the snake is in order, the score is
    /// below the length of the snake, and the numbers of cells and of pixels
    /// fit in `u32`.
    pub open spec fn wf(self) -> bool {
        &&& self.snake.wf()
        &&& self.snake.within(self.cols, self.rows)
        &&& in_grid(self.food, self.cols, self.rows)
        &&& 0 <= self.score < self.snake.body.len()
        &&& self.cols * self.rows <= u32::MAX
        &&& 0 <= self.square_width
        &&& self.cols * self.square_width <= u32::MAX
        &&& self.rows * self.square_width <= u32::MAX
        &&& 0 <= self.snake.width
        &&& self.cols * self.snake.width <= u32::MAX
        &&& self.rows * self.snake.width <= u32::MAX
    }

    /// The same game with the food at `food`.
    pub open spec fn with_food(self, food: (int, int)) -> GameView {
        GameView { food, ..self }
    }

    /// The game after a key press: an arrow key asks the snake to turn, any
    /// other key does nothing.
    pub open spec fn pressed(self, key: Key) -> GameView {
        match key.spec_direction() {
            Some(requested) => GameView { snake: self.snake.turned(requested), ..self },
            None => self,
        }
    }

    /// The same game, ended.
    pub open spec fn ended(self) -> GameView {
        GameView { over: true, ..self }
    }

    /// Whether the next tick goes through: the game is still running, and
    /// the snake can advance.
    pub open spec fn can_tick(self) -> bool {
        !self.over && self.snake.can_advance(self.just_eaten, self.cols, self.rows)
    }

    /// Whether the food lies where new food may lie on this game's grid:
    /// on a free cell, or, where the snake covers the grid, where the food
    /// `before` was.
    pub open spec fn food_placed(self, before: (int, int)) -> bool {
        if has_free_cell(self.snake.body, self.cols, self.rows) {
            in_grid(self.food, self.cols, self.rows) && !self.snake.body.contains(self.food)
        } else {
            self.food == before
        }
    }

    /// Whether `next` is a state that a tick that goes through may lead to.
    /// The game is running and goes on running. The snake advances, growing
    /// if it had just eaten, in which case the point is counted too. If the
    /// head is now on the food, that is noted for the next tick and new food
    /// is placed. Where the new food lies is up to chance, so a game has
    /// more than one next state.
    pub open spec fn ticks_to(self, next: GameView) -> bool {
        &&& !self.over
        &&& !next.over
        &&& next.cols == self.cols
        &&& next.rows == self.rows
        &&& next.square_width == self.square_width
        &&& next.snake == self.snake.advanced(self.just_eaten)
        &&& next.score == self.score + if self.just_eaten {
            1int
        } else {
            0int
        }
        &&& next.just_eaten == (next.snake.head() == self.food)
        &&& if next.just_eaten {
            next.food_placed(self.food)
        } else {
            next.food == self.food
        }
    }
}

/// One game of snake: the grid, the snake, the food, the score, and
/// whether the game is still running.
pub struct Game {
    rows: u32,
    cols: u32,
    snake: Snake,
    just_eaten: bool,
    square_width: u32,
    food: Food,
    score: u32,
    over: bool,
}

impl View for Game {
    type V = GameView;

    closed spec fn view(&self) -> GameView {
        GameView {
            cols: self.cols as int,
            rows: self.rows as int,
            square_width: self.square_width as int,
            snake: self.snake@,
            food: self.food@,
            just_eaten: self.just_eaten,
            score: self.score as int,
            over: self.over,
        }
    }
}

/// What is to be drawn for one game: the squares of the snake from head to
/// tail, and the square of the food.
pub struct Frame {
    pub snake: Vec<Square>,
    pub food: Square,
}

impl Game {
    /// A game on a grid of `cols` columns and `rows` rows, drawn with
    /// squares of `square_width` pixels, that starts from `snake` and
    /// `food`. There is no such game, and `None` comes back, when snake or
    /// food lie off the grid or one of the sizes does not fit in `u32`.
    pub fn new(cols: u32, rows: u32, square_width: u32, snake: Snake, food: Food) -> (game: Option<
        Game,
    >)
        requires
            snake@.wf(),
        ensures
            game.is_some() == GameView::start(
                cols as int,
                rows as int,
                square_width as int,
                snake@,
                food@,
            ).wf(),
            game matches Some(g) ==> g@ == GameView::start(
                cols as int,
                rows as int,
                square_width as int,
                snake@,
                food@,
            ),
    {
        let width = snake.width();
        if !snake.is_within(cols, rows) {
            return None;
        }
        if food.x() >= cols || food.y() >= rows {
            return None;
        }
        let limit: u64 = u32::MAX as u64;
        assert(cols * rows <= 0xffff_ffff * 0xffff_ffff && cols * square_width <= 0xffff_ffff
            * 0xffff_ffff && rows * square_width <= 0xffff_ffff * 0xffff_ffff && cols * width
            <= 0xffff_ffff * 0xffff_ffff && rows * width <= 0xffff_ffff * 0xffff_ffff)
            by (nonlinear_arith)
            requires
                0 <= cols <= 0xffff_ffff,
                0 <= rows <= 0xffff_ffff,
                0 <= square_width <= 0xffff_ffff,
                0 <= width <= 0xffff_ffff,
        ;
        if cols as u64 * rows as u64 > limit {
            return None;
        }
        if cols as u64 * square_width as u64 > limit || rows as u64 * square_width as u64 > limit {
            return None;
        }
        if cols as u64 * width as u64 > limit || rows as u64 * width as u64 > limit {
            return None;
        }
        Some(
            Game {
                rows,
                cols,
                snake,
                just_eaten: false,
                square_width,
                food,
                score: 0,
                over: false,
            },
        )
    }

    /// The standard game: a grid of `COLS` by `ROWS` cells of `SQUARE_WIDTH`
    /// pixels, a snake of one cell in the middle of it, heading down, and
    /// the food at column 1, row 1.
    pub fn standard() -> (game: Game)
        ensures
            game@ == GameView::standard(),
            game@.wf(),
    {
        let snake = Snake::new(COLS / 2, ROWS / 2, SQUARE_WIDTH, Direction::DOWN);
        let food = Food::new(1, 1);
        proof {
            assert(snake@.body[0] == (15int, 10int));
            assert(GameView::standard().wf()) by (nonlinear_arith)
                requires
                    GameView::standard().snake == snake@,
                    snake@.wf(),
                    snake@.within(30, 20),
                    snake@.body.len() == 1,
                    snake@.width == 20,
            {
            }
        }
        let game = Game::new(COLS, ROWS, SQUARE_WIDTH, snake, food);
        game.unwrap()
    }

    /// The number of columns of the grid.
    pub fn cols(&self) -> (cols: u32)
        ensures
            cols == self@.cols,
    {
        self.cols
    }

    /// The number of rows of the grid.
    pub fn rows(&self) -> (rows: u32)
        ensures
            rows == self@.rows,
    {
        self.rows
    }

    /// The side of one cell in pixels.
    pub fn square_width(&self) -> (width: u32)
        ensures
            width == self@.square_width,
    {
        self.square_width
    }

    /// The snake.
    pub fn snake(&self) -> (snake: &Snake)
        ensures
            snake@ == self@.snake,
    {
        &self.snake
    }

    /// The food.
    pub fn food(&self) -> (food: &Food)
        ensures
            food@ == self@.food,
    {
        &self.food
    }

    /// Whether the head reached the food on the last tick.
    pub fn just_eaten(&self) -> (just_eaten: bool)
        ensures
            just_eaten == self@.just_eaten,
    {
        self.just_eaten
    }

    /// Whether the game has ended.
    pub fn is_over(&self) -> (over: bool)
        ensures
            over == self@.over,
    {
        self.over
    }

    /// The points so far.
    pub fn score(&self) -> (score: u32)
        ensures
            score == self@.score,
    {
        self.score
    }

    /// Width and height in pixels of the window that shows the whole grid.
    pub fn window_size(&self) -> (size: (u32, u32))
        requires
            self@.wf(),
        ensures
            size.0 == self@.cols * self@.square_width,
            size.1 == self@.rows * self@.square_width,
    {
        (self.cols * self.square_width, self.rows * self.square_width)
    }

    /// What is to be drawn: a square for each cell of the snake, and one
    /// for the food.
    pub fn render(&self) -> (frame: Frame)
        requires
            self@.wf(),
        ensures
            frame.snake@.len() == self@.snake.body.len(),
            forall|i: int|
                0 <= i < frame.snake@.len() ==> (#[trigger] frame.snake@[i])@ == cell_square(
                    self@.snake.body[i],
                    self@.snake.width,
                ),
            frame.food@ == cell_square(self@.food, self@.square_width),
    {
        proof {
            let v = self@;
            assert forall|i: int| 0 <= i < v.snake.body.len() implies fits_screen(
                #[trigger] v.snake.body[i],
                v.snake.width,
            ) by {
                lemma_grid_fits_screen(v.snake.body[i], v.cols, v.rows, v.snake.width);
            }
            lemma_grid_fits_screen(v.food, v.cols, v.rows, v.square_width);
        }
        Frame { snake: self.snake.render(), food: self.food.render(self.square_width) }
    }

    /// Takes a key press: an arrow key asks the snake to turn, and the snake
    /// ignores a request to turn right round; any other key does nothing.
    pub fn pressed(&mut self, key: Key)
        ensures
            final(self)@ == old(self)@.pressed(key),
            old(self)@.wf() ==> final(self)@.wf(),
    {
        match key.direction() {
            Some(requested) => {
                self.snake.set_direction(requested);
            },
            None => {},
        }
    }

    /// Puts the food on the cell at column `x`, row `y`, if that is a cell
    /// of the grid and the snake is not on it. Otherwise nothing changes.
    pub fn place_food(&mut self, x: u32, y: u32) -> (placed: bool)
        ensures
            placed == (in_grid((x as int, y as int), old(self)@.cols, old(self)@.rows)
                && !old(self)@.snake.body.contains((x as int, y as int))),
            placed ==> final(self)@ == old(self)@.with_food((x as int, y as int)),
            !placed ==> final(self)@ == old(self)@,
            old(self)@.wf() ==> final(self)@.wf(),
    {
        if x >= self.cols || y >= self.rows {
            return false;
        }
        if self.snake.is_collide(x, y) {
            return false;
        }
        self.food = Food::new(x, y);
        true
    }

    /// Puts the food on the first cell, read row by row from the top left,
    /// that the snake is not on. Where the snake covers the grid, nothing
    /// changes.
    pub fn place_food_first_free(&mut self) -> (placed: bool)
        ensures
            placed == has_free_cell(old(self)@.snake.body, old(self)@.cols, old(self)@.rows),
            placed ==> is_first_free(
                final(self)@.food,
                old(self)@.snake.body,
                old(self)@.cols,
                old(self)@.rows,
            ),
            final(self)@ == old(self)@.with_food(final(self)@.food),
            !placed ==> final(self)@ == old(self)@,
            old(self)@.wf() ==> final(self)@.wf(),
    {
        let ghost start = self@;
        let ghost body = self@.snake.body;
        let mut y: u32 = 0;
        while y < self.rows
            invariant
                self@ == start,
                start == old(self)@,
                body == start.snake.body,
                y <= self.rows,
                forall|cell: (int, int)|
                    in_grid(cell, start.cols, start.rows) && cell.1 < y ==> #[trigger] body.contains(
                        cell,
                    ),
            decreases self.rows - y,
        {
            let mut x: u32 = 0;
            while x < self.cols
                invariant
                    self@ == start,
                    start == old(self)@,
                    body == start.snake.body,
                    y < self.rows,
                    x <= self.cols,
                    forall|cell: (int, int)|
                        in_grid(cell, start.cols, start.rows) && reads_before(
                            cell,
                            (x as int, y as int),
                        ) ==> #[trigger] body.contains(cell),
                decreases self.cols - x,
            {
                if !self.snake.is_collide(x, y) {
                    self.food = Food::new(x, y);
                    assert(in_grid((x as int, y as int), start.cols, start.rows));
                    return true;
                }
                x += 1;
            }
            y += 1;
        }
        false
    }

    /// Places new food on a cell that the snake is not on, chosen at random.
    /// Cells of the grid are drawn until one is free; after `MAX_DRAWS`
    /// wasted draws the first free cell is taken. Where the snake covers the
    /// grid there is no free cell, and the food stays where it is.
    pub fn respawn(&mut self) -> (placed: bool)
        requires
            old(self)@.wf(),
        ensures
            placed == has_free_cell(old(self)@.snake.body, old(self)@.cols, old(self)@.rows),
            placed ==> in_grid(final(self)@.food, old(self)@.cols, old(self)@.rows)
                && !final(self)@.snake.body.contains(final(self)@.food),
            !placed ==> final(self)@ == old(self)@,
            final(self)@ == old(self)@.with_food(final(self)@.food),
            final(self)@.wf(),
    {
        let ghost start = self@;
        proof {
            lemma_free_cell_iff_room(start.snake.body, start.cols, start.rows);
        }
        let cells: u64 = self.cols as u64 * self.rows as u64;
        if self.snake.len() as u64 >= cells {
            return false;
        }
        let mut rng = thread_rng();
        let mut draws: u32 = 0;
        while draws < MAX_DRAWS
            invariant
                self@ == start,
                start == old(self)@,
                start.wf(),
                has_free_cell(start.snake.body, start.cols, start.rows),
            decreases MAX_DRAWS - draws,
        {
            let new_x = gen_range(&mut rng, 0, self.cols);
            let new_y = gen_range(&mut rng, 0, self.rows);
            if self.place_food(new_x, new_y) {
                return true;
            }
            draws += 1;
        }
        self.place_food_first_free()
    }

    /// One tick. The snake advances; if it cannot, the game ends: `false`
    /// comes back, and but for that the game is as it was. A game that has
    /// ended does not tick, and answers `false` again. If the snake had just
    /// eaten, it has grown by this move, and the point is counted now, one
    /// tick after the meal. If the head is now on the food, that is noted
    /// for the next tick and new food is placed.
    pub fn update(&mut self) -> (ok: bool)
        requires
            old(self)@.wf(),
        ensures
            ok == old(self)@.can_tick(),
            ok ==> old(self)@.ticks_to(final(self)@),
            !ok ==> final(self)@ == old(self)@.ended(),
            old(self)@.over ==> final(self)@ == old(self)@,
            final(self)@.wf(),
    {
        if self.over {
            return false;
        }
        proof {
            let v = self@;
            lemma_cells_fit_grid(v.snake.body, v.cols, v.rows);
        }
        if !self.snake.update(self.just_eaten, self.cols, self.rows) {
            self.over = true;
            return false;
        }
        if self.just_eaten {
            self.score += 1;
            self.just_eaten = false;
        }
        self.just_eaten = self.food.update(&self.snake);
        if self.just_eaten {
            self.respawn();
        }
        true
    }
}

/// A tick that goes through leaves the game in order: the snake is on the
/// grid with its cells pairwise distinct, the food is on the grid, and the
/// score is below the length of the snake.
pub proof fn lemma_tick_keeps_order(before: GameView, next: GameView)
    requires
        before.wf(),
        before.can_tick(),
        before.ticks_to(next),
    ensures
        next.wf(),
{
    lemma_advanced_in_order(before.snake, before.just_eaten, before.cols, before.rows);
}

/// New food never lies on the snake: after a tick that put the head on
/// the food, the food is on a cell of the grid that the snake is not on,
/// as long as the snake leaves a cell of the grid free.
pub proof fn lemma_new_food_off_snake(before: GameView, next: GameView)
    requires
        before.ticks_to(next),
        next.just_eaten,
        has_free_cell(next.snake.body, next.cols, next.rows),
    ensures
        in_grid(next.food, next.cols, next.rows),
        !next.snake.body.contains(next.food),
{
}

/// A game that has ended never runs again: no tick goes through, and none
/// leads anywhere from it.
pub proof fn lemma_over_is_final(game: GameView, next: GameView)
    requires
        game.over,
    ensures
        !game.can_tick(),
        !game.ticks_to(next),
        game.ended() == game,
{
}

/// A meal counts one tick late, and counts once. Of two ticks in a row,
/// the first notes a meal exactly if it puts the head on the food, and
/// that is when new food is placed; the second then raises the score by
/// one. After a tick without a meal the next tick leaves the score alone.
pub proof fn lemma_point_follows_meal(before: GameView, eating: GameView, after: GameView)
    requires
        before.ticks_to(eating),
        eating.ticks_to(after),
    ensures
        eating.just_eaten == (eating.snake.head() == before.food),
        !eating.just_eaten ==> eating.food == before.food,
        after.score == eating.score + if eating.just_eaten {
            1int
        } else {
            0int
        },
        eating.score <= after.score <= eating.score + 1,
{
}

} // verus!
