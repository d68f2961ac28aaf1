use snake_game::game::COLS;
use snake_game::game::ROWS;
use snake_game::game::SQUARE_WIDTH;
use snake_game::game::UPDATES_PER_SECOND;
use snake_game::Direction;
use snake_game::Food;
use snake_game::Game;
use snake_game::Key;
use snake_game::Snake;
use snake_game::SnakePiece;

fn game(cols: u32, rows: u32, x: u32, y: u32, d: Direction, food: (u32, u32)) -> Game {
    Game::new(cols, rows, 20, Snake::new(x, y, 20, d), Food::new(food.0, food.1)).unwrap()
}

fn food_cell(game: &Game) -> SnakePiece {
    SnakePiece(game.food().x(), game.food().y())
}

#[test]
fn new_game_starts_without_points() {
    let game = game(30, 20, 15, 10, Direction::DOWN, (1, 1));
    assert_eq!(game.cols(), 30);
    assert_eq!(game.rows(), 20);
    assert_eq!(game.square_width(), 20);
    assert_eq!(game.score(), 0);
    assert!(!game.just_eaten());
    assert!(!game.is_over());
    assert_eq!(food_cell(&game), SnakePiece(1, 1));
    assert_eq!(game.snake().cells(), vec![SnakePiece(15, 10)]);
    assert_eq!(game.snake().direction(), Direction::DOWN);
}

#[test]
fn new_game_needs_snake_and_food_on_the_grid() {
    assert!(Game::new(5, 5, 20, Snake::new(5, 2, 20, Direction::DOWN), Food::new(1, 1)).is_none());
    assert!(Game::new(5, 5, 20, Snake::new(2, 5, 20, Direction::DOWN), Food::new(1, 1)).is_none());
    assert!(Game::new(5, 5, 20, Snake::new(2, 2, 20, Direction::DOWN), Food::new(5, 1)).is_none());
    assert!(Game::new(5, 5, 20, Snake::new(2, 2, 20, Direction::DOWN), Food::new(1, 5)).is_none());
    assert!(Game::new(0, 0, 20, Snake::new(0, 0, 20, Direction::DOWN), Food::new(0, 0)).is_none());
    assert!(Game::new(5, 5, 20, Snake::new(4, 4, 20, Direction::DOWN), Food::new(0, 0)).is_some());
}

#[test]
fn new_game_needs_sizes_that_fit() {
    let snake = || Snake::new(0, 0, 20, Direction::DOWN);
    assert!(Game::new(65536, 65536, 20, snake(), Food::new(1, 1)).is_none());
    assert!(Game::new(65535, 65537, 1, Snake::new(0, 0, 1, Direction::DOWN), Food::new(1, 1)).is_some());
    assert!(Game::new(300_000_000, 2, 20, snake(), Food::new(1, 1)).is_none());
    assert!(Game::new(2, 300_000_000, 20, snake(), Food::new(1, 1)).is_none());
    assert!(Game::new(30, 20, 20, Snake::new(0, 0, 200_000_000, Direction::DOWN), Food::new(1, 1)).is_none());
    assert!(Game::new(30, 20, 200_000_000, snake(), Food::new(1, 1)).is_none());
    assert!(Game::new(30, 20, 143_165_576, Snake::new(0, 0, 143_165_576, Direction::DOWN), Food::new(1, 1)).is_some());
    assert!(Game::new(30, 20, 143_165_577, snake(), Food::new(1, 1)).is_none());
}

#[test]
fn tick_moves_the_snake() {
    let mut game = game(5, 5, 2, 2, Direction::DOWN, (0, 0));
    assert!(game.update());
    assert_eq!(game.snake().cells(), vec![SnakePiece(2, 3)]);
    assert_eq!(game.score(), 0);
    assert!(!game.just_eaten());
    assert_eq!(food_cell(&game), SnakePiece(0, 0));
}

#[test]
fn tick_into_wall_ends_the_game_and_changes_nothing_else() {
    let mut game = game(5, 5, 0, 2, Direction::LEFT, (3, 3));
    assert!(!game.update());
    assert!(game.is_over());
    assert_eq!(game.snake().cells(), vec![SnakePiece(0, 2)]);
    assert_eq!(game.score(), 0);
    assert!(!game.just_eaten());
    assert_eq!(food_cell(&game), SnakePiece(3, 3));
    assert!(!game.update());
}

#[test]
fn eating_grows_and_scores_one_tick_later() {
    let mut game = game(5, 5, 2, 2, Direction::DOWN, (2, 3));
    assert!(!game.food().update(game.snake()));

    assert!(game.update());
    assert_eq!(game.snake().head(), SnakePiece(2, 3));
    assert!(game.just_eaten());
    assert_eq!(game.score(), 0);
    assert_eq!(game.snake().len(), 1);
    assert_ne!(food_cell(&game), SnakePiece(2, 3));

    game.place_food(0, 0);
    assert!(game.update());
    assert_eq!(game.snake().cells(), vec![SnakePiece(2, 4), SnakePiece(2, 3)]);
    assert_eq!(game.score(), 1);
    assert!(!game.just_eaten());

    game.pressed(Key::Left);
    assert!(game.update());
    assert_eq!(game.snake().cells(), vec![SnakePiece(1, 4), SnakePiece(2, 4)]);
    assert_eq!(game.score(), 1);
}

#[test]
fn score_rises_by_one_per_meal() {
    let mut game = game(8, 1, 0, 0, Direction::RIGHT, (1, 0));
    let mut meals = 0;
    for tick in 1..8u32 {
        let before = game.score();
        let pending = game.just_eaten();
        assert!(game.update());
        assert_eq!(game.score(), before + if pending { 1 } else { 0 });
        assert_eq!(game.snake().head(), SnakePiece(tick, 0));
        assert_eq!(game.snake().len() as u32, game.score() + 1);
        if game.just_eaten() {
            meals += 1;
            game.place_food((tick + 2).min(7), 0);
        }
    }
    assert_eq!(meals, 4);
    assert_eq!(game.score(), 3);
    assert!(game.just_eaten());
    assert!(!game.update());
    assert_eq!(game.score(), 3);
}

#[test]
fn food_update_compares_head_and_food() {
    let snake = Snake::new(2, 3, 20, Direction::DOWN);
    assert!(Food::new(2, 3).update(&snake));
    assert!(!Food::new(3, 2).update(&snake));
    assert!(!Food::new(2, 2).update(&snake));
    assert!(!Food::new(3, 3).update(&snake));
    let mut longer = Snake::new(2, 3, 20, Direction::DOWN);
    assert!(longer.update(true, 5, 5));
    assert!(!Food::new(2, 3).update(&longer));
    assert!(Food::new(2, 4).update(&longer));
}

#[test]
fn pressed_turns_the_snake() {
    let mut game = game(5, 5, 2, 2, Direction::DOWN, (0, 0));
    game.pressed(Key::Up);
    assert_eq!(game.snake().direction(), Direction::DOWN);
    game.pressed(Key::Other);
    assert_eq!(game.snake().direction(), Direction::DOWN);
    game.pressed(Key::Down);
    assert_eq!(game.snake().direction(), Direction::DOWN);
    game.pressed(Key::Right);
    assert_eq!(game.snake().direction(), Direction::RIGHT);
    game.pressed(Key::Left);
    assert_eq!(game.snake().direction(), Direction::RIGHT);
    game.pressed(Key::Up);
    assert_eq!(game.snake().direction(), Direction::UP);
    assert!(game.update());
    assert_eq!(game.snake().head(), SnakePiece(2, 1));
}

#[test]
fn place_food_takes_free_cells_of_the_grid_only() {
    let mut game = game(5, 5, 2, 2, Direction::DOWN, (0, 0));
    assert!(!game.place_food(2, 2));
    assert_eq!(food_cell(&game), SnakePiece(0, 0));
    assert!(!game.place_food(5, 0));
    assert!(!game.place_food(0, 5));
    assert_eq!(food_cell(&game), SnakePiece(0, 0));
    assert!(game.place_food(4, 4));
    assert_eq!(food_cell(&game), SnakePiece(4, 4));
    assert!(game.place_food(3, 1));
    assert_eq!(food_cell(&game), SnakePiece(3, 1));
}

#[test]
fn first_free_cell_is_found_row_by_row() {
    let mut snake = Snake::new(0, 0, 20, Direction::RIGHT);
    assert!(snake.update(true, 3, 3));
    assert!(snake.update(true, 3, 3));
    snake.set_direction(Direction::DOWN);
    assert!(snake.update(true, 3, 3));
    let mut game = Game::new(3, 3, 20, snake, Food::new(2, 2)).unwrap();
    assert!(game.place_food_first_free());
    assert_eq!(food_cell(&game), SnakePiece(0, 1));

    let mut empty_corner = Game::new(3, 3, 20, Snake::new(1, 1, 20, Direction::UP), Food::new(2, 2))
        .unwrap();
    assert!(empty_corner.place_food_first_free());
    assert_eq!(food_cell(&empty_corner), SnakePiece(0, 0));
}

#[test]
fn respawn_never_puts_food_on_the_snake() {
    let mut snake = Snake::new(0, 0, 20, Direction::RIGHT);
    for _ in 0..3 {
        assert!(snake.update(true, 4, 2));
    }
    snake.set_direction(Direction::DOWN);
    assert!(snake.update(true, 4, 2));
    snake.set_direction(Direction::LEFT);
    assert!(snake.update(true, 4, 2));
    let mut game = Game::new(4, 2, 20, snake, Food::new(0, 1)).unwrap();
    let mut seen = Vec::new();
    for _ in 0..300 {
        assert!(game.respawn());
        let food = food_cell(&game);
        assert!(food.0 < 4 && food.1 < 2);
        assert!(!game.snake().is_collide(food.0, food.1));
        assert!(food == SnakePiece(0, 1) || food == SnakePiece(1, 1));
        if !seen.contains(&food) {
            seen.push(food);
        }
    }
    assert_eq!(seen.len(), 2);
}

#[test]
fn respawn_draws_from_the_whole_grid() {
    let mut game = game(10, 10, 5, 5, Direction::DOWN, (0, 0));
    let mut columns = Vec::new();
    let mut rows = Vec::new();
    for _ in 0..400 {
        assert!(game.respawn());
        let food = food_cell(&game);
        assert!(food.0 < 10 && food.1 < 10);
        assert_ne!(food, SnakePiece(5, 5));
        if !columns.contains(&food.0) {
            columns.push(food.0);
        }
        if !rows.contains(&food.1) {
            rows.push(food.1);
        }
    }
    assert!(columns.len() > 1);
    assert!(rows.len() > 1);
}

#[test]
fn last_free_cell_is_found() {
    let mut snake = Snake::new(1, 1, 20, Direction::UP);
    assert!(snake.update(true, 2, 2));
    snake.set_direction(Direction::LEFT);
    let mut game = Game::new(2, 2, 20, snake, Food::new(0, 0)).unwrap();
    assert!(game.update());
    assert_eq!(game.snake().cells(), vec![SnakePiece(0, 0), SnakePiece(1, 0)]);
    assert!(game.just_eaten());
    assert!(food_cell(&game) == SnakePiece(0, 1) || food_cell(&game) == SnakePiece(1, 1));

    game.place_food(0, 1);
    game.pressed(Key::Down);
    assert!(game.update());
    assert_eq!(
        game.snake().cells(),
        vec![SnakePiece(0, 1), SnakePiece(0, 0), SnakePiece(1, 0)]
    );
    assert_eq!(game.score(), 1);
    assert!(game.just_eaten());
    assert_eq!(food_cell(&game), SnakePiece(1, 1));
}

#[test]
fn food_stays_when_the_snake_covers_the_grid() {
    let mut snake = Snake::new(1, 1, 20, Direction::UP);
    assert!(snake.update(true, 2, 2));
    snake.set_direction(Direction::LEFT);
    let mut game = Game::new(2, 2, 20, snake, Food::new(0, 0)).unwrap();
    assert!(game.update());
    game.place_food(0, 1);
    game.pressed(Key::Down);
    assert!(game.update());
    assert_eq!(food_cell(&game), SnakePiece(1, 1));
    game.pressed(Key::Right);
    assert!(game.update());
    assert_eq!(
        game.snake().cells(),
        vec![SnakePiece(1, 1), SnakePiece(0, 1), SnakePiece(0, 0), SnakePiece(1, 0)]
    );
    assert_eq!(game.score(), 2);
    assert!(game.just_eaten());
    assert_eq!(food_cell(&game), SnakePiece(1, 1));

    assert!(!game.respawn());
    assert!(!game.place_food_first_free());
    assert_eq!(food_cell(&game), SnakePiece(1, 1));

    for key in [Key::Up, Key::Right, Key::Down] {
        game.pressed(key);
        assert!(!game.update());
    }
    assert_eq!(game.score(), 2);
    assert_eq!(game.snake().len(), 4);
}

#[test]
fn standard_game_starts_in_the_middle() {
    assert_eq!((COLS, ROWS, SQUARE_WIDTH, UPDATES_PER_SECOND), (30, 20, 20, 10));
    let mut game = Game::standard();
    assert_eq!(game.cols(), 30);
    assert_eq!(game.rows(), 20);
    assert_eq!(game.square_width(), 20);
    assert_eq!(game.snake().cells(), vec![SnakePiece(15, 10)]);
    assert_eq!(game.snake().direction(), Direction::DOWN);
    assert_eq!(game.snake().width(), 20);
    assert_eq!(food_cell(&game), SnakePiece(1, 1));
    assert_eq!(game.score(), 0);
    assert!(!game.just_eaten());
    assert!(!game.is_over());
    for row in 11..20 {
        assert!(game.update());
        assert_eq!(game.snake().head(), SnakePiece(15, row));
    }
    assert!(!game.update());
    assert!(game.is_over());
    assert_eq!(game.score(), 0);
}

#[test]
fn ended_game_stays_ended() {
    let mut game = game(5, 5, 0, 2, Direction::LEFT, (3, 3));
    assert!(!game.is_over());
    assert!(!game.update());
    assert!(game.is_over());
    game.pressed(Key::Down);
    assert_eq!(game.snake().direction(), Direction::DOWN);
    assert!(!game.update());
    assert!(game.is_over());
    assert_eq!(game.snake().cells(), vec![SnakePiece(0, 2)]);
    assert_eq!(game.score(), 0);
    assert_eq!(food_cell(&game), SnakePiece(3, 3));
}

#[test]
fn running_into_itself_ends_the_game() {
    let mut snake = Snake::new(0, 0, 20, Direction::RIGHT);
    assert!(snake.update(true, 5, 5));
    assert!(snake.update(true, 5, 5));
    snake.set_direction(Direction::DOWN);
    assert!(snake.update(true, 5, 5));
    snake.set_direction(Direction::LEFT);
    assert!(snake.update(true, 5, 5));
    let mut game = Game::new(5, 5, 20, snake, Food::new(4, 4)).unwrap();
    game.pressed(Key::Up);
    assert!(!game.update());
    assert!(game.is_over());
    assert_eq!(game.snake().len(), 5);
    assert_eq!(game.snake().head(), SnakePiece(1, 1));
}
