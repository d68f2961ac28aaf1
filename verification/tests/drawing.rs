use snake_game::Direction;
use snake_game::Food;
use snake_game::Game;
use snake_game::Snake;
use snake_game::Square;

#[test]
fn square_of_a_cell() {
    assert_eq!(Square::of_cell(3, 4, 20), Square { x: 60, y: 80, side: 20 });
    assert_eq!(Square::of_cell(0, 0, 20), Square { x: 0, y: 0, side: 20 });
    assert_eq!(Square::of_cell(7, 9, 0), Square { x: 0, y: 0, side: 0 });
    assert_eq!(
        Square::of_cell(65535, 65537, 65535),
        Square { x: 4294836225, y: 4294967295, side: 65535 }
    );
}

#[test]
fn food_is_drawn_on_its_cell() {
    assert_eq!(Food::new(1, 1).render(20), Square { x: 20, y: 20, side: 20 });
    assert_eq!(Food::new(29, 19).render(20), Square { x: 580, y: 380, side: 20 });
}

#[test]
fn snake_is_drawn_from_head_to_tail() {
    let mut snake = Snake::new(15, 10, 20, Direction::DOWN);
    assert!(snake.update(true, 30, 20));
    snake.set_direction(Direction::RIGHT);
    assert!(snake.update(true, 30, 20));
    assert_eq!(
        snake.render(),
        vec![
            Square { x: 320, y: 220, side: 20 },
            Square { x: 300, y: 220, side: 20 },
            Square { x: 300, y: 200, side: 20 },
        ]
    );
}

#[test]
fn frame_holds_snake_and_food() {
    let game = Game::new(30, 20, 20, Snake::new(15, 10, 10, Direction::DOWN), Food::new(1, 1))
        .unwrap();
    let frame = game.render();
    assert_eq!(frame.snake, vec![Square { x: 150, y: 100, side: 10 }]);
    assert_eq!(frame.food, Square { x: 20, y: 20, side: 20 });
}

#[test]
fn window_shows_the_whole_grid() {
    let game = Game::new(30, 20, 20, Snake::new(15, 10, 20, Direction::DOWN), Food::new(1, 1))
        .unwrap();
    assert_eq!(game.window_size(), (600, 400));
}
