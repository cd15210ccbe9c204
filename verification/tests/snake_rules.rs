use snake_game::direction::Direction;
use snake_game::snake::{Color, Snake};

fn green() -> Color {
    Color { red: 0, green: 80, blue: 0, alpha: 100 }
}

fn cells(snake: &Snake) -> Vec<(i32, i32)> {
    let mut out = Vec::new();
    for i in 0..snake.len() {
        out.push(snake.block(i));
    }
    out
}

/// Builds a snake by growing one cell per step along `path`.
fn grown(x: i32, y: i32, path: &[Direction]) -> Snake {
    let mut snake = Snake::new(x, y, green());
    for d in path {
        snake.restore_tail();
        snake.move_forward(Some(*d));
    }
    snake
}

#[test]
fn opposite_pairs_up_the_four_directions() {
    assert_eq!(Direction::Up.opposite(), Direction::Down);
    assert_eq!(Direction::Down.opposite(), Direction::Up);
    assert_eq!(Direction::Left.opposite(), Direction::Right);
    assert_eq!(Direction::Right.opposite(), Direction::Left);
}

#[test]
fn opposite_twice_is_the_identity() {
    for d in [Direction::Up, Direction::Down, Direction::Left, Direction::Right] {
        assert_eq!(d.opposite().opposite(), d);
        assert_ne!(d.opposite(), d);
    }
}

#[test]
fn new_snake_is_one_cell_heading_right() {
    let snake = Snake::new(4, 7, green());
    assert_eq!(cells(&snake), vec![(4, 7)]);
    assert_eq!(snake.head_position(), (4, 7));
    assert_eq!(snake.head_direction(), Direction::Right);
    assert_eq!(snake.color(), green());
    assert!(!snake.is_growing());
    assert_eq!(snake.len(), 1);
}

#[test]
fn next_head_follows_the_intent() {
    let snake = Snake::new(4, 7, green());
    assert_eq!(snake.next_head(Some(Direction::Up)), (4, 6));
    assert_eq!(snake.next_head(Some(Direction::Down)), (4, 8));
    assert_eq!(snake.next_head(Some(Direction::Left)), (3, 7));
    assert_eq!(snake.next_head(Some(Direction::Right)), (5, 7));
    assert_eq!(cells(&snake), vec![(4, 7)]);
    assert_eq!(snake.head_direction(), Direction::Right);
}

#[test]
fn next_head_without_intent_follows_the_heading() {
    let mut snake = Snake::new(4, 7, green());
    assert_eq!(snake.next_head(None), (5, 7));
    snake.move_forward(Some(Direction::Down));
    assert_eq!(snake.next_head(None), (4, 9));
}

#[test]
fn next_head_works_at_the_edge_of_the_machine_range() {
    let snake = Snake::new(i32::MAX - 1, i32::MIN + 1, green());
    assert_eq!(snake.next_head(Some(Direction::Right)), (i32::MAX, i32::MIN + 1));
    assert_eq!(snake.next_head(Some(Direction::Up)), (i32::MAX - 1, i32::MIN));
}

#[test]
fn move_forward_keeps_the_length() {
    let mut snake = grown(0, 0, &[Direction::Right, Direction::Right]);
    assert_eq!(cells(&snake), vec![(0, 0), (1, 0), (2, 0)]);
    snake.move_forward(None);
    assert_eq!(cells(&snake), vec![(1, 0), (2, 0), (3, 0)]);
    snake.move_forward(Some(Direction::Down));
    assert_eq!(cells(&snake), vec![(2, 0), (3, 0), (3, 1)]);
    assert_eq!(snake.head_direction(), Direction::Down);
    assert_eq!(snake.len(), 3);
}

#[test]
fn move_forward_after_restore_tail_grows_by_one() {
    let mut snake = Snake::new(1, 1, green());
    snake.restore_tail();
    assert!(snake.is_growing());
    assert_eq!(snake.len(), 1);
    snake.move_forward(None);
    assert_eq!(cells(&snake), vec![(1, 1), (2, 1)]);
    assert!(!snake.is_growing());
    snake.move_forward(None);
    assert_eq!(cells(&snake), vec![(2, 1), (3, 1)]);
}

#[test]
fn restore_tail_twice_grows_once() {
    let mut snake = Snake::new(1, 1, green());
    snake.restore_tail();
    snake.restore_tail();
    snake.move_forward(None);
    snake.move_forward(None);
    assert_eq!(snake.len(), 2);
}

#[test]
fn move_forward_does_not_turn_around() {
    let mut snake = Snake::new(1, 1, green());
    snake.move_forward(Some(Direction::Left));
    assert_eq!(snake.head_direction(), Direction::Right);
    assert_eq!(snake.head_position(), (2, 1));
    snake.move_forward(Some(Direction::Up));
    snake.move_forward(Some(Direction::Down));
    assert_eq!(snake.head_direction(), Direction::Up);
    assert_eq!(snake.head_position(), (2, -1));
}

#[test]
fn overlap_tail_finds_every_cell_of_the_body() {
    let snake = grown(0, 0, &[Direction::Right, Direction::Down]);
    assert!(snake.overlap_tail(0, 0));
    assert!(snake.overlap_tail(1, 0));
    assert!(snake.overlap_tail(1, 1));
    assert!(!snake.overlap_tail(0, 1));
    assert!(!snake.overlap_tail(2, 0));
    assert!(!snake.overlap_tail(1, 2));
}

#[test]
fn overflow_switch_moves_the_head_only() {
    let mut snake = grown(0, 3, &[Direction::Up, Direction::Left]);
    assert_eq!(cells(&snake), vec![(0, 3), (0, 2), (-1, 2)]);
    snake.overflow_switch(20, 2);
    assert_eq!(cells(&snake), vec![(0, 3), (0, 2), (20, 2)]);
    assert_eq!(snake.head_position(), (20, 2));
    assert_eq!(snake.head_direction(), Direction::Left);
    assert!(!snake.is_growing());
}

#[test]
fn overflow_switch_on_a_single_cell() {
    let mut snake = Snake::new(-1, 0, green());
    snake.overflow_switch(9, 0);
    assert_eq!(cells(&snake), vec![(9, 0)]);
}
