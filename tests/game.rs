use snek::{decimal_string, handle_game_tick, Apple, Snake, SnakeCollectibleGrower, TickOutcome};

const ARENA: [i64; 4] = [0, 1200, 0, 800];

#[test]
fn plain_step() {
    let mut snake = Snake::new(3, 40, 10);
    let mut apple = Apple::new_standard_apple([400, 400], 40);
    let r = handle_game_tick(&mut snake, &mut apple, &ARENA, 40, 25, 15);
    assert_eq!(r, Some(TickOutcome { ate_apple: false, died: false }));
    assert_eq!(snake.segment_positions(), vec![[40, 40], [80, 40], [120, 40]]);
    assert_eq!(apple.get_position(), [400, 400]);
}

#[test]
fn eating_grows_and_moves_apple() {
    let mut snake = Snake::new(3, 40, 10);
    let mut apple = Apple::new([120, 40], 40, 2);
    let r = handle_game_tick(&mut snake, &mut apple, &ARENA, 40, 25, 15);
    assert_eq!(r, Some(TickOutcome { ate_apple: true, died: false }));
    assert_eq!(
        snake.segment_positions(),
        vec![[-40, 40], [0, 40], [40, 40], [80, 40], [120, 40]]
    );
    let p = apple.get_position();
    assert!(p[0] % 40 == 0 && p[1] % 40 == 0);
    assert!(p[0] >= 0 && p[0] <= 1000 && p[1] >= 0 && p[1] <= 600);
    assert_eq!(apple.on_collect(), 2);
    // the tail block lies left of the arena
    assert!(!snake.is_dead());
}

#[test]
fn leaving_the_arena_kills() {
    let mut snake = Snake::new(3, 40, 10);
    let mut apple = Apple::new_standard_apple([400, 400], 40);
    snake.change_dir_to_up();
    let r = handle_game_tick(&mut snake, &mut apple, &ARENA, 40, 25, 15);
    assert_eq!(r, Some(TickOutcome { ate_apple: false, died: false }));
    let r = handle_game_tick(&mut snake, &mut apple, &ARENA, 40, 25, 15);
    assert_eq!(r, Some(TickOutcome { ate_apple: false, died: true }));
    assert!(snake.is_dead());
    assert_eq!(snake.get_head_position(), [80, -40]);
    let r = handle_game_tick(&mut snake, &mut apple, &ARENA, 40, 25, 15);
    assert_eq!(r, Some(TickOutcome { ate_apple: false, died: true }));
    assert_eq!(snake.get_head_position(), [80, -40]);
}

#[test]
fn biting_the_body_kills() {
    let mut snake = Snake::new(5, 40, 10);
    let mut apple = Apple::new_standard_apple([1000, 400], 40);
    snake.change_dir_to_down();
    handle_game_tick(&mut snake, &mut apple, &ARENA, 40, 25, 15);
    snake.change_dir_to_left();
    handle_game_tick(&mut snake, &mut apple, &ARENA, 40, 25, 15);
    snake.change_dir_to_up();
    let r = handle_game_tick(&mut snake, &mut apple, &ARENA, 40, 25, 15);
    assert_eq!(r, Some(TickOutcome { ate_apple: false, died: true }));
    assert!(snake.is_dead());
}

#[test]
fn overflowing_step_changes_nothing() {
    let mut snake = Snake::new(2, i64::MAX, 0);
    let mut apple = Apple::new_standard_apple([0, 0], 40);
    let r = handle_game_tick(&mut snake, &mut apple, &ARENA, 40, 25, 15);
    assert_eq!(r, None);
    assert_eq!(snake.segment_positions(), vec![[0, i64::MAX], [i64::MAX, i64::MAX]]);
    assert!(!snake.is_dead());
}

#[test]
fn overflowing_growth_changes_nothing() {
    let mut snake = Snake::new(1, i64::MAX / 2, 0);
    snake.change_dir_to_down();
    let mut apple = Apple::new([0, i64::MAX / 2 * 2], 40, 3);
    let r = handle_game_tick(&mut snake, &mut apple, &ARENA, 40, 25, 15);
    assert_eq!(r, None);
    assert_eq!(snake.get_head_position(), [0, i64::MAX / 2]);
    let mut apple = Apple::new([0, i64::MAX / 2 * 2], 40, 2);
    let r = handle_game_tick(&mut snake, &mut apple, &ARENA, 40, 25, 15);
    assert_eq!(r, Some(TickOutcome { ate_apple: true, died: true }));
}

#[test]
fn decimal_notation() {
    assert_eq!(decimal_string(0), "0");
    assert_eq!(decimal_string(7), "7");
    assert_eq!(decimal_string(10), "10");
    assert_eq!(decimal_string(90210), "90210");
    assert_eq!(decimal_string(usize::MAX), usize::MAX.to_string());
}
