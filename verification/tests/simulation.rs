use std::collections::VecDeque;

use snake::conf::GameConf;
use snake::direction::Direction;
use snake::game::Game;
use snake::snake::{Cell, Snake, GROWTH_BONUS, INITIAL_GROWTH, INPUT_BUFFER_LIMIT};

fn cell(x: i64, y: i64) -> Cell {
    Cell { x, y }
}

fn snake_at(x: i64, y: i64, heading: Direction, growth: u64) -> Snake {
    let mut s = Snake::new(cell(x, y));
    s.direction = heading;
    s.growth = growth;
    s
}

#[test]
fn opposite_of_each_heading() {
    assert_eq!(Direction::Up.opposite(), Direction::Down);
    assert_eq!(Direction::Down.opposite(), Direction::Up);
    assert_eq!(Direction::Left.opposite(), Direction::Right);
    assert_eq!(Direction::Right.opposite(), Direction::Left);
}

#[test]
fn conf_derives_window_size() {
    let conf = GameConf::new(65, 45, 40, 10);
    assert_eq!(conf.cols, 65);
    assert_eq!(conf.rows, 45);
    assert_eq!(conf.cell_size, 40);
    assert_eq!(conf.fps, 10);
    assert_eq!(conf.window_w, 2600);
    assert_eq!(conf.window_h, 1800);
}

#[test]
fn new_snake_initial_state() {
    let s = Snake::new(cell(4, 7));
    assert_eq!(s.head, cell(4, 7));
    assert!(s.tail.is_empty());
    assert_eq!(s.growth, INITIAL_GROWTH);
    assert_eq!(s.direction, Direction::Up);
    assert!(s.alive);
    assert!(s.input_buffer.is_empty());
    assert_eq!(s.input_buffer_limit, INPUT_BUFFER_LIMIT);
}

#[test]
fn tail_steady_without_pending_growth() {
    let mut s = snake_at(2, 2, Direction::Up, 0);
    s.tail = VecDeque::from(vec![cell(2, 3)]);
    s.advance_tick(5, 5);
    assert!(s.alive);
    assert_eq!(s.head, cell(2, 1));
    // The vacated head cell became the newest segment and the old tail
    // end was trimmed: net length unchanged.
    assert_eq!(s.tail, VecDeque::from(vec![cell(2, 2)]));
}

#[test]
fn tail_grows_while_growth_pending() {
    let mut s = snake_at(2, 2, Direction::Up, 1);
    s.tail = VecDeque::from(vec![cell(2, 3)]);
    s.advance_tick(5, 5);
    assert!(s.alive);
    assert_eq!(s.head, cell(2, 1));
    assert_eq!(s.tail, VecDeque::from(vec![cell(2, 2), cell(2, 3)]));
    assert_eq!(s.growth, 0);
}

#[test]
fn leaving_the_board_is_fatal_on_every_side() {
    let cases = [
        (2_i64, 0_i64, Direction::Up),
        (2, 4, Direction::Down),
        (0, 2, Direction::Left),
        (4, 2, Direction::Right),
    ];
    for (x, y, heading) in cases {
        let mut s = snake_at(x, y, heading, 3);
        s.advance_tick(5, 5);
        assert!(!s.alive);
        // Death freezes the state: head, tail and growth untouched.
        assert_eq!(s.head, cell(x, y));
        assert!(s.tail.is_empty());
        assert_eq!(s.growth, 3);
        assert_eq!(s.direction, heading);
    }
}

#[test]
fn body_collision_is_fatal() {
    let mut s = snake_at(2, 2, Direction::Up, 0);
    s.tail = VecDeque::from(vec![cell(2, 1), cell(1, 1)]);
    s.advance_tick(5, 5);
    assert!(!s.alive);
    assert_eq!(s.head, cell(2, 2));
    assert_eq!(s.tail, VecDeque::from(vec![cell(2, 1), cell(1, 1)]));
}

#[test]
fn tail_end_cell_counts_for_collision() {
    // The collision test runs against the pre-tick body, so even the
    // segment that would have been trimmed this very tick is deadly.
    let mut s = snake_at(2, 2, Direction::Down, 0);
    s.tail = VecDeque::from(vec![cell(2, 1), cell(2, 3)]);
    s.advance_tick(5, 5);
    assert!(!s.alive);
    assert_eq!(s.head, cell(2, 2));
}

#[test]
fn queue_capped_at_limit() {
    let mut s = snake_at(2, 2, Direction::Up, 0);
    s.enqueue_direction(Direction::Left);
    s.enqueue_direction(Direction::Right);
    s.enqueue_direction(Direction::Down);
    s.enqueue_direction(Direction::Up);
    s.enqueue_direction(Direction::Left);
    assert_eq!(s.input_buffer.len(), INPUT_BUFFER_LIMIT);
    // The excess requests were dropped, not queued: the first three stand.
    assert_eq!(
        s.input_buffer,
        VecDeque::from(vec![Direction::Left, Direction::Right, Direction::Down])
    );
}

#[test]
fn enqueue_ignored_once_dead() {
    let mut s = snake_at(2, 0, Direction::Up, 0);
    s.advance_tick(5, 5);
    assert!(!s.alive);
    s.enqueue_direction(Direction::Left);
    assert!(s.input_buffer.is_empty());
}

#[test]
fn reversal_discarded_at_consumption() {
    let mut s = snake_at(2, 2, Direction::Up, 0);
    s.enqueue_direction(Direction::Down);
    s.advance_tick(5, 5);
    assert!(s.alive);
    assert_eq!(s.direction, Direction::Up);
    assert!(s.input_buffer.is_empty());
}

#[test]
fn queued_heading_applied_otherwise() {
    let mut s = snake_at(2, 2, Direction::Up, 0);
    s.enqueue_direction(Direction::Left);
    s.enqueue_direction(Direction::Down);
    s.advance_tick(5, 5);
    assert_eq!(s.direction, Direction::Left);
    // Only one request is consumed per tick.
    assert_eq!(s.input_buffer, VecDeque::from(vec![Direction::Down]));
    s.advance_tick(5, 5);
    assert_eq!(s.direction, Direction::Down);
    assert!(s.input_buffer.is_empty());
}

#[test]
fn queued_left_discarded_moving_right() {
    // Grid 5x5, snake at (2,2) heading Right, queue holds [Left]. The
    // move to (3,2) succeeds and the reversal test uses the heading at
    // consumption time, so Left is discarded and Right stands.
    let mut s = snake_at(2, 2, Direction::Right, 0);
    s.enqueue_direction(Direction::Left);
    s.advance_tick(5, 5);
    assert!(s.alive);
    assert_eq!(s.head, cell(3, 2));
    assert_eq!(s.direction, Direction::Right);
    assert!(s.input_buffer.is_empty());
}

#[test]
fn fruit_bonus_observable_as_two_grown_ticks() {
    let mut s = snake_at(2, 4, Direction::Up, 0);
    let before = s.growth;
    s.on_fruit_eaten();
    assert_eq!(s.growth, before + GROWTH_BONUS);
    s.advance_tick(9, 9);
    assert_eq!(s.tail.len(), 1);
    s.advance_tick(9, 9);
    assert_eq!(s.tail.len(), 2);
    // The bonus is spent: the third tick no longer grows the body.
    s.advance_tick(9, 9);
    assert_eq!(s.tail.len(), 2);
    assert_eq!(s.growth, 0);
}

#[test]
fn grid5_up_run_dies_on_third_tick() {
    // Grid 5x5, snake hatches at (2,2) heading Up with pending growth 3
    // and an empty queue. Ticks one and two move and grow; the third
    // tick's target (2,-1) is off the board and kills the snake.
    let mut s = Snake::new(cell(2, 2));
    assert_eq!(s.growth, 3);
    s.advance_tick(5, 5);
    assert!(s.alive);
    assert_eq!(s.head, cell(2, 1));
    s.advance_tick(5, 5);
    assert!(s.alive);
    assert_eq!(s.head, cell(2, 0));
    assert_eq!(s.tail.len(), 2);
    assert_eq!(s.growth, 1);
    s.advance_tick(5, 5);
    assert!(!s.alive);
    assert_eq!(s.head, cell(2, 0));
    assert_eq!(s.tail.len(), 2);
}

#[test]
fn game_new_centers_snake_and_places_fruit() {
    let conf = GameConf::new(5, 5, 40, 10);
    let g = Game::new(conf);
    assert_eq!(g.snake.head, cell(2, 2));
    assert!(g.snake.alive);
    assert!(0 <= g.fruit.x && g.fruit.x < 5);
    assert!(0 <= g.fruit.y && g.fruit.y < 5);
}

#[test]
fn one_by_one_grid_pins_the_fruit() {
    // With a single cell the uniform draw has only one lawful outcome;
    // this fails if the sampler ever steps outside [0, n).
    for _ in 0..32 {
        let conf = GameConf::new(1, 1, 40, 10);
        let g = Game::new(conf);
        assert_eq!(g.fruit, cell(0, 0));
    }
}

#[test]
fn eating_fruit_grants_bonus_and_respawns() {
    let conf = GameConf::new(5, 5, 40, 10);
    let mut g = Game::new(conf);
    g.fruit = cell(2, 1);
    let growth_before = g.snake.growth;
    g.tick();
    // The hatchling moved up onto the fruit: one unit of growth was
    // consumed by the move, then the bonus was granted.
    assert!(g.snake.alive);
    assert_eq!(g.snake.head, cell(2, 1));
    assert_eq!(g.snake.growth, growth_before - 1 + GROWTH_BONUS);
    assert!(0 <= g.fruit.x && g.fruit.x < 5);
    assert!(0 <= g.fruit.y && g.fruit.y < 5);
}

#[test]
fn fruit_untouched_when_missed() {
    let conf = GameConf::new(5, 5, 40, 10);
    let mut g = Game::new(conf);
    g.fruit = cell(4, 4);
    let growth_before = g.snake.growth;
    g.tick();
    assert_eq!(g.fruit, cell(4, 4));
    assert_eq!(g.snake.growth, growth_before - 1);
}
