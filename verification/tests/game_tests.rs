use embedded_logic::game::{Game, MAX_TAIL};
use embedded_logic::game_utils::{
    turn_from_buttons, Coords, Direction, GameStatus, Prng, StepOutcome, Turn, TurnLatch,
};
use embedded_logic::snake::Snake;

fn tail_of(g: &Game) -> Vec<(i8, i8)> {
    g.snake.tail.iter().copied().collect()
}

fn body_of(g: &Game) -> Vec<(i8, i8)> {
    let mut v: Vec<(i8, i8)> = g.snake.body_coords.iter().copied().collect();
    v.sort();
    v
}

fn turns(g: &mut Game, seq: &str) {
    for ch in seq.chars() {
        let t = match ch {
            'L' => Turn::Left,
            'R' => Turn::Right,
            _ => Turn::NoTurn,
        };
        g.step(t);
    }
}

#[test]
fn xorshift_known_values() {
    let p = Prng::new(1);
    assert_eq!(p.xorshift32(1), 270369);
    assert_eq!(p.xorshift32(270369), 67634689);
    assert_eq!(p.xorshift32(0), 0);
    assert_eq!(p.xorshift32(0xffff_ffff), 253983);
}

#[test]
fn random_u32_advances_state() {
    let mut p = Prng::new(1);
    assert_eq!(p.random_u32(), 270369);
    assert_eq!(p.value, 270369);
    assert_eq!(p.random_u32(), 67634689);
    assert_eq!(p.value, 67634689);
}

#[test]
fn prng_zero_stays_zero() {
    let mut p = Prng::new(0);
    for _ in 0..10 {
        assert_eq!(p.random_u32(), 0);
    }
}

#[test]
fn random_without_exclusion_takes_first_draw() {
    let mut p = Prng::new(1);
    let c = Coords::random(&mut p, None);
    assert_eq!(c, Coords { row: (270369 % 5) as i8, col: (67634689 % 5) as i8 });
    assert_eq!(p.value, 67634689);
}

#[test]
fn random_skips_excluded_cells() {
    // the first draw from seed 1 is (4, 4); exclude it
    let mut set: heapless::FnvIndexSet<(i8, i8), 32> = heapless::FnvIndexSet::new();
    set.insert((4, 4)).unwrap();
    let mut p = Prng::new(1);
    let c = Coords::random(&mut p, Some(&set));
    assert!(!set.contains(&(c.row, c.col)));
    assert!(!c.is_out_of_bounds());
    let mut q = Prng::new(1);
    q.random_u32();
    q.random_u32();
    let r = q.random_u32();
    let s = q.random_u32();
    assert_eq!(c, Coords { row: (r % 5) as i8, col: (s % 5) as i8 });
}

#[test]
fn random_with_zero_seed_keeps_drawing_the_corner() {
    // a zero seed draws (0, 0) every time; it is taken when not excluded
    let mut set: heapless::FnvIndexSet<(i8, i8), 32> = heapless::FnvIndexSet::new();
    set.insert((1, 1)).unwrap();
    let mut p = Prng::new(0);
    let c = Coords::random(&mut p, Some(&set));
    assert_eq!(c, Coords { row: 0, col: 0 });
    assert_eq!(p.value, 0);
}

#[test]
fn out_of_bounds_cells() {
    assert!(Coords { row: -1, col: 0 }.is_out_of_bounds());
    assert!(Coords { row: 5, col: 0 }.is_out_of_bounds());
    assert!(Coords { row: 0, col: -1 }.is_out_of_bounds());
    assert!(Coords { row: 0, col: 5 }.is_out_of_bounds());
    assert!(!Coords { row: 0, col: 0 }.is_out_of_bounds());
    assert!(!Coords { row: 4, col: 4 }.is_out_of_bounds());
}

#[test]
fn new_game_is_fresh() {
    let g = Game::new(1);
    assert_eq!(g.snake.head, Coords { row: 2, col: 2 });
    assert_eq!(tail_of(&g), vec![(2, 1)]);
    assert_eq!(body_of(&g), vec![(2, 1), (2, 2)]);
    assert_eq!(g.snake.direction, Direction::Right);
    assert_eq!(g.food_coords, Coords { row: 4, col: 4 });
    assert_eq!(g.rng.value, 67634689);
    assert_eq!(g.speed, 1);
    assert_eq!(g.score, 0);
    assert_eq!(g.status, GameStatus::Ongoing);
}

#[test]
fn food_for_other_seeds() {
    assert_eq!(Game::new(7).food_coords, Coords { row: 3, col: 0 });
    assert_eq!(Game::new(42).food_coords, Coords { row: 2, col: 3 });
    assert_eq!(Game::new(12345).food_coords, Coords { row: 0, col: 2 });
}

#[test]
fn plain_move_and_wraparound() {
    let mut g = Game::new(1);
    g.step(Turn::NoTurn);
    assert_eq!(g.snake.head, Coords { row: 2, col: 3 });
    assert_eq!(tail_of(&g), vec![(2, 2)]);
    g.step(Turn::NoTurn);
    assert_eq!(g.snake.head, Coords { row: 2, col: 4 });
    g.step(Turn::NoTurn);
    assert_eq!(g.snake.head, Coords { row: 2, col: 0 });
    assert_eq!(tail_of(&g), vec![(2, 4)]);
    assert_eq!(body_of(&g), vec![(2, 0), (2, 4)]);
    assert_eq!(g.status, GameStatus::Ongoing);
}

#[test]
fn wraparound_each_edge() {
    let g = Game::new(1);
    assert_eq!(g.wraparound(Coords { row: -1, col: 3 }), Coords { row: 4, col: 3 });
    assert_eq!(g.wraparound(Coords { row: 5, col: 3 }), Coords { row: 0, col: 3 });
    assert_eq!(g.wraparound(Coords { row: 1, col: -1 }), Coords { row: 1, col: 4 });
    assert_eq!(g.wraparound(Coords { row: 1, col: 5 }), Coords { row: 1, col: 0 });
}

#[test]
fn eating_grows_and_scores() {
    let mut g = Game::new(42);
    assert_eq!(g.process_next_move(), StepOutcome::Eat(Coords { row: 2, col: 3 }));
    g.step(Turn::NoTurn);
    assert_eq!(g.snake.head, Coords { row: 2, col: 3 });
    assert_eq!(tail_of(&g), vec![(2, 1), (2, 2)]);
    assert_eq!(body_of(&g), vec![(2, 1), (2, 2), (2, 3)]);
    assert_eq!(g.score, 1);
    assert_eq!(g.speed, 1);
    assert_eq!(g.food_coords, Coords { row: 4, col: 1 });
    assert_eq!(g.rng.value, 3648046016);
    assert_eq!(g.status, GameStatus::Ongoing);
}

#[test]
fn turning_into_the_body_loses() {
    let mut g = Game::new(1);
    turns(&mut g, "NNLNNNNNRNRR");
    assert_eq!(g.score, 3);
    assert_eq!(g.snake.head, Coords { row: 2, col: 0 });
    assert_eq!(tail_of(&g), vec![(1, 4), (1, 0), (1, 1), (2, 1)]);
    assert_eq!(g.process_next_move(), StepOutcome::MoveOnly(Coords { row: 2, col: 4 }));
    g.snake.make_turn(Turn::Right);
    assert_eq!(g.process_next_move(), StepOutcome::Collision(Coords { row: 1, col: 0 }));
    g.step(Turn::NoTurn);
    assert_eq!(g.status, GameStatus::Lost);
    // a lost step leaves the snake where it was
    assert_eq!(g.snake.head, Coords { row: 2, col: 0 });
    assert_eq!(tail_of(&g), vec![(1, 4), (1, 0), (1, 1), (2, 1)]);
    assert_eq!(g.rng.value, 2916098932);
}

#[test]
fn chasing_the_tail_is_a_plain_move() {
    let mut g = Game::new(1);
    turns(&mut g, "NNLNNNRNLNLLNNLNLNNRLLL");
    assert_eq!(g.status, GameStatus::Ongoing);
    assert_eq!(g.snake.head, Coords { row: 1, col: 2 });
    assert_eq!(tail_of(&g), vec![(1, 3), (0, 3), (0, 2)]);
    // the cell the tail left, which the head took, is out of the blocking set
    assert_eq!(body_of(&g), vec![(0, 2), (0, 3), (1, 3)]);
    assert_eq!(g.snake.direction, Direction::Down);
    assert_eq!(g.food_coords, Coords { row: 3, col: 4 });
    assert_eq!(g.score, 2);
}

#[test]
fn reset_keeps_generator_running() {
    let mut g = Game::new(1);
    turns(&mut g, "NNLNNNNNRNRRR");
    assert_eq!(g.status, GameStatus::Lost);
    let seed = g.rng.value;
    g.reset();
    let mut start_body: heapless::FnvIndexSet<(i8, i8), 32> = heapless::FnvIndexSet::new();
    start_body.insert((2, 2)).unwrap();
    start_body.insert((2, 1)).unwrap();
    let fresh_food = Coords::random(&mut Prng::new(seed), Some(&start_body));
    assert_eq!(g.food_coords, fresh_food);
    assert_eq!(g.snake.head, Coords { row: 2, col: 2 });
    assert_eq!(tail_of(&g), vec![(2, 1)]);
    assert_eq!(g.score, 0);
    assert_eq!(g.speed, 1);
    assert_eq!(g.status, GameStatus::Ongoing);
}

#[test]
fn step_intervals() {
    let mut g = Game::new(1);
    let expected = [(1u8, 1000u32), (2, 800), (3, 600), (4, 400), (5, 200), (6, 200), (255, 200)];
    for (speed, ms) in expected {
        g.speed = speed;
        assert_eq!(g.calc_step_interval(), ms);
    }
    g.speed = 0;
    assert_eq!(g.calc_step_interval(), 1200);
}

#[test]
fn score_matrix_lights_score_cells() {
    let mut g = Game::new(1);
    g.score = 7;
    let m = g.score_matrix();
    assert_eq!(m, [[1, 1, 1, 1, 1], [1, 1, 0, 0, 0], [0; 5], [0; 5], [0; 5]]);
    g.score = 0;
    assert_eq!(g.score_matrix(), [[0u8; 5]; 5]);
    g.score = 25;
    assert_eq!(g.score_matrix(), [[1u8; 5]; 5]);
    for score in 0..=25u8 {
        g.score = score;
        let lit: u32 = g.score_matrix().iter().flatten().map(|&v| v as u32).sum();
        assert_eq!(lit, score as u32);
    }
}

#[test]
fn game_matrix_layers() {
    let g = Game::new(1);
    let m = g.game_matrix(6, 3, 9);
    let mut expected = [[0u8; 5]; 5];
    expected[2][2] = 6;
    expected[2][1] = 3;
    expected[4][4] = 9;
    assert_eq!(m, expected);
}

#[test]
fn max_tail_is_twenty_three() {
    assert_eq!(MAX_TAIL, 23);
}

#[test]
fn snake_turns() {
    let mut s = Snake::new();
    s.turn_left();
    assert_eq!(s.direction, Direction::Up);
    s.turn_left();
    assert_eq!(s.direction, Direction::Left);
    s.turn_right();
    assert_eq!(s.direction, Direction::Up);
    s.make_turn(Turn::Right);
    assert_eq!(s.direction, Direction::Right);
    s.make_turn(Turn::NoTurn);
    assert_eq!(s.direction, Direction::Right);
    for _ in 0..4 {
        s.turn_right();
    }
    assert_eq!(s.direction, Direction::Right);
}

#[test]
fn move_snake_with_and_without_growth() {
    let mut s = Snake::new();
    s.move_snake(Coords { row: 2, col: 3 }, true);
    let tail: Vec<(i8, i8)> = s.tail.iter().copied().collect();
    assert_eq!(tail, vec![(2, 1), (2, 2)]);
    assert!(s.body_coords.contains(&(2, 3)));
    s.move_snake(Coords { row: 2, col: 4 }, false);
    let tail: Vec<(i8, i8)> = s.tail.iter().copied().collect();
    assert_eq!(tail, vec![(2, 2), (2, 3)]);
    assert!(!s.body_coords.contains(&(2, 1)));
    assert_eq!(s.head, Coords { row: 2, col: 4 });
}

#[test]
fn buttons_to_turns() {
    assert_eq!(turn_from_buttons(true, false), Turn::Left);
    assert_eq!(turn_from_buttons(false, true), Turn::Right);
    assert_eq!(turn_from_buttons(true, true), Turn::NoTurn);
    assert_eq!(turn_from_buttons(false, false), Turn::NoTurn);
}

#[test]
fn turn_latch_reads_and_resets() {
    let mut latch = TurnLatch::new();
    assert_eq!(latch.get_turn(true), Turn::NoTurn);
    latch.record(true, false);
    assert_eq!(latch.get_turn(false), Turn::Left);
    assert_eq!(latch.get_turn(true), Turn::Left);
    assert_eq!(latch.get_turn(true), Turn::NoTurn);
    latch.record(false, true);
    latch.record(true, true);
    assert_eq!(latch.get_turn(true), Turn::NoTurn);
}

#[test]
fn eating_off_the_computed_outcome() {
    let mut g = Game::new(1);
    assert_eq!(g.food_coords, Coords { row: 4, col: 4 });
    assert_eq!(g.rng.value, 67634689);
    g.execute_move(StepOutcome::Eat(Coords { row: 2, col: 3 }));
    assert_eq!(g.score, 1);
    assert_eq!(g.speed, 1);
    assert_eq!(g.status, GameStatus::Ongoing);
    assert_eq!(g.snake.head, Coords { row: 2, col: 3 });
    assert_eq!(tail_of(&g), vec![(2, 1), (2, 2)]);
    assert_eq!(body_of(&g), vec![(2, 1), (2, 2), (2, 3)]);
    assert_eq!(g.food_coords, Coords { row: 1, col: 0 });
    assert_eq!(g.rng.value, 307599695);
}

#[test]
fn win_and_loss_leave_the_snake_alone() {
    let mut g = Game::new(7);
    let food = g.food_coords;
    let rng = g.rng.value;
    g.execute_move(StepOutcome::Full(Coords { row: 0, col: 0 }));
    assert_eq!(g.status, GameStatus::Won);
    assert_eq!(g.snake.head, Coords { row: 2, col: 2 });
    assert_eq!(tail_of(&g), vec![(2, 1)]);
    assert_eq!((g.food_coords, g.rng.value, g.score, g.speed), (food, rng, 0, 1));
    g.execute_move(StepOutcome::Collision(Coords { row: 3, col: 3 }));
    assert_eq!(g.status, GameStatus::Lost);
    assert_eq!(tail_of(&g), vec![(2, 1)]);
}

#[test]
fn score_five_raises_the_speed() {
    let mut g = Game::new(1);
    g.score = 4;
    g.speed = 1;
    g.execute_move(StepOutcome::Eat(Coords { row: 2, col: 3 }));
    assert_eq!((g.score, g.speed), (5, 2));
}

#[test]
fn move_snake_grows_to_thirty_one_cells() {
    let mut s = Snake::new();
    let mut col: i8 = 3;
    let mut row: i8 = 0;
    for _ in 0..30 {
        s.move_snake(Coords { row, col }, true);
        col += 1;
        if col > 9 {
            col = 0;
            row += 1;
        }
    }
    assert_eq!(s.tail.len(), 31);
}

#[test]
fn plain_move_onto_the_oldest_cell_drops_it_from_the_blocking_set() {
    let mut s = Snake::new();
    s.move_snake(Coords { row: 2, col: 1 }, false);
    assert_eq!(s.head, Coords { row: 2, col: 1 });
    let tail: Vec<(i8, i8)> = s.tail.iter().copied().collect();
    assert_eq!(tail, vec![(2, 2)]);
    let mut body: Vec<(i8, i8)> = s.body_coords.iter().copied().collect();
    body.sort();
    assert_eq!(body, vec![(2, 2)]);
}
