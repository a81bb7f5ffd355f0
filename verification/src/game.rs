//! The snake game on the 5x5 LED board: moves, growth, food, score and the
//! images shown on the board.
use vstd::prelude::*;
use crate::collections::{
    queue_capacity, queue_items, queue_len, queue_peek, queue_to_vec, set_capacity, set_contains,
    set_items,
};
use crate::game_utils::{
    draw_free_cell, eventually_free, in_bounds, Coords, Direction, GameStatus, Prng, StepOutcome,
    Turn,
};
use crate::snake::{lemma_blocking_set_size, turned, Snake};

verus! {

broadcast use vstd::seq_lib::group_seq_properties;

/// The longest tail: with this many cells behind the head, reaching the food wins.
pub const MAX_TAIL: usize = 23;

/// A game in progress.
pub struct Game {
    pub rng: Prng,
    pub snake: Snake,
    pub food_coords: Coords,
    pub speed: u8,
    pub status: GameStatus,
    pub score: u8,
}

/// The cell one step from `head` in direction `d`, before wrapping.
pub open spec fn step_cell(head: Coords, d: Direction) -> Coords {
    match d {
        Direction::Up => Coords { row: (head.row - 1) as i8, col: head.col },
        Direction::Down => Coords { row: (head.row + 1) as i8, col: head.col },
        Direction::Left => Coords { row: head.row, col: (head.col - 1) as i8 },
        Direction::Right => Coords { row: head.row, col: (head.col + 1) as i8 },
    }
}

/// The step from `head` in direction `d` stays within `i8`.
pub open spec fn step_in_range(head: Coords, d: Direction) -> bool {
    match d {
        Direction::Up => head.row > i8::MIN,
        Direction::Down => head.row < i8::MAX,
        Direction::Left => head.col > i8::MIN,
        Direction::Right => head.col < i8::MAX,
    }
}

/// Moving the snake's head to `c` fits the collections: the tail has room
/// for the old head, and the blocking set has room for `c` or holds it.
pub open spec fn move_fits(s: Snake, c: Coords) -> bool {
    &&& queue_items(s.tail).len() < queue_capacity()
    &&& set_items(s.body_coords).contains(c.pair()) || set_items(s.body_coords).len() < set_capacity()
}

/// A cell that stepped off one edge of the board, brought back at the
/// opposite edge.
pub open spec fn wrap(c: Coords) -> Coords {
    if c.row < 0 {
        Coords { row: 4, ..c }
    } else if c.row > 4 {
        Coords { row: 0, ..c }
    } else if c.col < 0 {
        Coords { col: 4, ..c }
    } else {
        Coords { col: 0, ..c }
    }
}

/// The cell the head moves to next, wrapping around the edges.
pub open spec fn next_cell(head: Coords, d: Direction) -> Coords {
    let n = step_cell(head, d);
    if n.out_of_bounds() {
        wrap(n)
    } else {
        n
    }
}

/// The pause between two steps, in milliseconds, at a given speed: 1000 at
/// speed 1, 200 less for each further level, never below 200.
pub open spec fn step_interval(speed: u8) -> u32 {
    let interval = 1000 - (speed - 1) * 200;
    if interval < 200 {
        200
    } else {
        interval as u32
    }
}

/// The score image lights the first `score` cells in row-major order.
pub open spec fn score_cell(score: u8, r: int, c: int) -> u8 {
    if 5 * r + c < score {
        1
    } else {
        0
    }
}

/// Every speed from 1 up gives a pause between 200 and 1000 milliseconds,
/// and a higher speed never gives a longer pause.
pub proof fn lemma_step_interval_bounds(speed: u8, faster: u8)
    requires
        1 <= speed <= faster,
    ensures
        200 <= step_interval(speed) <= 1000,
        step_interval(faster) <= step_interval(speed),
{
}

/// Reaching the food wins only with a full tail: the step onto the food
/// (a cell off the blocking set) is a win exactly when the tail already
/// holds 23 cells, and with fewer it eats. Carrying out that eating step on
/// a well-formed game keeps it going, adds one point and one tail cell.
pub proof fn lemma_food_wins_only_when_full(g: Game, post: Game)
    ensures
        g.outcome() is Full ==> queue_items(g.snake.tail).len() == 23 && g.next_move()
            == g.food_coords && !set_items(g.snake.body_coords).contains(g.next_move().pair()),
        !set_items(g.snake.body_coords).contains(g.next_move().pair()) && g.next_move()
            == g.food_coords && queue_items(g.snake.tail).len() != 23 ==> g.outcome()
            == StepOutcome::Eat(g.next_move()),
        g.wf() && !set_items(g.snake.body_coords).contains(g.next_move().pair()) && g.next_move()
            == g.food_coords && queue_items(g.snake.tail).len() < 23 && Game::executed(
            g,
            post,
            g.outcome(),
        ) ==> post.status == GameStatus::Ongoing && post.score == g.score + 1 && queue_items(
            post.snake.tail,
        ).len() == queue_items(g.snake.tail).len() + 1,
{
}

impl Game {
    /// The game's invariant: the snake lies on the board with at most
    /// `MAX_TAIL` tail cells, the score counts the cells it has grown, the
    /// speed rises by one every five points, and the food lies on the board
    /// outside the blocking set.
    pub open spec fn wf(self) -> bool {
        &&& self.snake.wf()
        &&& queue_items(self.snake.tail).len() <= MAX_TAIL
        &&& self.score + 1 == queue_items(self.snake.tail).len()
        &&& self.speed == 1 + self.score / 5
        &&& !self.food_coords.out_of_bounds()
        &&& !set_items(self.snake.body_coords).contains(self.food_coords.pair())
    }

    /// The game as it is at the start: a fresh snake, score 0, speed 1.
    pub open spec fn is_fresh(self) -> bool {
        &&& self.snake.head == (Coords { row: 2, col: 2 })
        &&& queue_items(self.snake.tail) == seq![(2i8, 1i8)]
        &&& set_items(self.snake.body_coords) == set![(2i8, 2i8), (2i8, 1i8)]
        &&& self.snake.direction == Direction::Right
        &&& self.speed == 1
        &&& self.score == 0
        &&& self.status == GameStatus::Ongoing
    }

    /// The game with the snake's heading turned as `t` asks.
    pub open spec fn turned_by(self, t: Turn) -> Game {
        Game {
            snake: Snake { direction: turned(self.snake.direction, t), ..self.snake },
            ..self
        }
    }

    /// The cell the head moves to next.
    pub open spec fn next_move(self) -> Coords {
        next_cell(self.snake.head, self.snake.direction)
    }

    /// What the next step does: running into the blocking set loses unless
    /// the cell is the tail's oldest one, which is about to move away;
    /// reaching the food grows the snake, or wins once the tail has
    /// `MAX_TAIL` cells; anything else is a plain move.
    pub open spec fn outcome(self) -> StepOutcome {
        let n = self.next_move();
        if set_items(self.snake.body_coords).contains(n.pair()) {
            if n.pair() == queue_items(self.snake.tail)[0] {
                StepOutcome::MoveOnly(n)
            } else {
                StepOutcome::Collision(n)
            }
        } else if n == self.food_coords {
            if queue_items(self.snake.tail).len() == MAX_TAIL {
                StepOutcome::Full(n)
            } else {
                StepOutcome::Eat(n)
            }
        } else {
            StepOutcome::MoveOnly(n)
        }
    }

    /// `post` is `pre` after carrying out outcome `o`.
    pub open spec fn executed(pre: Game, post: Game, o: StepOutcome) -> bool {
        match o {
            StepOutcome::Full(_) => post == Game { status: GameStatus::Won, ..pre },
            StepOutcome::Collision(_) => post == Game { status: GameStatus::Lost, ..pre },
            StepOutcome::Eat(c) => {
                &&& post.status == GameStatus::Ongoing
                &&& post.snake.head == c
                &&& post.snake.direction == pre.snake.direction
                &&& queue_items(post.snake.tail) == queue_items(pre.snake.tail).push(
                    pre.snake.head.pair(),
                )
                &&& set_items(post.snake.body_coords) == set_items(pre.snake.body_coords).insert(
                    c.pair(),
                )
                &&& post.score == pre.score + 1
                &&& post.speed == (if (pre.score + 1) % 5 == 0 {
                    pre.speed + 1
                } else {
                    pre.speed as int
                })
                &&& (post.food_coords, post.rng.value) == draw_free_cell(
                    pre.rng.value,
                    set_items(post.snake.body_coords),
                )
            },
            StepOutcome::MoveOnly(c) => {
                &&& post.status == GameStatus::Ongoing
                &&& post.snake.head == c
                &&& post.snake.direction == pre.snake.direction
                &&& queue_items(post.snake.tail) == queue_items(pre.snake.tail).push(
                    pre.snake.head.pair(),
                ).drop_first()
                &&& set_items(post.snake.body_coords) == set_items(pre.snake.body_coords).insert(
                    c.pair(),
                ).remove(queue_items(pre.snake.tail).push(pre.snake.head.pair())[0])
                &&& post.score == pre.score
                &&& post.speed == pre.speed
                &&& post.food_coords == pre.food_coords
                &&& post.rng == pre.rng
            },
        }
    }

    /// A new game whose food is placed by a generator seeded with `rng_seed`.
    /// The food is drawn until it lands off the snake, so some draw must.
    pub fn new(rng_seed: u32) -> (g: Self)
        requires
            eventually_free(rng_seed, set![(2i8, 2i8), (2i8, 1i8)]),
        ensures
            g.wf(),
            g.is_fresh(),
            (g.food_coords, g.rng.value) == draw_free_cell(
                rng_seed,
                set![(2i8, 2i8), (2i8, 1i8)],
            ),
    {
        let mut rng = Prng::new(rng_seed);
        let snake = Snake::new();
        let food_coords = Coords::random(&mut rng, Option::Some(&snake.body_coords));
        Self { rng, snake, food_coords, speed: 1, status: GameStatus::Ongoing, score: 0 }
    }

    /// Starts over with a fresh snake; the generator carries on from its
    /// current state to place the food.
    pub fn reset(&mut self)
        requires
            eventually_free(old(self).rng.value, set![(2i8, 2i8), (2i8, 1i8)]),
        ensures
            final(self).wf(),
            final(self).is_fresh(),
            (final(self).food_coords, final(self).rng.value) == draw_free_cell(
                old(self).rng.value,
                set![(2i8, 2i8), (2i8, 1i8)],
            ),
    {
        self.snake = Snake::new();
        self.place_food();
        self.speed = 1;
        self.score = 0;
        self.status = GameStatus::Ongoing;
    }

    /// Puts the food on a cell outside the blocking set, drawn from the
    /// game's generator, and returns that cell.
    pub fn place_food(&mut self) -> (c: Coords)
        requires
            eventually_free(old(self).rng.value, set_items(old(self).snake.body_coords)),
        ensures
            c == final(self).food_coords,
            (c, final(self).rng.value) == draw_free_cell(
                old(self).rng.value,
                set_items(old(self).snake.body_coords),
            ),
            !c.out_of_bounds(),
            !set_items(old(self).snake.body_coords).contains(c.pair()),
            *final(self) == (Game { food_coords: c, rng: final(self).rng, ..*old(self) }),
    {
        let coords = Coords::random(&mut self.rng, Option::Some(&self.snake.body_coords));
        self.food_coords = coords;
        coords
    }

    /// Brings a cell that stepped off one edge back at the opposite edge.
    pub fn wraparound(&self, next_head_coords: Coords) -> (c: Coords)
        ensures
            c == wrap(next_head_coords),
    {
        if next_head_coords.row < 0 {
            Coords { row: 4, ..next_head_coords }
        } else if next_head_coords.row > 4 {
            Coords { row: 0, ..next_head_coords }
        } else if next_head_coords.col < 0 {
            Coords { col: 4, ..next_head_coords }
        } else {
            Coords { col: 0, ..next_head_coords }
        }
    }

    /// The cell the head moves to next; from a head on the board it lies
    /// on the board.
    pub fn get_next_move(&self) -> (c: Coords)
        requires
            step_in_range(self.snake.head, self.snake.direction),
        ensures
            c == self.next_move(),
            !self.snake.head.out_of_bounds() ==> !c.out_of_bounds(),
    {
        let head = &self.snake.head;
        let next_move = match self.snake.direction {
            Direction::Up => Coords { row: head.row - 1, col: head.col },
            Direction::Down => Coords { row: head.row + 1, col: head.col },
            Direction::Left => Coords { row: head.row, col: head.col - 1 },
            Direction::Right => Coords { row: head.row, col: head.col + 1 },
        };
        if next_move.is_out_of_bounds() {
            self.wraparound(next_move)
        } else {
            next_move
        }
    }

    /// Works out what the next step does.
    pub fn process_next_move(&self) -> (o: StepOutcome)
        requires
            step_in_range(self.snake.head, self.snake.direction),
            set_items(self.snake.body_coords).contains(self.next_move().pair()) ==> queue_items(
                self.snake.tail,
            ).len() > 0,
        ensures
            o == self.outcome(),
    {
        let next_move = self.get_next_move();
        if set_contains(&self.snake.body_coords, next_move.pair_exec()) {
            let oldest = queue_peek(&self.snake.tail).unwrap();
            if next_move.row == oldest.0 && next_move.col == oldest.1 {
                StepOutcome::MoveOnly(next_move)
            } else {
                StepOutcome::Collision(next_move)
            }
        } else if next_move == self.food_coords {
            if queue_len(&self.snake.tail) == MAX_TAIL {
                StepOutcome::Full(next_move)
            } else {
                StepOutcome::Eat(next_move)
            }
        } else {
            StepOutcome::MoveOnly(next_move)
        }
    }

    /// Carries out an outcome: a full board wins, a collision loses, eating
    /// grows the snake, raises the score (and the speed every five points)
    /// and places new food, a plain move shifts the snake. The food is drawn
    /// until it lands off the grown snake, so some draw must.
    pub fn execute_move(&mut self, next_move_outcome: StepOutcome)
        requires
            next_move_outcome matches StepOutcome::Eat(c) ==> {
                &&& move_fits(old(self).snake, c)
                &&& old(self).score < 255
                &&& (old(self).score + 1) % 5 == 0 ==> old(self).speed < 255
                &&& eventually_free(
                    old(self).rng.value,
                    set_items(old(self).snake.body_coords).insert(c.pair()),
                )
            },
            next_move_outcome matches StepOutcome::MoveOnly(c) ==> move_fits(old(self).snake, c),
        ensures
            Self::executed(*old(self), *final(self), next_move_outcome),
            old(self).wf() && next_move_outcome == old(self).outcome() ==> final(self).wf(),
            old(self).speed == 1 + old(self).score / 5 ==> final(self).speed == 1
                + final(self).score / 5,
            old(self).score <= final(self).score <= old(self).score + 1,
    {
        let ghost pre = *self;
        match next_move_outcome {
            StepOutcome::Full(_) => {
                self.status = GameStatus::Won;
            },
            StepOutcome::Collision(_) => {
                self.status = GameStatus::Lost;
            },
            StepOutcome::Eat(coords) => {
                self.snake.move_snake(coords, true);
                assert(set_items(self.snake.body_coords) == set_items(pre.snake.body_coords).insert(
                    coords.pair(),
                ));
                self.score += 1;
                if self.score % 5 == 0 {
                    self.speed += 1;
                }
                self.place_food();
                self.status = GameStatus::Ongoing;
                proof {
                    if pre.wf() && next_move_outcome == pre.outcome() {
                        lemma_blocking_set_size(
                            set_items(pre.snake.body_coords),
                            queue_items(pre.snake.tail),
                            pre.snake.head.pair(),
                        );
                    }
                }
            },
            StepOutcome::MoveOnly(coords) => {
                self.snake.move_snake(coords, false);
                self.status = GameStatus::Ongoing;
            },
        }
    }

    /// One step of the game: applies the turn, then the resulting move. The
    /// food is drawn until it lands off the snake, so where the step eats,
    /// some draw must.
    pub fn step(&mut self, turn: Turn)
        requires
            old(self).wf(),
            old(self).turned_by(turn).outcome() matches StepOutcome::Eat(c) ==> eventually_free(
                old(self).rng.value,
                set_items(old(self).snake.body_coords).insert(c.pair()),
            ),
        ensures
            final(self).wf(),
            Self::executed(
                old(self).turned_by(turn),
                *final(self),
                old(self).turned_by(turn).outcome(),
            ),
    {
        self.snake.make_turn(turn);
        assert(*self == old(self).turned_by(turn));
        proof {
            lemma_blocking_set_size(
                set_items(self.snake.body_coords),
                queue_items(self.snake.tail),
                self.snake.head.pair(),
            );
        }
        let next_move = self.process_next_move();
        self.execute_move(next_move);
    }

    /// The pause before the next step, in milliseconds.
    pub fn calc_step_interval(&self) -> (ms: u32)
        ensures
            ms == step_interval(self.speed),
    {
        let interval: i32 = 1000 - (((self.speed as i32) - 1) * 200);
        if interval < 200 {
            200u32
        } else {
            interval as u32
        }
    }

    /// The board image: the food at its brightness, the tail cells at theirs,
    /// the head at its own, all other cells dark; where they overlap the food
    /// shows over the tail and the tail over the head.
    pub fn game_matrix(&self, head_brightness: u8, tail_brightness: u8, food_brightness: u8) -> (m:
        [[u8; 5]; 5])
        requires
            !self.snake.head.out_of_bounds(),
            !self.food_coords.out_of_bounds(),
            forall|i: int|
                0 <= i < queue_items(self.snake.tail).len() ==> in_bounds(
                    #[trigger] queue_items(self.snake.tail)[i],
                ),
        ensures
            forall|r: int, c: int|
                0 <= r < 5 && 0 <= c < 5 ==> #[trigger] m[r][c] == (if (r as i8, c as i8)
                    == self.food_coords.pair() {
                    food_brightness
                } else if queue_items(self.snake.tail).contains((r as i8, c as i8)) {
                    tail_brightness
                } else if (r as i8, c as i8) == self.snake.head.pair() {
                    head_brightness
                } else {
                    0
                }),
    {
        let mut board_leds = [[0u8; 5]; 5];
        let hr = self.snake.head.row as usize;
        let hc = self.snake.head.col as usize;
        board_leds[hr][hc] = head_brightness;
        let cells = queue_to_vec(&self.snake.tail);
        let ghost t = queue_items(self.snake.tail);
        let mut i: usize = 0;
        while i < cells.len()
            invariant
                cells@ == t,
                t == queue_items(self.snake.tail),
                forall|j: int| 0 <= j < t.len() ==> in_bounds(#[trigger] t[j]),
                0 <= i <= cells.len(),
                hr == self.snake.head.row,
                hc == self.snake.head.col,
                forall|r: int, c: int|
                    0 <= r < 5 && 0 <= c < 5 ==> #[trigger] board_leds[r][c] == (if t.take(
                        i as int,
                    ).contains((r as i8, c as i8)) {
                        tail_brightness
                    } else if (r as i8, c as i8) == self.snake.head.pair() {
                        head_brightness
                    } else {
                        0
                    }),
            decreases cells.len() - i,
        {
            let cell = cells[i];
            assert(in_bounds(t[i as int]));
            let r = cell.0 as usize;
            let c = cell.1 as usize;
            board_leds[r][c] = tail_brightness;
            proof {
                assert(t.take(i + 1) == t.take(i as int).push(cell));
            }
            i = i + 1;
        }
        assert(t.take(cells.len() as int) == t);
        let fr = self.food_coords.row as usize;
        let fc = self.food_coords.col as usize;
        board_leds[fr][fc] = food_brightness;
        board_leds
    }

    /// The score image: one lit cell per point, filling rows from the top.
    pub fn score_matrix(&self) -> (m: [[u8; 5]; 5])
        requires
            self.score <= 25,
        ensures
            forall|r: int, c: int|
                0 <= r < 5 && 0 <= c < 5 ==> #[trigger] m[r][c] == score_cell(self.score, r, c),
    {
        let mut board_leds = [[0u8; 5]; 5];
        let score_rows = (self.score as usize) / 5;
        let score_cols = (self.score as usize) % 5;
        let mut row: usize = 0;
        while row < score_rows
            invariant
                score_rows == self.score / 5,
                score_cols == self.score % 5,
                self.score <= 25,
                0 <= row <= score_rows,
                forall|r: int, c: int|
                    0 <= r < 5 && 0 <= c < 5 ==> #[trigger] board_leds[r][c] == (if r < row {
                        1u8
                    } else {
                        0u8
                    }),
            decreases score_rows - row,
        {
            board_leds[row] = [1; 5];
            row = row + 1;
        }
        let mut col: usize = 0;
        while col < score_cols
            invariant
                score_rows == self.score / 5,
                score_cols == self.score % 5,
                self.score <= 25,
                0 <= col <= score_cols,
                forall|r: int, c: int|
                    0 <= r < 5 && 0 <= c < 5 ==> #[trigger] board_leds[r][c] == (if r
                        < score_rows || (r == score_rows && c < col) {
                        1u8
                    } else {
                        0u8
                    }),
            decreases score_cols - col,
        {
            board_leds[score_rows][col] = 1;
            col = col + 1;
        }
        board_leds
    }
}

} // verus!
