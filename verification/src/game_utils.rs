//! Small types of the snake game: board cells, headings, turns, outcomes and
//! the xorshift generator that places the food.
use vstd::prelude::*;
use heapless::FnvIndexSet;
use crate::collections::{set_contains, set_items};

verus! {

/// Where the snake's head is heading.
#[derive(Debug, Clone, Copy, PartialEq, Eq, Structural)]
pub enum Direction {
    Up,
    Down,
    Left,
    Right,
}

/// What the next step of the game would do.
#[derive(Debug, Clone, Copy, PartialEq, Eq, Structural)]
pub enum StepOutcome {
    /// The snake reaches the food with no room left to grow: the game is won.
    Full(Coords),
    /// The snake eats the food and grows.
    Eat(Coords),
    /// The snake runs into itself: the game is lost.
    Collision(Coords),
    /// The snake moves without growing.
    MoveOnly(Coords),
}

/// A turn requested by the buttons.
#[derive(Debug, Clone, Copy, PartialEq, Eq, Structural)]
pub enum Turn {
    Left,
    Right,
    NoTurn,
}

/// Whether the game goes on.
#[derive(Debug, Clone, Copy, PartialEq, Eq, Structural)]
pub enum GameStatus {
    Ongoing,
    Won,
    Lost,
}

/// A cell of the 5x5 board; signed so that a step off the board can be told.
#[derive(Debug, Clone, Copy, PartialEq, Eq, Hash, Structural)]
pub struct Coords {
    pub row: i8,
    pub col: i8,
}

/// A cell given as a pair (row, column), the form the board collections hold.
pub open spec fn in_bounds(p: (i8, i8)) -> bool {
    0 <= p.0 <= 4 && 0 <= p.1 <= 4
}

/// The cell numbered `i` in row-major order.
pub open spec fn cell_of(i: int) -> (i8, i8) {
    ((i / 5) as i8, (i % 5) as i8)
}

/// Some cell of the board that `s` does not hold.
pub open spec fn has_free_cell(s: Set<(i8, i8)>) -> bool {
    exists|p: (i8, i8)| in_bounds(p) && !s.contains(p)
}

/// One step of the xorshift32 generator (shifts 13, 17, 5).
pub open spec fn xorshift(x: u32) -> u32 {
    let a = x ^ (x << 13u32);
    let b = a ^ (a >> 17u32);
    b ^ (b << 5u32)
}

/// The generator's state after `n` steps from `seed`.
pub open spec fn prng_state(seed: u32, n: nat) -> u32
    decreases n,
{
    if n == 0 {
        seed
    } else {
        xorshift(prng_state(seed, (n - 1) as nat))
    }
}

/// One more step of the generator.
pub proof fn lemma_prng_step(seed: u32, n: nat)
    ensures
        prng_state(seed, n + 1) == xorshift(prng_state(seed, n)),
{
    assert(prng_state(seed, n + 1) == xorshift(prng_state(seed, ((n + 1) - 1) as nat)));
}

/// The `k`-th cell drawn from a generator seeded with `seed`: the row from
/// draw `2k + 1`, the column from draw `2k + 2`, each taken modulo 5.
pub open spec fn candidate(seed: u32, k: nat) -> Coords {
    Coords {
        row: (prng_state(seed, 2 * k + 1) % 5) as i8,
        col: (prng_state(seed, 2 * k + 2) % 5) as i8,
    }
}

/// Some draw, sooner or later, lands on a cell outside `s`.
pub open spec fn eventually_free(seed: u32, s: Set<(i8, i8)>) -> bool {
    exists|k: nat| !s.contains(#[trigger] candidate(seed, k).pair())
}

/// Draw `k` is the first that lands on a cell outside `s`.
pub open spec fn is_first_free_draw(seed: u32, s: Set<(i8, i8)>, k: nat) -> bool {
    &&& !s.contains(candidate(seed, k).pair())
    &&& forall|j: nat| j < k ==> s.contains(#[trigger] candidate(seed, j).pair())
}

/// The index of the first draw that lands outside `s`.
pub open spec fn first_free_draw(seed: u32, s: Set<(i8, i8)>) -> nat {
    choose|k: nat| is_first_free_draw(seed, s, k)
}

/// The cell that rejection sampling from `seed` picks outside `s`, with the
/// generator's state afterwards: the first draw that lands outside `s`.
/// Meaningful where `eventually_free(seed, s)`.
pub open spec fn draw_free_cell(seed: u32, s: Set<(i8, i8)>) -> (Coords, u32) {
    let k = first_free_draw(seed, s);
    (candidate(seed, k), prng_state(seed, 2 * k + 2))
}

impl Coords {
    /// The cell as a pair (row, column).
    pub open spec fn pair(self) -> (i8, i8) {
        (self.row, self.col)
    }

    /// Off the 5x5 board.
    pub open spec fn out_of_bounds(self) -> bool {
        self.row < 0 || self.row > 4 || self.col < 0 || self.col > 4
    }

    /// Draws cells from `range` until one is not in `exclude`.
    ///
    /// Each draw takes two numbers from the generator, the row first, each
    /// modulo 5. The drawing goes on until a cell outside `exclude` comes up,
    /// so the caller must know that one does.
    pub fn random(range: &mut Prng, exclude: Option<&FnvIndexSet<(i8, i8), 32>>) -> (c: Coords)
        requires
            exclude matches Some(s) ==> eventually_free(old(range).value, set_items(*s)),
        ensures
            !c.out_of_bounds(),
            exclude is None ==> c == candidate(old(range).value, 0) && final(range).value
                == prng_state(old(range).value, 2),
            exclude matches Some(s) ==> !set_items(*s).contains(c.pair()),
            exclude matches Some(s) ==> (c, final(range).value) == draw_free_cell(
                old(range).value,
                set_items(*s),
            ),
    {
        let ghost seed = range.value;
        let r0 = range.random_u32();
        proof {
            lemma_prng_step(seed, 0);
        }
        let c0 = range.random_u32();
        proof {
            lemma_prng_step(seed, 1);
        }
        let mut coords = Coords { row: ((r0 as usize) % 5) as i8, col: ((c0 as usize) % 5) as i8 };
        assert(coords == candidate(seed, 0));
        match exclude {
            None => coords,
            Some(set) => {
                let ghost s = set_items(*set);
                let ghost w: nat = choose|k: nat| !s.contains(#[trigger] candidate(seed, k).pair());
                let ghost mut draws: nat = 1;
                while set_contains(set, coords.pair_exec())
                    invariant
                        draws >= 1,
                        s == set_items(*set),
                        !s.contains(candidate(seed, w).pair()),
                        coords == candidate(seed, (draws - 1) as nat),
                        range.value == prng_state(seed, 2 * draws),
                        forall|j: nat| j < draws - 1 ==> s.contains(#[trigger] candidate(seed, j).pair()),
                        draws - 1 <= w,
                    decreases w + 1 - draws,
                {
                    assert(w != draws - 1);
                    let r = range.random_u32();
                    proof {
                        lemma_prng_step(seed, 2 * draws);
                    }
                    let c = range.random_u32();
                    proof {
                        lemma_prng_step(seed, 2 * draws + 1);
                    }
                    coords = Coords { row: ((r as usize) % 5) as i8, col: ((c as usize) % 5) as i8 };
                    proof {
                        draws = draws + 1;
                    }
                    assert(coords == candidate(seed, (draws - 1) as nat));
                }
                proof {
                    let k = (draws - 1) as nat;
                    assert(is_first_free_draw(seed, s, k));
                    let k2 = first_free_draw(seed, s);
                    assert(is_first_free_draw(seed, s, k2));
                    if k2 < k {
                        assert(s.contains(candidate(seed, k2).pair()));
                    }
                    if k < k2 {
                        assert(s.contains(candidate(seed, k).pair()));
                    }
                }
                coords
            },
        }
    }

    /// The cell as a pair (row, column).
    pub fn pair_exec(&self) -> (p: (i8, i8))
        ensures
            p == self.pair(),
    {
        (self.row, self.col)
    }

    /// Off the 5x5 board.
    pub fn is_out_of_bounds(&self) -> (r: bool)
        ensures
            r == self.out_of_bounds(),
    {
        self.row < 0 || self.row > 4 || self.col < 0 || self.col > 4
    }
}

/// A xorshift32 pseudo-random number generator.
pub struct Prng {
    pub value: u32,
}

impl Prng {
    /// A generator whose state is `seed`.
    pub fn new(seed: u32) -> (p: Self)
        ensures
            p.value == seed,
    {
        Self { value: seed }
    }

    /// One xorshift32 step applied to `input`; the generator's state is not read.
    pub fn xorshift32(&self, input: u32) -> (r: u32)
        ensures
            r == xorshift(input),
    {
        let mut input = input;
        input ^= input << 13u32;
        input ^= input >> 17u32;
        input ^= input << 5u32;
        input
    }

    /// Advances the generator one step and returns the new state.
    pub fn random_u32(&mut self) -> (r: u32)
        ensures
            r == xorshift(old(self).value),
            final(self).value == r,
    {
        self.value = self.xorshift32(self.value);
        self.value
    }
}

/// Zero is the one state the generator never leaves, and it never reaches
/// it from any other state: one step maps zero to zero and every non-zero
/// state to a non-zero state.
pub proof fn lemma_xorshift_zero(x: u32)
    ensures
        xorshift(x) == 0 <==> x == 0,
{
    assert((x ^ (x << 13u32)) == 0 <==> x == 0) by (bit_vector);
    let a = x ^ (x << 13u32);
    assert((a ^ (a >> 17u32)) == 0 <==> a == 0) by (bit_vector);
    let b = a ^ (a >> 17u32);
    assert((b ^ (b << 5u32)) == 0 <==> b == 0) by (bit_vector);
}

/// The turn that the two buttons ask for: A alone turns left, B alone turns
/// right, anything else asks for no turn.
pub open spec fn buttons_turn(a_pressed: bool, b_pressed: bool) -> Turn {
    if a_pressed && !b_pressed {
        Turn::Left
    } else if !a_pressed && b_pressed {
        Turn::Right
    } else {
        Turn::NoTurn
    }
}

/// The turn that the two buttons ask for.
pub fn turn_from_buttons(a_pressed: bool, b_pressed: bool) -> (t: Turn)
    ensures
        t == buttons_turn(a_pressed, b_pressed),
{
    match (a_pressed, b_pressed) {
        (true, false) => Turn::Left,
        (false, true) => Turn::Right,
        _ => Turn::NoTurn,
    }
}

/// The turn last asked for by the buttons, kept until the game reads it.
pub struct TurnLatch {
    pub turn: Turn,
}

impl TurnLatch {
    /// No turn asked for yet.
    pub fn new() -> (l: Self)
        ensures
            l.turn == Turn::NoTurn,
    {
        TurnLatch { turn: Turn::NoTurn }
    }

    /// The button interrupt: records the turn that the buttons ask for,
    /// replacing any earlier one.
    pub fn record(&mut self, a_pressed: bool, b_pressed: bool)
        ensures
            final(self).turn == buttons_turn(a_pressed, b_pressed),
    {
        self.turn = turn_from_buttons(a_pressed, b_pressed);
    }

    /// Reads the recorded turn; with `reset` the latch goes back to no turn.
    pub fn get_turn(&mut self, reset: bool) -> (t: Turn)
        ensures
            t == old(self).turn,
            final(self).turn == (if reset {
                Turn::NoTurn
            } else {
                old(self).turn
            }),
    {
        let turn = self.turn;
        if reset {
            self.turn = Turn::NoTurn;
        }
        turn
    }
}

} // verus!
