//! The snake: its head, the queue of cells behind it, the set of cells it
//! blocks, and its heading.
use vstd::prelude::*;
use heapless::spsc::Queue;
use heapless::FnvIndexSet;
use crate::collections::{
    set_capacity, queue_capacity, queue_dequeue, queue_enqueue, queue_items, queue_new, set_insert, set_items,
    set_new, set_remove,
};
use crate::game_utils::{cell_of, has_free_cell, in_bounds, Coords, Direction, Turn};

verus! {

broadcast use vstd::seq_lib::group_seq_properties;

/// The snake on the board.
///
/// `tail` holds the cells behind the head, oldest first; `body_coords` is the
/// set that moves are checked against. Every cell of that set is the head or a
/// cell of the tail; a step onto the tail's oldest cell takes that cell out of
/// the set, so the converse need not hold.
pub struct Snake {
    pub head: Coords,
    pub tail: Queue<(i8, i8), 32>,
    pub body_coords: FnvIndexSet<(i8, i8), 32>,
    pub direction: Direction,
}

/// The heading after a quarter turn to the left.
pub open spec fn left_of(d: Direction) -> Direction {
    match d {
        Direction::Up => Direction::Left,
        Direction::Down => Direction::Right,
        Direction::Left => Direction::Down,
        Direction::Right => Direction::Up,
    }
}

/// The heading after a quarter turn to the right.
pub open spec fn right_of(d: Direction) -> Direction {
    match d {
        Direction::Up => Direction::Right,
        Direction::Down => Direction::Left,
        Direction::Left => Direction::Up,
        Direction::Right => Direction::Down,
    }
}

/// The heading after the requested turn.
pub open spec fn turned(d: Direction, t: Turn) -> Direction {
    match t {
        Turn::Left => left_of(d),
        Turn::Right => right_of(d),
        Turn::NoTurn => d,
    }
}

/// A left turn undoes a right turn and the other way round; four turns the
/// same way bring the snake back to its heading.
pub proof fn lemma_turns_cancel(d: Direction)
    ensures
        left_of(right_of(d)) == d,
        right_of(left_of(d)) == d,
        left_of(left_of(left_of(left_of(d)))) == d,
        right_of(right_of(right_of(right_of(d)))) == d,
{
}

impl Snake {
    /// The cells the snake covers: the head and every cell of the tail.
    pub open spec fn cells(self) -> Set<(i8, i8)> {
        queue_items(self.tail).to_set().insert(self.head.pair())
    }

    /// The snake lies on the board, its tail is not empty and has room for
    /// one more cell, and the blocking set holds only cells of the snake.
    pub open spec fn wf(self) -> bool {
        &&& !self.head.out_of_bounds()
        &&& forall|i: int|
            0 <= i < queue_items(self.tail).len() ==> in_bounds(#[trigger] queue_items(self.tail)[i])
        &&& 1 <= queue_items(self.tail).len() < queue_capacity()
        &&& set_items(self.body_coords).subset_of(self.cells())
    }

    /// The snake at the start of a game: head at (2, 2), one tail cell at
    /// (2, 1), heading right.
    pub fn new() -> (s: Self)
        ensures
            s.wf(),
            s.head == (Coords { row: 2, col: 2 }),
            queue_items(s.tail) == seq![(2i8, 1i8)],
            set_items(s.body_coords) == set![(2i8, 2i8), (2i8, 1i8)],
            s.direction == Direction::Right,
    {
        let head = Coords { row: 2, col: 2 };
        let initial_tail = Coords { row: 2, col: 1 };
        let mut tail = queue_new();
        let r = queue_enqueue(&mut tail, initial_tail.pair_exec());
        assert(r is Ok);
        let mut body_coords = set_new();
        let r1 = set_insert(&mut body_coords, head.pair_exec());
        assert(r1 is Ok);
        let r2 = set_insert(&mut body_coords, initial_tail.pair_exec());
        assert(r2 is Ok);
        proof {
            assert(queue_items(tail) =~= seq![(2i8, 1i8)]);
            assert(set_items(body_coords) =~= set![(2i8, 2i8), (2i8, 1i8)]);
            assert(queue_items(tail)[0] == (2i8, 1i8));
            assert(queue_items(tail).to_set().contains((2i8, 1i8)));
        }
        Self { head, tail, body_coords, direction: Direction::Right }
    }

    /// The blocking set holds exactly the snake's cells, and the tail holds
    /// each cell once and not the head.
    pub open spec fn body_exact(self) -> bool {
        &&& set_items(self.body_coords) == self.cells()
        &&& !queue_items(self.tail).contains(self.head.pair())
        &&& queue_items(self.tail).no_duplicates()
    }

    /// Moves the head to `to_coords`, the old head joining the back of the
    /// tail; unless `extend`, the tail's oldest cell is dropped and taken out
    /// of the blocking set.
    pub fn move_snake(&mut self, to_coords: Coords, extend: bool)
        requires
            queue_items(old(self).tail).len() < queue_capacity(),
            set_items(old(self).body_coords).contains(to_coords.pair()) || set_items(
                old(self).body_coords,
            ).len() < set_capacity(),
        ensures
            final(self).head == to_coords,
            final(self).direction == old(self).direction,
            extend ==> queue_items(final(self).tail) == queue_items(old(self).tail).push(
                old(self).head.pair(),
            ),
            extend ==> set_items(final(self).body_coords) == set_items(old(self).body_coords).insert(
                to_coords.pair(),
            ),
            !extend ==> queue_items(final(self).tail) == queue_items(old(self).tail).push(
                old(self).head.pair(),
            ).drop_first(),
            !extend ==> set_items(final(self).body_coords) == set_items(
                old(self).body_coords,
            ).insert(to_coords.pair()).remove(
                queue_items(old(self).tail).push(old(self).head.pair())[0],
            ),
            old(self).wf() && !to_coords.out_of_bounds() && (extend ==> queue_items(
                old(self).tail,
            ).len() + 1 < queue_capacity()) ==> final(self).wf(),
            old(self).body_exact() && !set_items(old(self).body_coords).contains(to_coords.pair())
                ==> final(self).body_exact(),
    {
        let ghost pre = *self;
        let ghost t0 = queue_items(self.tail);
        let ghost b0 = set_items(self.body_coords);
        let ghost h0 = self.head.pair();
        let r = queue_enqueue(&mut self.tail, self.head.pair_exec());
        assert(r is Ok);
        self.head = to_coords;
        let r2 = set_insert(&mut self.body_coords, to_coords.pair_exec());
        assert(r2 is Ok);
        if !extend {
            let back = queue_dequeue(&mut self.tail);
            assert(back is Some);
            let back = back.unwrap();
            set_remove(&mut self.body_coords, back);
            proof {
                let t1 = t0.push(h0).drop_first();
                assert(queue_items(self.tail) == t1);
                if pre.wf() && !to_coords.out_of_bounds() {
                    assert forall|x: (i8, i8)| set_items(self.body_coords).contains(x) implies
                        self.cells().contains(x) by {
                        if x != to_coords.pair() {
                            assert(b0.contains(x));
                            assert(x != t0[0]);
                            if x == h0 {
                                assert(t1[t1.len() - 1] == h0);
                            } else {
                                assert(t0.to_set().contains(x));
                                let i = choose|i: int| 0 <= i < t0.len() && t0[i] == x;
                                assert(i != 0);
                                assert(t1[i - 1] == x);
                            }
                            assert(t1.to_set().contains(x));
                        }
                    }
                }
                if pre.body_exact() && !b0.contains(to_coords.pair()) {
                    lemma_exact_after_move(t0, b0, h0, to_coords.pair(), false);
                }
            }
        } else {
            proof {
                let t1 = t0.push(h0);
                if pre.wf() && !to_coords.out_of_bounds() {
                    assert forall|x: (i8, i8)| set_items(self.body_coords).contains(x) implies
                        self.cells().contains(x) by {
                        if x != to_coords.pair() {
                            assert(b0.contains(x));
                            if x == h0 {
                                assert(t1[t1.len() - 1] == h0);
                            } else {
                                let i = choose|i: int| 0 <= i < t0.len() && t0[i] == x;
                                assert(t1[i] == x);
                            }
                            assert(t1.to_set().contains(x));
                        }
                    }
                }
                if pre.body_exact() && !b0.contains(to_coords.pair()) {
                    lemma_exact_after_move(t0, b0, h0, to_coords.pair(), true);
                }
            }
        }
    }

    /// Turns the heading a quarter to the left.
    pub fn turn_left(&mut self)
        ensures
            final(self).direction == left_of(old(self).direction),
            final(self).head == old(self).head,
            final(self).tail == old(self).tail,
            final(self).body_coords == old(self).body_coords,
    {
        self.direction =
        match self.direction {
            Direction::Up => Direction::Left,
            Direction::Down => Direction::Right,
            Direction::Left => Direction::Down,
            Direction::Right => Direction::Up,
        }
    }

    /// Turns the heading a quarter to the right.
    pub fn turn_right(&mut self)
        ensures
            final(self).direction == right_of(old(self).direction),
            final(self).head == old(self).head,
            final(self).tail == old(self).tail,
            final(self).body_coords == old(self).body_coords,
    {
        self.direction =
        match self.direction {
            Direction::Up => Direction::Right,
            Direction::Down => Direction::Left,
            Direction::Left => Direction::Up,
            Direction::Right => Direction::Down,
        }
    }

    /// Applies the requested turn; `Turn::NoTurn` keeps the heading.
    pub fn make_turn(&mut self, direction: Turn)
        ensures
            final(self).direction == turned(old(self).direction, direction),
            final(self).head == old(self).head,
            final(self).tail == old(self).tail,
            final(self).body_coords == old(self).body_coords,
    {
        match direction {
            Turn::Left => self.turn_left(),
            Turn::Right => self.turn_right(),
            Turn::NoTurn => (),
        }
    }
}

/// A move onto a cell outside an exact blocking set leaves it exact: with
/// `b` the head `h` and the cells of a duplicate-free tail `t` that does not
/// hold `h`, moving the head to `n` (not in `b`) gives a tail and set of the
/// same kind.
pub proof fn lemma_exact_after_move(t: Seq<(i8, i8)>, b: Set<(i8, i8)>, h: (i8, i8), n: (i8, i8), extend: bool)
    requires
        b == t.to_set().insert(h),
        !t.contains(h),
        t.no_duplicates(),
        !b.contains(n),
    ensures
        ({
            let t1 = if extend { t.push(h) } else { t.push(h).drop_first() };
            let b1 = if extend { b.insert(n) } else { b.insert(n).remove(t.push(h)[0]) };
            &&& b1 == t1.to_set().insert(n)
            &&& !t1.contains(n)
            &&& t1.no_duplicates()
        }),
{
    let tp = t.push(h);
    assert(!t.contains(n));
    assert(n != h);
    assert(tp.no_duplicates()) by {
        assert forall|i: int, j: int| 0 <= i < tp.len() && 0 <= j < tp.len() && i != j implies tp[i]
            != tp[j] by {
            if i < t.len() && j < t.len() {
                assert(tp[i] == t[i] && tp[j] == t[j]);
            } else if i < t.len() {
                assert(tp[i] == t[i] && tp[j] == h);
            } else {
                assert(tp[i] == h && tp[j] == t[j]);
            }
        }
    }
    assert(!tp.contains(n)) by {
        if tp.contains(n) {
            let i = choose|i: int| 0 <= i < tp.len() && tp[i] == n;
            if i < t.len() {
                assert(t[i] == n);
            }
        }
    }
    assert(tp.to_set() =~= t.to_set().insert(h)) by {
        assert forall|x: (i8, i8)| tp.to_set().contains(x) implies t.to_set().insert(h).contains(x) by {
            let i = choose|i: int| 0 <= i < tp.len() && tp[i] == x;
            if i < t.len() {
                assert(t[i] == x);
            }
        }
        assert forall|x: (i8, i8)| t.to_set().insert(h).contains(x) implies tp.to_set().contains(x) by {
            if x == h {
                assert(tp[tp.len() - 1] == h);
            } else {
                let i = choose|i: int| 0 <= i < t.len() && t[i] == x;
                assert(tp[i] == x);
            }
        }
    }
    if extend {
        assert(b.insert(n) =~= tp.to_set().insert(n));
    } else {
        let t1 = tp.drop_first();
        let f = tp[0];
        assert(t1.no_duplicates()) by {
            assert forall|i: int, j: int| 0 <= i < t1.len() && 0 <= j < t1.len() && i != j implies t1[i]
                != t1[j] by {
                assert(t1[i] == tp[i + 1] && t1[j] == tp[j + 1]);
            }
        }
        assert(!t1.contains(n)) by {
            if t1.contains(n) {
                let i = choose|i: int| 0 <= i < t1.len() && t1[i] == n;
                assert(tp[i + 1] == n);
            }
        }
        assert(b.insert(n).remove(f) =~= t1.to_set().insert(n)) by {
            assert forall|x: (i8, i8)| b.insert(n).remove(f).contains(x) implies t1.to_set().insert(n).contains(x) by {
                if x != n {
                    assert(tp.to_set().contains(x));
                    let i = choose|i: int| 0 <= i < tp.len() && tp[i] == x;
                    assert(i != 0);
                    assert(t1[i - 1] == x);
                }
            }
            assert forall|x: (i8, i8)| t1.to_set().insert(n).contains(x) implies b.insert(n).remove(f).contains(x) by {
                if x != n {
                    let i = choose|i: int| 0 <= i < t1.len() && t1[i] == x;
                    assert(tp[i + 1] == x);
                    assert(tp[0] != tp[i + 1]);
                    assert(tp.to_set().contains(x));
                }
            }
        }
    }
}

/// A blocking set that holds only cells of the head and tail holds at most
/// one more cell than the tail, and is finite.
pub proof fn lemma_blocking_set_size(b: Set<(i8, i8)>, t: Seq<(i8, i8)>, h: (i8, i8))
    requires
        b.subset_of(t.to_set().insert(h)),
    ensures
        b.finite(),
        b.len() <= t.len() + 1,
{
    t.lemma_cardinality_of_set();
    vstd::seq_lib::seq_to_set_is_finite(t);
    vstd::set_lib::lemma_len_subset(b, t.to_set().insert(h));
}

/// The board as a sequence of its 25 cells in row-major order.
pub open spec fn board_cells() -> Seq<(i8, i8)> {
    Seq::new(25, |i: int| cell_of(i))
}

/// A blocking set that holds only cells of the head and a tail of at most 23
/// cells leaves some cell of the board free.
pub proof fn lemma_free_cell_left(b: Set<(i8, i8)>, t: Seq<(i8, i8)>, h: (i8, i8))
    requires
        b.subset_of(t.to_set().insert(h)),
        t.len() <= 23,
    ensures
        has_free_cell(b),
{
    lemma_blocking_set_size(b, t, h);
    let g = board_cells();
    assert forall|i: int, j: int| 0 <= i < g.len() && 0 <= j < g.len() && i != j implies g[i]
        != g[j] by {
        assert(g[i] == cell_of(i) && g[j] == cell_of(j));
        assert(i == 5 * (i / 5) + i % 5);
        assert(j == 5 * (j / 5) + j % 5);
    }
    assert(g.no_duplicates());
    g.unique_seq_to_set();
    if !has_free_cell(b) {
        assert forall|x: (i8, i8)| g.to_set().contains(x) implies b.contains(x) by {
            let i = choose|i: int| 0 <= i < g.len() && g[i] == x;
            assert(in_bounds(cell_of(i)));
        }
        vstd::set_lib::lemma_len_subset(g.to_set(), b);
        assert(false);
    }
}

} // verus!
