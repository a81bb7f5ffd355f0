//! The LED roulette: one lit cell running clockwise round the edge of the
//! 5x5 board.
use vstd::prelude::*;

verus! {

/// The 16 edge cells in the order the light visits them, clockwise from the
/// top-left corner.
pub open spec fn ring() -> Seq<(usize, usize)> {
    seq![
        (0, 0), (0, 1), (0, 2), (0, 3), (0, 4), (1, 4), (2, 4), (3, 4),
        (4, 4), (4, 3), (4, 2), (4, 1), (4, 0), (3, 0), (2, 0), (1, 0),
    ]
}

/// The number of cells on the ring.
pub const RING_LEN: usize = 16;

/// The cell lit at step `step` of the roulette.
pub fn ring_cell(step: usize) -> (cell: (usize, usize))
    ensures
        cell == ring()[(step % RING_LEN) as int],
        cell.0 < 5 && cell.1 < 5,
{
    let active_cells: [(usize, usize); 16] = [
        (0, 0), (0, 1), (0, 2), (0, 3), (0, 4), (1, 4), (2, 4), (3, 4),
        (4, 4), (4, 3), (4, 2), (4, 1), (4, 0), (3, 0), (2, 0), (1, 0),
    ];
    assert(active_cells@ == ring());
    active_cells[step % RING_LEN]
}

/// Exactly `cell` is lit in `leds` (with value 1), every other cell dark.
pub open spec fn only_lit(leds: [[u8; 5]; 5], cell: (usize, usize)) -> bool {
    forall|r: int, c: int|
        0 <= r < 5 && 0 <= c < 5 ==> #[trigger] leds[r][c] == (if r == cell.0 && c == cell.1 {
            1u8
        } else {
            0u8
        })
}

/// Moves the light: the previous cell goes dark and the current one lights.
/// From a board where at most the previous cell was lit, exactly the
/// current cell is lit afterwards.
pub fn roulette_step(leds: &mut [[u8; 5]; 5], previous: (usize, usize), current: (usize, usize))
    requires
        previous.0 < 5 && previous.1 < 5,
        current.0 < 5 && current.1 < 5,
    ensures
        forall|r: int, c: int|
            0 <= r < 5 && 0 <= c < 5 ==> #[trigger] final(leds)[r][c] == (if r == current.0 && c
                == current.1 {
                1u8
            } else if r == previous.0 && c == previous.1 {
                0u8
            } else {
                old(leds)[r][c]
            }),
        (forall|r: int, c: int|
            0 <= r < 5 && 0 <= c < 5 && !(r == previous.0 && c == previous.1) ==> #[trigger] old(
                leds,
            )[r][c] == 0) ==> only_lit(*final(leds), current),
{
    leds[previous.0][previous.1] = 0;
    leds[current.0][current.1] = 1;
}

/// Two cells of the board are neighbours along an edge: equal in one
/// coordinate and one apart in the other.
pub open spec fn edge_neighbours(a: (usize, usize), b: (usize, usize)) -> bool {
    ||| a.0 == b.0 && (a.1 + 1 == b.1 || b.1 + 1 == a.1)
    ||| a.1 == b.1 && (a.0 + 1 == b.0 || b.0 + 1 == a.0)
}

/// The light runs round the edge of the board: every step lights a cell
/// on the border, the cell of the next step is its neighbour, and the 16
/// steps of a round light 16 different cells. The round starts at the
/// top-left corner and goes right along the top row, so it runs clockwise.
pub proof fn lemma_ring_runs_round_the_edge(step: nat, other: nat)
    ensures
        ({
            let a = ring()[(step % 16) as int];
            &&& a.0 < 5 && a.1 < 5
            &&& a.0 == 0 || a.0 == 4 || a.1 == 0 || a.1 == 4
        }),
        edge_neighbours(ring()[(step % 16) as int], ring()[((step + 1) % 16) as int]),
        step % 16 != other % 16 ==> ring()[(step % 16) as int] != ring()[(other % 16) as int],
        ring()[0] == (0usize, 0usize),
        ring()[1] == (0usize, 1usize),
{
    let r = ring();
    assert(r[0] == (0usize, 0usize) && r[1] == (0usize, 1usize) && r[2] == (0usize, 2usize)
        && r[3] == (0usize, 3usize) && r[4] == (0usize, 4usize) && r[5] == (1usize, 4usize)
        && r[6] == (2usize, 4usize) && r[7] == (3usize, 4usize) && r[8] == (4usize, 4usize)
        && r[9] == (4usize, 3usize) && r[10] == (4usize, 2usize) && r[11] == (4usize, 1usize)
        && r[12] == (4usize, 0usize) && r[13] == (3usize, 0usize) && r[14] == (2usize, 0usize)
        && r[15] == (1usize, 0usize));
    let i = (step % 16) as int;
    let j = (other % 16) as int;
    assert(((step + 1) % 16) as int == if i == 15 { 0 } else { i + 1 });
}

} // verus!
