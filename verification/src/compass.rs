//! Compass headings and the arrow each one shows on the 5x5 LED board.
use vstd::prelude::*;

verus! {

/// A compass heading.
#[derive(Debug, Clone, Copy, PartialEq, Eq, Structural)]
pub enum Direction {
    North,
    West,
    South,
    East,
    NorthWest,
    SouthWest,
    SouthEast,
    NorthEast,
}

pub const NORTH: [[u8; 5]; 5] = [
    [0, 0, 1, 0, 0],
    [0, 1, 0, 1, 0],
    [1, 0, 1, 0, 1],
    [0, 0, 1, 0, 0],
    [0, 0, 1, 0, 0],
];

pub const WEST: [[u8; 5]; 5] = [
    [0, 0, 1, 0, 0],
    [0, 0, 0, 1, 0],
    [1, 1, 1, 1, 1],
    [0, 0, 0, 1, 0],
    [0, 0, 1, 0, 0],
];

pub const SOUTH: [[u8; 5]; 5] = [
    [0, 0, 1, 0, 0],
    [0, 0, 1, 0, 0],
    [1, 1, 1, 1, 1],
    [0, 1, 0, 1, 0],
    [0, 0, 1, 0, 0],
];

pub const EAST: [[u8; 5]; 5] = [
    [0, 0, 1, 0, 0],
    [0, 1, 1, 0, 0],
    [1, 0, 1, 1, 1],
    [0, 1, 1, 0, 0],
    [0, 0, 1, 0, 0],
];

pub const NORTH_WEST: [[u8; 5]; 5] = [
    [0, 0, 1, 1, 1],
    [0, 0, 0, 1, 1],
    [0, 0, 1, 0, 1],
    [0, 1, 0, 0, 0],
    [1, 0, 0, 0, 0],
];

pub const SOUTH_WEST: [[u8; 5]; 5] = [
    [1, 0, 0, 0, 0],
    [0, 1, 0, 0, 0],
    [0, 0, 1, 0, 1],
    [0, 0, 0, 1, 1],
    [0, 0, 1, 1, 1],
];

pub const SOUTH_EAST: [[u8; 5]; 5] = [
    [0, 0, 0, 0, 1],
    [1, 0, 0, 1, 0],
    [1, 1, 1, 0, 0],
    [1, 0, 1, 0, 0],
    [1, 1, 1, 1, 0],
];

pub const NORTH_EAST: [[u8; 5]; 5] = [
    [1, 1, 1, 1, 0],
    [1, 1, 1, 0, 0],
    [1, 1, 1, 0, 0],
    [1, 0, 0, 1, 0],
    [0, 0, 0, 0, 1],
];

/// The arrow pattern of each heading.
pub open spec fn arrow(direction: Direction) -> [[u8; 5]; 5] {
    match direction {
        Direction::North => NORTH,
        Direction::West => WEST,
        Direction::South => SOUTH,
        Direction::East => EAST,
        Direction::NorthWest => NORTH_WEST,
        Direction::SouthWest => SOUTH_WEST,
        Direction::SouthEast => SOUTH_EAST,
        Direction::NorthEast => NORTH_EAST,
    }
}

/// Each heading shows its own arrow on the board, cell for cell (rows from
/// the top, columns from the left).
pub proof fn lemma_arrow_patterns()
    ensures
        arrow(Direction::North) == [
            [0u8, 0, 1, 0, 0],
            [0u8, 1, 0, 1, 0],
            [1u8, 0, 1, 0, 1],
            [0u8, 0, 1, 0, 0],
            [0u8, 0, 1, 0, 0],
        ],
        arrow(Direction::West) == [
            [0u8, 0, 1, 0, 0],
            [0u8, 0, 0, 1, 0],
            [1u8, 1, 1, 1, 1],
            [0u8, 0, 0, 1, 0],
            [0u8, 0, 1, 0, 0],
        ],
        arrow(Direction::South) == [
            [0u8, 0, 1, 0, 0],
            [0u8, 0, 1, 0, 0],
            [1u8, 1, 1, 1, 1],
            [0u8, 1, 0, 1, 0],
            [0u8, 0, 1, 0, 0],
        ],
        arrow(Direction::East) == [
            [0u8, 0, 1, 0, 0],
            [0u8, 1, 1, 0, 0],
            [1u8, 0, 1, 1, 1],
            [0u8, 1, 1, 0, 0],
            [0u8, 0, 1, 0, 0],
        ],
        arrow(Direction::NorthWest) == [
            [0u8, 0, 1, 1, 1],
            [0u8, 0, 0, 1, 1],
            [0u8, 0, 1, 0, 1],
            [0u8, 1, 0, 0, 0],
            [1u8, 0, 0, 0, 0],
        ],
        arrow(Direction::SouthWest) == [
            [1u8, 0, 0, 0, 0],
            [0u8, 1, 0, 0, 0],
            [0u8, 0, 1, 0, 1],
            [0u8, 0, 0, 1, 1],
            [0u8, 0, 1, 1, 1],
        ],
        arrow(Direction::SouthEast) == [
            [0u8, 0, 0, 0, 1],
            [1u8, 0, 0, 1, 0],
            [1u8, 1, 1, 0, 0],
            [1u8, 0, 1, 0, 0],
            [1u8, 1, 1, 1, 0],
        ],
        arrow(Direction::NorthEast) == [
            [1u8, 1, 1, 1, 0],
            [1u8, 1, 1, 0, 0],
            [1u8, 1, 1, 0, 0],
            [1u8, 0, 0, 1, 0],
            [0u8, 0, 0, 0, 1],
        ],
{
}

/// The LED pattern that shows `direction`.
pub fn direction_to_led(direction: Direction) -> (leds: [[u8; 5]; 5])
    ensures
        leds == arrow(direction),
{
    match direction {
        Direction::North => NORTH,
        Direction::West => WEST,
        Direction::South => SOUTH,
        Direction::East => EAST,
        Direction::NorthWest => NORTH_WEST,
        Direction::SouthWest => SOUTH_WEST,
        Direction::SouthEast => SOUTH_EAST,
        Direction::NorthEast => NORTH_EAST,
    }
}

/// The sign of a reading: -1, 0 or 1.
pub open spec fn sign(v: i32) -> int {
    if v > 0 {
        1
    } else if v < 0 {
        -1
    } else {
        0
    }
}

/// The heading shown for a calibrated magnetometer reading, going by the
/// signs of its x and y components only:
///
/// | x \ y | y < 0     | y = 0 | y > 0     |
/// |-------|-----------|-------|-----------|
/// | x < 0 | SouthEast | East  | NorthEast |
/// | x = 0 | South     | NorthEast | North |
/// | x > 0 | SouthWest | West  | NorthWest |
pub open spec fn heading_for_signs(sx: int, sy: int) -> Direction {
    if sx < 0 {
        if sy < 0 {
            Direction::SouthEast
        } else if sy == 0 {
            Direction::East
        } else {
            Direction::NorthEast
        }
    } else if sx == 0 {
        if sy < 0 {
            Direction::South
        } else if sy == 0 {
            Direction::NorthEast
        } else {
            Direction::North
        }
    } else {
        if sy < 0 {
            Direction::SouthWest
        } else if sy == 0 {
            Direction::West
        } else {
            Direction::NorthWest
        }
    }
}

/// The heading for a calibrated reading (x, y), by the table of
/// `heading_for_signs`.
pub fn heading_from_signs(x: i32, y: i32) -> (d: Direction)
    ensures
        d == heading_for_signs(sign(x), sign(y)),
{
    if x > 0 && y > 0 {
        Direction::NorthWest
    } else if x == 0 && y < 0 {
        Direction::South
    } else if x < 0 && y == 0 {
        Direction::East
    } else if x < 0 && y < 0 {
        Direction::SouthEast
    } else if x > 0 && y == 0 {
        Direction::West
    } else if x > 0 && y < 0 {
        Direction::SouthWest
    } else if x == 0 && y > 0 {
        Direction::North
    } else {
        Direction::NorthEast
    }
}

} // verus!
