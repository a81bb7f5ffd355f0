//! Matrix keypads and the PIN-operated door lock.
use vstd::prelude::*;
use crate::pwm::{duty_ramp, duty_ramp_down, falling, rising, servo_duty_bounds};

verus! {

/// A key of the door lock's 4x3 keypad.
#[derive(Debug, Clone, Copy, PartialEq, Eq, Structural)]
pub enum DoorKey {
    Digit(u8),
    Clear,
    Enter,
}

/// The door lock's keypad layout:
///
/// ```text
/// 1   2 3
/// 4   5 6
/// 7   8 9
/// CLR 0 ENTER
/// ```
pub open spec fn door_key_at(row: int, col: int) -> DoorKey {
    if row < 3 {
        DoorKey::Digit((3 * row + col + 1) as u8)
    } else if col == 0 {
        DoorKey::Clear
    } else if col == 1 {
        DoorKey::Digit(0)
    } else {
        DoorKey::Enter
    }
}

/// The key at `row`, `col` of the door lock's keypad.
pub fn door_key(row: usize, col: usize) -> (k: DoorKey)
    requires
        row < 4,
        col < 3,
    ensures
        k == door_key_at(row as int, col as int),
{
    if row < 3 {
        DoorKey::Digit((3 * row + col + 1) as u8)
    } else if col == 0 {
        DoorKey::Clear
    } else if col == 1 {
        DoorKey::Digit(0)
    } else {
        DoorKey::Enter
    }
}

/// The last index at which `lows` holds `true`, if any.
pub open spec fn last_low(lows: Seq<bool>) -> Option<int>
    decreases lows.len(),
{
    if lows.len() == 0 {
        None
    } else if lows.last() {
        Some(lows.len() - 1)
    } else {
        last_low(lows.drop_last())
    }
}

/// While one row is driven low, the column read last among those that read
/// low: the pressed key's column, if any.
pub fn pressed_column(lows: &[bool]) -> (col: Option<usize>)
    ensures
        col matches Some(c) ==> last_low(lows@) == Some(c as int),
        col is None ==> last_low(lows@) is None,
{
    let mut found: Option<usize> = None;
    let mut i: usize = 0;
    while i < lows.len()
        invariant
            0 <= i <= lows.len(),
            found matches Some(c) ==> last_low(lows@.take(i as int)) == Some(c as int),
            found is None ==> last_low(lows@.take(i as int)) is None,
        decreases lows.len() - i,
    {
        assert(lows@.take(i + 1).drop_last() =~= lows@.take(i as int));
        if lows[i] {
            found = Some(i);
        }
        i = i + 1;
    }
    assert(lows@.take(lows.len() as int) =~= lows@);
    found
}

/// The 4x4 keypad's layout.
pub open spec fn keypad_char_at(row: int, col: int) -> char {
    let rows = seq![
        seq!['1', '2', '3', 'A'],
        seq!['4', '5', '6', 'B'],
        seq!['7', '8', '9', 'C'],
        seq!['*', '0', '#', 'D'],
    ];
    rows[row][col]
}

/// The keypad's printed layout: the digits 1 to 9 fill the first three
/// columns of the first three rows in reading order, the last column reads
/// A, B, C, D from the top, and the bottom row starts with `*`, 0, `#`.
pub proof fn lemma_keypad_layout(row: int, col: int)
    ensures
        0 <= row < 3 && 0 <= col < 3 ==> keypad_char_at(row, col) as int == '1' as int + 3 * row
            + col,
        0 <= row < 4 ==> keypad_char_at(row, 3) as int == 'A' as int + row,
        keypad_char_at(3, 0) == '*',
        keypad_char_at(3, 1) == '0',
        keypad_char_at(3, 2) == '#',
{
    let rows = seq![
        seq!['1', '2', '3', 'A'],
        seq!['4', '5', '6', 'B'],
        seq!['7', '8', '9', 'C'],
        seq!['*', '0', '#', 'D'],
    ];
    assert(rows[0][0] == '1' && rows[0][1] == '2' && rows[0][2] == '3' && rows[0][3] == 'A');
    assert(rows[1][0] == '4' && rows[1][1] == '5' && rows[1][2] == '6' && rows[1][3] == 'B');
    assert(rows[2][0] == '7' && rows[2][1] == '8' && rows[2][2] == '9' && rows[2][3] == 'C');
    assert(rows[3][0] == '*' && rows[3][1] == '0' && rows[3][2] == '#' && rows[3][3] == 'D');
}

/// The character on the 4x4 keypad at `row`, `col`.
pub fn keypad_char(row: usize, col: usize) -> (c: char)
    requires
        row < 4,
        col < 4,
    ensures
        c == keypad_char_at(row as int, col as int),
{
    let keypad_map: [[char; 4]; 4] = [
        ['1', '2', '3', 'A'],
        ['4', '5', '6', 'B'],
        ['7', '8', '9', 'C'],
        ['*', '0', '#', 'D'],
    ];
    keypad_map[row][col]
}

/// The key reported by one scan of the 4x4 keypad: of the (row, column)
/// pairs read low, the last one in row-major order; `'_'` when none is.
pub open spec fn scanned_key(lows: [[bool; 4]; 4]) -> char {
    if exists|r: int, c: int| 0 <= r < 4 && 0 <= c < 4 && #[trigger] lows[r][c] {
        let (r, c) = choose|r: int, c: int|
            0 <= r < 4 && 0 <= c < 4 && #[trigger] lows[r][c] && forall|r2: int, c2: int|
                0 <= r2 < 4 && 0 <= c2 < 4 && #[trigger] lows[r2][c2] ==> 4 * r2 + c2 <= 4 * r + c;
        keypad_char_at(r, c)
    } else {
        '_'
    }
}

/// One scan of the 4x4 keypad: `lows[r][c]` is whether column `c` read low
/// while row `r` was driven.
pub fn keypad_scan(lows: [[bool; 4]; 4]) -> (key: char)
    ensures
        key == scanned_key(lows),
{
    let mut input_value = '_';
    let ghost mut last: Option<(int, int)> = None;
    let mut row: usize = 0;
    while row < 4
        invariant
            0 <= row <= 4,
            last is None ==> input_value == '_' && forall|r: int, c: int|
                0 <= r < row && 0 <= c < 4 ==> !#[trigger] lows[r][c],
            last matches Some(p) ==> {
                &&& 0 <= p.0 < row && 0 <= p.1 < 4
                &&& lows[p.0][p.1]
                &&& input_value == keypad_char_at(p.0, p.1)
                &&& forall|r: int, c: int|
                    0 <= r < row && 0 <= c < 4 && #[trigger] lows[r][c] ==> 4 * r + c <= 4 * p.0
                        + p.1
            },
        decreases 4 - row,
    {
        let mut col: usize = 0;
        while col < 4
            invariant
                0 <= row < 4,
                0 <= col <= 4,
                last is None ==> input_value == '_' && forall|r: int, c: int|
                    (0 <= r < row && 0 <= c < 4) || (r == row && 0 <= c < col) ==> !#[trigger] lows[r][c],
                last matches Some(p) ==> {
                    &&& ((0 <= p.0 < row && 0 <= p.1 < 4) || (p.0 == row && 0 <= p.1 < col))
                    &&& lows[p.0][p.1]
                    &&& input_value == keypad_char_at(p.0, p.1)
                    &&& forall|r: int, c: int|
                        ((0 <= r < row && 0 <= c < 4) || (r == row && 0 <= c < col)) && #[trigger] lows[r][c]
                            ==> 4 * r + c <= 4 * p.0 + p.1
                },
            decreases 4 - col,
        {
            if lows[row][col] {
                input_value = keypad_char(row, col);
                proof {
                    last = Some((row as int, col as int));
                }
            }
            col = col + 1;
        }
        row = row + 1;
    }
    proof {
        match last {
            None => {},
            Some(p) => {
                let q = choose|r: int, c: int|
                    0 <= r < 4 && 0 <= c < 4 && #[trigger] lows[r][c] && forall|r2: int, c2: int|
                        0 <= r2 < 4 && 0 <= c2 < 4 && #[trigger] lows[r2][c2] ==> 4 * r2 + c2 <= 4
                            * r + c;
                assert(4 * q.0 + q.1 <= 4 * p.0 + p.1);
                assert(4 * p.0 + p.1 <= 4 * q.0 + q.1);
                assert(q.0 == p.0 && q.1 == p.1);
            },
        }
    }
    input_value
}

/// The door's PIN.
pub open spec fn key_code() -> Seq<u8> {
    seq![9u8, 6u8, 0u8, 3u8]
}

/// Which way the door's servo turns.
#[derive(Debug, Clone, Copy, PartialEq, Eq, Structural)]
pub enum DoorMove {
    /// From the open position to the locked one: the duty rises.
    Lock,
    /// From the locked position to the open one: the duty falls.
    Unlock,
}

/// What a key press did.
#[derive(Debug, Clone, Copy, PartialEq, Eq, Structural)]
pub enum DoorEvent {
    /// The digit was added to the entry.
    Typed(u8),
    /// The entry was cleared.
    Cleared,
    /// The entry was submitted and cleared; on a match the door moves.
    Entered { matched: bool, door: Option<DoorMove> },
}

/// One key press on the lock: the entry, whether the door is open, and
/// what happened, afterwards.
pub open spec fn door_press(entry: Seq<u8>, is_open: bool, key: DoorKey) -> (Seq<u8>, bool, DoorEvent) {
    match key {
        DoorKey::Digit(d) => (entry.push(d), is_open, DoorEvent::Typed(d)),
        DoorKey::Clear => (Seq::empty(), is_open, DoorEvent::Cleared),
        DoorKey::Enter => if entry == key_code() {
            (
                Seq::empty(),
                !is_open,
                DoorEvent::Entered {
                    matched: true,
                    door: Some(
                        if is_open {
                            DoorMove::Lock
                        } else {
                            DoorMove::Unlock
                        },
                    ),
                },
            )
        } else {
            (Seq::empty(), is_open, DoorEvent::Entered { matched: false, door: None })
        },
    }
}

/// The state after a sequence of key presses.
pub open spec fn door_presses(entry: Seq<u8>, is_open: bool, keys: Seq<DoorKey>) -> (Seq<u8>, bool)
    decreases keys.len(),
{
    if keys.len() == 0 {
        (entry, is_open)
    } else {
        let (e, o, _) = door_press(entry, is_open, keys[0]);
        door_presses(e, o, keys.drop_first())
    }
}

/// Clearing, typing the PIN and pressing ENTER moves the door from open to
/// locked or from locked to open, whatever was typed before, and leaves the
/// entry empty; doing it twice brings the door back.
pub proof fn lemma_pin_toggles(entry: Seq<u8>, is_open: bool)
    ensures
        door_presses(entry, is_open, pin_sequence()) == (Seq::<u8>::empty(), !is_open),
        door_presses(Seq::<u8>::empty(), !is_open, pin_sequence()) == (Seq::<u8>::empty(), is_open),
{
    lemma_pin_sequence(entry, is_open);
    lemma_pin_sequence(Seq::empty(), !is_open);
}

proof fn lemma_pin_sequence(entry: Seq<u8>, is_open: bool)
    ensures
        door_presses(entry, is_open, pin_sequence()) == (Seq::<u8>::empty(), !is_open),
{
    let keys = pin_sequence();
    let e0 = Seq::<u8>::empty();
    assert(keys.drop_first() =~= seq![DoorKey::Digit(9), DoorKey::Digit(6), DoorKey::Digit(0), DoorKey::Digit(3), DoorKey::Enter]);
    assert(keys.drop_first().drop_first() =~= seq![DoorKey::Digit(6), DoorKey::Digit(0), DoorKey::Digit(3), DoorKey::Enter]);
    assert(keys.drop_first().drop_first().drop_first() =~= seq![DoorKey::Digit(0), DoorKey::Digit(3), DoorKey::Enter]);
    assert(keys.drop_first().drop_first().drop_first().drop_first() =~= seq![DoorKey::Digit(3), DoorKey::Enter]);
    assert(keys.drop_first().drop_first().drop_first().drop_first().drop_first() =~= seq![DoorKey::Enter]);
    assert(keys.drop_first().drop_first().drop_first().drop_first().drop_first().drop_first() =~= Seq::<DoorKey>::empty());
    assert(e0.push(9).push(6).push(0).push(3) =~= key_code());
    reveal_with_fuel(door_presses, 7);
}

/// The keys CLR, 9, 6, 0, 3, ENTER.
pub open spec fn pin_sequence() -> Seq<DoorKey> {
    seq![DoorKey::Clear, DoorKey::Digit(9), DoorKey::Digit(6), DoorKey::Digit(0), DoorKey::Digit(3), DoorKey::Enter]
}

/// A submitted entry other than the PIN never moves the door.
pub proof fn lemma_wrong_entry_keeps_door(entry: Seq<u8>, is_open: bool)
    requires
        entry != key_code(),
    ensures
        door_press(entry, is_open, DoorKey::Enter).1 == is_open,
        door_press(entry, is_open, DoorKey::Enter).2 == (DoorEvent::Entered { matched: false, door: None }),
{
}

/// The door lock: the digits typed since the last clear or submit, and
/// whether the door is open.
pub struct DoorLock {
    pub entry: Vec<u8>,
    pub is_open: bool,
}

impl DoorLock {
    /// A lock with nothing typed and the door open.
    pub fn new() -> (l: Self)
        ensures
            l.entry@ == Seq::<u8>::empty(),
            l.is_open,
    {
        DoorLock { entry: Vec::new(), is_open: true }
    }

    /// Whether the typed digits are the PIN.
    pub fn entry_matches(&self) -> (m: bool)
        ensures
            m == (self.entry@ == key_code()),
    {
        let code: [u8; 4] = [9, 6, 0, 3];
        assert(code@ == key_code());
        if self.entry.len() != 4 {
            return false;
        }
        let mut i: usize = 0;
        while i < 4
            invariant
                self.entry@.len() == 4,
                code@ == key_code(),
                0 <= i <= 4,
                forall|j: int| 0 <= j < i ==> self.entry@[j] == code@[j],
            decreases 4 - i,
        {
            if self.entry[i] != code[i] {
                return false;
            }
            i = i + 1;
        }
        assert(self.entry@ =~= key_code());
        true
    }

    /// Handles one key: a digit is added to the entry; CLR clears it; ENTER
    /// submits and clears it, and when it matched the PIN the door locks if
    /// it was open and opens if it was locked.
    pub fn press(&mut self, key: DoorKey) -> (event: DoorEvent)
        ensures
            (final(self).entry@, final(self).is_open, event) == door_press(
                old(self).entry@,
                old(self).is_open,
                key,
            ),
    {
        match key {
            DoorKey::Digit(d) => {
                self.entry.push(d);
                DoorEvent::Typed(d)
            },
            DoorKey::Clear => {
                self.entry.clear();
                DoorEvent::Cleared
            },
            DoorKey::Enter => {
                let matched = self.entry_matches();
                let mut door = None;
                if matched {
                    if self.is_open {
                        door = Some(DoorMove::Lock);
                        self.is_open = false;
                    } else {
                        door = Some(DoorMove::Unlock);
                        self.is_open = true;
                    }
                }
                self.entry.clear();
                DoorEvent::Entered { matched, door }
            },
        }
    }
}

/// The duties the servo steps through to move the door, for a channel whose
/// full duty is `max_duty`: between 5% and 10% of it, rising to lock,
/// falling to unlock.
pub fn door_sweep(movement: DoorMove, max_duty: u32) -> (duties: Vec<u32>)
    ensures
        movement == DoorMove::Lock ==> duties@ == rising(max_duty / 20, max_duty / 10),
        movement == DoorMove::Unlock ==> duties@ == falling(max_duty / 20, max_duty / 10),
{
    let (pos_0_degree, pos_90_degree) = servo_duty_bounds(max_duty);
    match movement {
        DoorMove::Lock => duty_ramp(pos_0_degree, pos_90_degree),
        DoorMove::Unlock => duty_ramp_down(pos_0_degree, pos_90_degree),
    }
}

} // verus!
