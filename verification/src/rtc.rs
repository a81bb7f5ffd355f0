//! The DS3231 real-time clock: its register layout, the date-time it holds,
//! and the binary-coded-decimal (BCD) conversion of its registers, done by
//! the `nobcd` crate.
use vstd::prelude::*;
use nobcd::{BcdError, BcdNumber};

verus! {

/// The time-keeping registers of the DS3231, in address order.
#[derive(Debug, Clone, Copy, PartialEq, Eq, Structural)]
pub enum DS3231 {
    Seconds,
    Minutes,
    Hours,
    Day,
    Date,
    Month,
    Year,
}

/// The address of each register.
pub open spec fn register_address(r: DS3231) -> u8 {
    match r {
        DS3231::Seconds => 0,
        DS3231::Minutes => 1,
        DS3231::Hours => 2,
        DS3231::Day => 3,
        DS3231::Date => 4,
        DS3231::Month => 5,
        DS3231::Year => 6,
    }
}

impl DS3231 {
    /// The register's address.
    pub fn address(&self) -> (a: u8)
        ensures
            a == register_address(*self),
    {
        match self {
            DS3231::Seconds => 0,
            DS3231::Minutes => 1,
            DS3231::Hours => 2,
            DS3231::Day => 3,
            DS3231::Date => 4,
            DS3231::Month => 5,
            DS3231::Year => 6,
        }
    }
}

/// The days of the week as the DS3231 numbers them, Sunday first.
#[derive(Debug, Clone, Copy, PartialEq, Eq, Structural)]
pub enum DAY {
    Sun,
    Mon,
    Tue,
    Wed,
    Thu,
    Fri,
    Sat,
}

/// The number the clock uses for each day: 1 for Sunday up to 7 for Saturday.
pub open spec fn day_number(d: DAY) -> u8 {
    match d {
        DAY::Sun => 1,
        DAY::Mon => 2,
        DAY::Tue => 3,
        DAY::Wed => 4,
        DAY::Thu => 5,
        DAY::Fri => 6,
        DAY::Sat => 7,
    }
}

impl DAY {
    /// The day's number on the clock.
    pub fn number(&self) -> (n: u8)
        ensures
            n == day_number(*self),
    {
        match self {
            DAY::Sun => 1,
            DAY::Mon => 2,
            DAY::Tue => 3,
            DAY::Wed => 4,
            DAY::Thu => 5,
            DAY::Fri => 6,
            DAY::Sat => 7,
        }
    }
}

/// A date and time as the clock's registers hold them, in plain numbers.
#[derive(Debug, Clone, Copy, PartialEq, Eq, Structural)]
pub struct DateTime {
    pub sec: u8,
    pub min: u8,
    pub hrs: u8,
    pub day: u8,
    pub date: u8,
    pub month: u8,
    pub year: u8,
}

impl DateTime {
    /// The fields in register order.
    pub open spec fn fields(self) -> Seq<u8> {
        seq![self.sec, self.min, self.hrs, self.day, self.date, self.month, self.year]
    }

    /// The fields in register order: seconds, minutes, hours, day, date,
    /// month, year.
    pub fn as_fields(&self) -> (f: [u8; 7])
        ensures
            f@ == self.fields(),
    {
        [self.sec, self.min, self.hrs, self.day, self.date, self.month, self.year]
    }
}

/// Why a BCD conversion failed.
#[derive(Debug, Clone, Copy, PartialEq, Eq, Structural)]
pub enum BcdFault {
    /// The number has more than two decimal digits.
    Overflow,
    /// A nibble holds this value, which is not a decimal digit.
    InvalidDigit(u8),
}

/// The BCD byte of a number below 100: tens in the high nibble, units in the low.
pub open spec fn bcd_byte(value: u8) -> u8 {
    ((value / 10) * 16 + value % 10) as u8
}

/// The number a byte stands for, read as two BCD digits.
pub open spec fn bcd_value(byte: u8) -> u8 {
    ((byte / 16) * 10 + byte % 16) as u8
}

/// How reading `byte` as two BCD digits fails, if it does: the high nibble
/// is checked first.
pub open spec fn bcd_check(byte: u8) -> Option<BcdFault> {
    if byte / 16 > 9 {
        Some(BcdFault::InvalidDigit((byte / 16) as u8))
    } else if byte % 16 > 9 {
        Some(BcdFault::InvalidDigit((byte % 16) as u8))
    } else {
        None
    }
}

/// A conversion that succeeded with `b`.
pub open spec fn converted(b: u8) -> Result<u8, BcdFault> {
    Ok(b)
}

/// A conversion that failed with `e`.
pub open spec fn refused(e: BcdFault) -> Result<u8, BcdFault> {
    Err(e)
}

/// `BcdNumber::<1>::new(value)` and its byte: the BCD byte of `value` when
/// it is below 100, `BcdError::Overflow` otherwise.
#[verifier::external_body]
pub(crate) fn bcd_encode(value: u8) -> (r: Result<u8, BcdFault>)
    ensures
        value <= 99 ==> r == converted(bcd_byte(value)),
        value > 99 ==> r == refused(BcdFault::Overflow),
{
    match BcdNumber::<1>::new(value) {
        Ok(n) => Ok(n.bcd_bytes()[0]),
        Err(BcdError::Overflow) => Err(BcdFault::Overflow),
        Err(BcdError::InvalidDigit(d)) => Err(BcdFault::InvalidDigit(d)),
    }
}

/// `BcdNumber::<1>::from_bcd_bytes([byte])` and its `value::<u8>()`: fails
/// with `BcdError::InvalidDigit` on the first nibble (high, then low) above
/// 9, else gives the two-digit number.
#[verifier::external_body]
pub(crate) fn bcd_decode(byte: u8) -> (r: Result<u8, BcdFault>)
    ensures
        bcd_check(byte) matches Some(e) ==> r == refused(e),
        bcd_check(byte) is None ==> r == converted(bcd_value(byte)),
{
    match BcdNumber::<1>::from_bcd_bytes([byte]) {
        Ok(n) => Ok(n.value::<u8>()),
        Err(BcdError::Overflow) => Err(BcdFault::Overflow),
        Err(BcdError::InvalidDigit(d)) => Err(BcdFault::InvalidDigit(d)),
    }
}

/// The bus write that sets the clock: the register pointer 0, then each
/// field of `dt` in BCD. Fails with `Overflow` when a field is above 99.
pub fn seed_buffer(dt: &DateTime) -> (r: Result<[u8; 8], BcdFault>)
    ensures
        r is Ok <==> (forall|i: int| 0 <= i < 7 ==> #[trigger] dt.fields()[i] <= 99),
        r matches Ok(buf) ==> buf[0] == 0 && forall|i: int|
            0 <= i < 7 ==> #[trigger] buf[i + 1] == bcd_byte(dt.fields()[i]),
        r matches Err(e) ==> e == BcdFault::Overflow,
{
    let fields = dt.as_fields();
    let mut seed_buf: [u8; 8] = [0u8; 8];
    let mut idx: usize = 0;
    while idx < 7
        invariant
            0 <= idx <= 7,
            fields@ == dt.fields(),
            seed_buf[0] == 0,
            forall|i: int| 0 <= i < idx ==> #[trigger] fields@[i] <= 99,
            forall|i: int| 0 <= i < idx ==> #[trigger] seed_buf[i + 1] == bcd_byte(fields@[i]),
        decreases 7 - idx,
    {
        let bcd_value = bcd_encode(fields[idx]);
        match bcd_value {
            Ok(b) => {
                seed_buf[idx + 1] = b;
            },
            Err(e) => {
                return Err(e);
            },
        }
        idx = idx + 1;
    }
    Ok(seed_buf)
}

/// The bits kept of each register when reading: the seconds register
/// carries a clock-halt flag in bit 7, the hours register the 12/24-hour
/// and AM/PM flags in bits 6 and 7.
pub open spec fn register_mask(i: int) -> u8 {
    if i == 0 {
        0x7f
    } else if i == 2 {
        0x3f
    } else {
        0xff
    }
}

/// The masked registers all hold two BCD digits.
pub open spec fn registers_valid(data: Seq<u8>) -> bool {
    forall|i: int| 0 <= i < 7 ==> bcd_check(#[trigger] (data[i] & register_mask(i))) is None
}

/// The first register whose masked byte is not two BCD digits.
pub open spec fn first_invalid_register(data: Seq<u8>) -> int {
    choose|i: int|
        0 <= i < 7 && bcd_check(data[i] & register_mask(i)) is Some && forall|j: int|
            0 <= j < i ==> bcd_check(#[trigger] (data[j] & register_mask(j))) is None
}

/// Decodes the seven time-keeping registers read from the clock into plain
/// numbers: each register is masked, then read as two BCD digits. Fails on
/// the first register that is not valid BCD, with the fault of that byte.
pub fn decode_registers(data: [u8; 7]) -> (r: Result<[u8; 7], BcdFault>)
    ensures
        r is Ok <==> registers_valid(data@),
        r matches Ok(d) ==> forall|i: int|
            0 <= i < 7 ==> #[trigger] d[i] == bcd_value(data[i] & register_mask(i)),
        r matches Err(e) ==> Some(e) == bcd_check(
            data[first_invalid_register(data@)] & register_mask(first_invalid_register(data@)),
        ),
{
    let masks: [u8; 7] = [0x7f, 0xff, 0x3f, 0xff, 0xff, 0xff, 0xff];
    let mut current_date = [0u8; 7];
    let mut idx: usize = 0;
    while idx < 7
        invariant
            0 <= idx <= 7,
            forall|i: int| 0 <= i < 7 ==> #[trigger] masks[i] == register_mask(i),
            forall|i: int|
                0 <= i < idx ==> bcd_check(#[trigger] (data[i] & register_mask(i))) is None,
            forall|i: int|
                0 <= i < idx ==> #[trigger] current_date[i] == bcd_value(data[i] & register_mask(i)),
        decreases 7 - idx,
    {
        let masked = data[idx] & masks[idx];
        match bcd_decode(masked) {
            Ok(v) => {
                current_date[idx] = v;
            },
            Err(e) => {
                proof {
                    let k = idx as int;
                    assert(bcd_check(data[k] & register_mask(k)) is Some);
                    let f = first_invalid_register(data@);
                    if f < k {
                        assert(bcd_check(data[f] & register_mask(f)) is None);
                    }
                    if k < f {
                        assert(bcd_check(data[k] & register_mask(k)) is None);
                    }
                }
                return Err(e);
            },
        }
        idx = idx + 1;
    }
    Ok(current_date)
}

/// Writing a number below 100 in BCD and reading it back gives the number.
pub proof fn lemma_bcd_round_trip(v: u8)
    requires
        v <= 99,
    ensures
        bcd_check(bcd_byte(v)) is None,
        bcd_value(bcd_byte(v)) == v,
{
    let b = bcd_byte(v);
    assert(b == (v / 10) * 16 + v % 10);
    assert(b / 16 == v / 10 && b % 16 == v % 10);
}

/// A date-time whose seconds are below 80 and hours below 40 survives the
/// register masks: setting the clock with `seed_buffer` and reading the
/// same bytes back with `decode_registers` gives the fields that were
/// written. (The masked-off bits are the clock-halt and 12-hour flags.)
pub proof fn lemma_set_then_read(dt: DateTime)
    requires
        forall|i: int| 0 <= i < 7 ==> #[trigger] dt.fields()[i] <= 99,
        dt.sec < 80,
        dt.hrs < 40,
    ensures
        forall|i: int|
            0 <= i < 7 ==> bcd_check(#[trigger] (bcd_byte(dt.fields()[i]) & register_mask(i))) is None
                && bcd_value(bcd_byte(dt.fields()[i]) & register_mask(i)) == dt.fields()[i],
{
    assert forall|i: int| 0 <= i < 7 implies bcd_check(
        #[trigger] (bcd_byte(dt.fields()[i]) & register_mask(i)),
    ) is None && bcd_value(bcd_byte(dt.fields()[i]) & register_mask(i)) == dt.fields()[i] by {
        let v = dt.fields()[i];
        let b = bcd_byte(v);
        lemma_bcd_round_trip(v);
        if i == 0 {
            assert(v < 80);
            assert(b < 0x80);
            assert(b & 0x7f == b) by (bit_vector)
                requires
                    b < 0x80u8,
            ;
        } else if i == 2 {
            assert(v < 40);
            assert(b < 0x40);
            assert(b & 0x3f == b) by (bit_vector)
                requires
                    b < 0x40u8,
            ;
        } else {
            assert(b & 0xff == b) by (bit_vector);
        }
    }
}

/// The name printed for a day number; anything outside 1..=7 is "invalid date".
pub fn day_name(day: u8) -> (name: &'static str)
    ensures
        day == 1 ==> name@ == "Sunday"@,
        day == 2 ==> name@ == "Monday"@,
        day == 3 ==> name@ == "Tuesday"@,
        day == 4 ==> name@ == "Wednesday"@,
        day == 5 ==> name@ == "Thursday"@,
        day == 6 ==> name@ == "Friday"@,
        day == 7 ==> name@ == "Saturday"@,
        (day < 1 || day > 7) ==> name@ == "invalid date"@,
{
    match day {
        1 => "Sunday",
        2 => "Monday",
        3 => "Tuesday",
        4 => "Wednesday",
        5 => "Thursday",
        6 => "Friday",
        7 => "Saturday",
        _ => "invalid date",
    }
}

} // verus!
