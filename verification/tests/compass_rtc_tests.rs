use embedded_logic::compass::{direction_to_led, heading_from_signs, Direction, NORTH_EAST};
use embedded_logic::roulette::{ring_cell, roulette_step, RING_LEN};
use embedded_logic::rtc::{decode_registers, day_name, seed_buffer, BcdFault, DateTime, DAY, DS3231};

#[test]
fn compass_patterns() {
    assert_eq!(
        direction_to_led(Direction::North),
        [[0, 0, 1, 0, 0], [0, 1, 0, 1, 0], [1, 0, 1, 0, 1], [0, 0, 1, 0, 0], [0, 0, 1, 0, 0]]
    );
    assert_eq!(
        direction_to_led(Direction::SouthEast),
        [[0, 0, 0, 0, 1], [1, 0, 0, 1, 0], [1, 1, 1, 0, 0], [1, 0, 1, 0, 0], [1, 1, 1, 1, 0]]
    );
    assert_eq!(direction_to_led(Direction::NorthEast), NORTH_EAST);
    assert_eq!(
        direction_to_led(Direction::West),
        [[0, 0, 1, 0, 0], [0, 0, 0, 1, 0], [1, 1, 1, 1, 1], [0, 0, 0, 1, 0], [0, 0, 1, 0, 0]]
    );
}

#[test]
fn headings_by_sign() {
    assert_eq!(heading_from_signs(409073, 439562), Direction::NorthWest);
    assert_eq!(heading_from_signs(0, -5), Direction::South);
    assert_eq!(heading_from_signs(-5, 0), Direction::East);
    assert_eq!(heading_from_signs(-5, -5), Direction::SouthEast);
    assert_eq!(heading_from_signs(5, 0), Direction::West);
    assert_eq!(heading_from_signs(5, -5), Direction::SouthWest);
    assert_eq!(heading_from_signs(0, 5), Direction::North);
    assert_eq!(heading_from_signs(-5, 5), Direction::NorthEast);
    assert_eq!(heading_from_signs(0, 0), Direction::NorthEast);
}

#[test]
fn roulette_runs_round_the_edge() {
    assert_eq!(RING_LEN, 16);
    assert_eq!(ring_cell(0), (0, 0));
    assert_eq!(ring_cell(4), (0, 4));
    assert_eq!(ring_cell(8), (4, 4));
    assert_eq!(ring_cell(15), (1, 0));
    assert_eq!(ring_cell(16), (0, 0));
    let mut leds = [[0u8; 5]; 5];
    let mut previous = (0usize, 0usize);
    for step in 0..40 {
        let current = ring_cell(step);
        roulette_step(&mut leds, previous, current);
        let lit: u32 = leds.iter().flatten().map(|&v| v as u32).sum();
        assert_eq!(lit, 1);
        assert_eq!(leds[current.0][current.1], 1);
        previous = current;
    }
}

#[test]
fn registers_and_days() {
    assert_eq!(DS3231::Seconds.address(), 0);
    assert_eq!(DS3231::Hours.address(), 2);
    assert_eq!(DS3231::Year.address(), 6);
    assert_eq!(DAY::Sun.number(), 1);
    assert_eq!(DAY::Tue.number(), 3);
    assert_eq!(DAY::Sat.number(), 7);
}

#[test]
fn as_fields_in_register_order() {
    let dt = DateTime { sec: 1, min: 2, hrs: 3, day: 4, date: 5, month: 6, year: 7 };
    assert_eq!(dt.as_fields(), [1, 2, 3, 4, 5, 6, 7]);
}

#[test]
fn seed_buffer_is_bcd() {
    let dt = DateTime { sec: 0, min: 0, hrs: 0, day: DAY::Tue.number(), date: 15, month: 9, year: 26 };
    assert_eq!(seed_buffer(&dt), Ok([0, 0, 0, 0, 3, 0x15, 0x09, 0x26]));
    let dt = DateTime { sec: 59, min: 45, hrs: 23, day: 7, date: 31, month: 12, year: 99 };
    assert_eq!(seed_buffer(&dt), Ok([0, 0x59, 0x45, 0x23, 0x07, 0x31, 0x12, 0x99]));
}

#[test]
fn seed_buffer_refuses_three_digits() {
    let dt = DateTime { sec: 0, min: 100, hrs: 0, day: 1, date: 1, month: 1, year: 0 };
    assert_eq!(seed_buffer(&dt), Err(BcdFault::Overflow));
}

#[test]
fn decode_masks_and_reads_bcd() {
    let data = [0x80 | 0x45, 0x30, 0x40 | 0x12, 0x03, 0x15, 0x09, 0x26];
    assert_eq!(decode_registers(data), Ok([45, 30, 12, 3, 15, 9, 26]));
}

#[test]
fn decode_reports_first_bad_register() {
    assert_eq!(decode_registers([0, 0x5A, 0, 0, 0, 0, 0]), Err(BcdFault::InvalidDigit(10)));
    assert_eq!(decode_registers([0, 0xB0, 0, 0x0C, 0, 0, 0]), Err(BcdFault::InvalidDigit(11)));
    assert_eq!(decode_registers([0, 0, 0, 0, 0, 0, 0xFF]), Err(BcdFault::InvalidDigit(15)));
}

#[test]
fn day_names() {
    assert_eq!(day_name(1), "Sunday");
    assert_eq!(day_name(3), "Tuesday");
    assert_eq!(day_name(7), "Saturday");
    assert_eq!(day_name(0), "invalid date");
    assert_eq!(day_name(8), "invalid date");
}

#[test]
fn set_then_read_gives_the_fields_back() {
    let dt = DateTime { sec: 59, min: 7, hrs: 23, day: 2, date: 28, month: 2, year: 24 };
    let buf = seed_buffer(&dt).unwrap();
    let mut registers = [0u8; 7];
    registers.copy_from_slice(&buf[1..]);
    assert_eq!(decode_registers(registers), Ok(dt.as_fields()));
}
