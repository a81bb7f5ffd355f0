//! The decisions of the small GPIO programs: blink timing, LED toggling,
//! press counting, motion lighting, pulse-edge detection, LED bar graphs,
//! a chasing light pattern and an elapsed-time clock.
use vstd::prelude::*;

verus! {

/// A pin's logic level.
#[derive(Debug, Clone, Copy, PartialEq, Eq, Structural)]
pub enum Level {
    Low,
    High,
}

// ---------------------------------------------------------------- blink bar

/// The on-time a button press starts from, and returns to, in milliseconds.
pub const LONGEST_ON_DELAY: u32 = 2000;

/// How much each press shortens the on-time, in milliseconds.
pub const ON_DELAY_STEP: u32 = 200;

/// The on-time after a button press: 200 ms shorter, or back to 2000 ms
/// once it is down to 200 ms or less.
pub fn next_on_delay(delay_value: u32) -> (next: u32)
    ensures
        delay_value <= 200 ==> next == LONGEST_ON_DELAY,
        delay_value > 200 ==> next == delay_value - ON_DELAY_STEP,
        reachable_on_delay(delay_value) ==> reachable_on_delay(next),
{
    if delay_value <= 200 {
        LONGEST_ON_DELAY
    } else {
        delay_value.wrapping_sub(ON_DELAY_STEP)
    }
}

/// An on-time the blink bar can reach from its start: a multiple of 200
/// between 200 and 2000 milliseconds.
pub open spec fn reachable_on_delay(d: u32) -> bool {
    200 <= d <= 2000 && d % 200 == 0
}

/// The on-time the blink bar has after `presses` presses, from 2000 ms.
pub open spec fn on_delay_after(presses: nat) -> u32 {
    (2000 - 200 * (presses % 10)) as u32
}

/// Presses keep the on-time among the reachable ones; the on-time after
/// `n + 1` presses follows from the one after `n`, so ten presses bring it
/// back to where it started.
pub proof fn lemma_on_delay_cycle(d: u32, n: nat)
    ensures
        reachable_on_delay(d) ==> reachable_on_delay(
            if d <= 200 {
                2000u32
            } else {
                (d - 200) as u32
            },
        ),
        reachable_on_delay(on_delay_after(n)),
        (if on_delay_after(n) <= 200 {
            2000u32
        } else {
            (on_delay_after(n) - 200) as u32
        }) == on_delay_after(n + 1),
        on_delay_after(n + 10) == on_delay_after(n),
{
}

// ---------------------------------------------------------------- timer toggle and counter

/// The LED state after a timer tick: flipped.
pub fn toggle_led_state(is_on: bool) -> (next: bool)
    ensures
        next == !is_on,
{
    if is_on {
        false
    } else {
        true
    }
}

/// The press count after one more press; the count wraps at `u32::MAX`
/// as the atomic counter does.
pub fn next_press_count(count: u32) -> (next: u32)
    ensures
        next == (if count == u32::MAX {
            0
        } else {
            count + 1
        }),
{
    count.wrapping_add(1)
}

/// The LED level that mirrors the motion sensor: high while it reads high.
pub fn motion_led_level(sensor_is_high: bool) -> (level: Level)
    ensures
        level == (if sensor_is_high {
            Level::High
        } else {
            Level::Low
        }),
{
    if sensor_is_high {
        Level::High
    } else {
        Level::Low
    }
}

// ---------------------------------------------------------------- pulse edges

/// What to do with a pin's timer when its level is polled.
#[derive(Debug, Clone, Copy, PartialEq, Eq, Structural)]
pub enum PulseAction {
    /// A rising edge: restart the count.
    ResetCounter,
    /// A falling edge: read the count.
    CaptureCounter,
    /// No edge.
    Nothing,
}

/// The polling pulse-width monitor: a change to high restarts the count and
/// leaves the remembered level as it was; a change to low reads the count and
/// remembers low. Returns the remembered level and the action.
pub fn pulse_width_step(old_level: Level, current: Level) -> (r: (Level, PulseAction))
    ensures
        old_level != current && current == Level::High ==> r == (old_level, PulseAction::ResetCounter),
        old_level != current && current == Level::Low ==> r == (current, PulseAction::CaptureCounter),
        old_level == current ==> r == (old_level, PulseAction::Nothing),
{
    if old_level != current && current == Level::High {
        (old_level, PulseAction::ResetCounter)
    } else if old_level != current && current == Level::Low {
        (current, PulseAction::CaptureCounter)
    } else {
        (old_level, PulseAction::Nothing)
    }
}

/// The interrupt-driven pulse monitor: a change to high restarts the count
/// and remembers high; a change to low reads the count and remembers low.
pub fn pulse_edge_step(old_level: Level, current: Level) -> (r: (Level, PulseAction))
    ensures
        old_level == current ==> r == (old_level, PulseAction::Nothing),
        old_level != current && current == Level::High ==> r == (Level::High, PulseAction::ResetCounter),
        old_level != current && current == Level::Low ==> r == (Level::Low, PulseAction::CaptureCounter),
{
    let mut old_signal_value = old_level;
    let mut action = PulseAction::Nothing;
    if old_signal_value != current && current == Level::High {
        old_signal_value = Level::High;
        action = PulseAction::ResetCounter;
    }
    if old_signal_value != current && current == Level::Low {
        old_signal_value = Level::Low;
        action = PulseAction::CaptureCounter;
    }
    (old_signal_value, action)
}

/// A timer count in microseconds shown in milliseconds, rounded down.
pub fn counter_to_ms(counter: u64) -> (ms: u64)
    ensures
        ms == counter / 1000,
{
    counter / 1000
}

// ---------------------------------------------------------------- LED bars

/// The light-sensor bar: LED `i` of ten is lit when `i <= light_value - 1`.
/// A reading of 0 would make that subtraction overflow, so it is ruled out.
pub fn light_bar(light_value: u32) -> (leds: [bool; 10])
    requires
        light_value >= 1,
    ensures
        forall|i: int| 0 <= i < 10 ==> #[trigger] leds[i] == (i <= light_value - 1),
{
    let mut leds = [false; 10];
    let mut index: usize = 0;
    while index < 10
        invariant
            0 <= index <= 10,
            light_value >= 1,
            forall|i: int| 0 <= i < index ==> #[trigger] leds[i] == (i <= light_value - 1),
            forall|i: int| index <= i < 10 ==> !#[trigger] leds[i],
        decreases 10 - index,
    {
        leds[index] = (index as u32) <= light_value - 1;
        index = index + 1;
    }
    leds
}

/// The volume bar: LED `i` of ten is lit when `i <= value`.
pub fn volume_bar(value: u16) -> (leds: [bool; 10])
    ensures
        forall|i: int| 0 <= i < 10 ==> #[trigger] leds[i] == (i <= value),
{
    let mut leds = [false; 10];
    let mut index: usize = 0;
    while index < 10
        invariant
            0 <= index <= 10,
            forall|i: int| 0 <= i < index ==> #[trigger] leds[i] == (i <= value),
            forall|i: int| index <= i < 10 ==> !#[trigger] leds[i],
        decreases 10 - index,
    {
        leds[index] = (index as u16) <= value;
        index = index + 1;
    }
    leds
}

// ---------------------------------------------------------------- chasing lights

/// The three-LED chaser: it walks the LEDs one at a time, setting each to
/// the current level; after the third the level flips and the walking
/// order reverses.
#[derive(Debug, Clone, Copy, PartialEq, Eq, Structural)]
pub struct Chaser {
    /// How many LEDs of the current pass have been set.
    pub position: usize,
    /// Whether the pass walks the LEDs from the last to the first.
    pub reversed: bool,
    /// The level this pass sets.
    pub level: Level,
}

/// The number of LEDs in the chaser.
pub const CHASER_LEDS: usize = 3;

impl Chaser {
    /// The chaser before its first step: first pass, forwards, lighting.
    pub fn new() -> (c: Self)
        ensures
            c == (Chaser { position: 0, reversed: false, level: Level::High }),
    {
        Chaser { position: 0, reversed: false, level: Level::High }
    }

    /// A chaser state that the steps reach.
    pub open spec fn wf(self) -> bool {
        self.position < CHASER_LEDS
    }

    /// The LED the next step sets, and the level it sets it to.
    pub open spec fn target(self) -> (usize, Level) {
        (
            if self.reversed {
                (CHASER_LEDS - 1 - self.position) as usize
            } else {
                self.position
            },
            self.level,
        )
    }

    /// Sets the next LED: returns which LED to set and to what level, and
    /// moves on; after the last LED of a pass the level flips and the order
    /// reverses.
    pub fn step(&mut self) -> (r: (usize, Level))
        requires
            old(self).wf(),
        ensures
            r == old(self).target(),
            final(self).wf(),
            old(self).position + 1 < CHASER_LEDS ==> *final(self) == (Chaser {
                position: (old(self).position + 1) as usize,
                ..*old(self)
            }),
            old(self).position + 1 == CHASER_LEDS ==> *final(self) == (Chaser {
                position: 0,
                reversed: !old(self).reversed,
                level: if old(self).level == Level::High {
                    Level::Low
                } else {
                    Level::High
                },
            }),
    {
        let led = if self.reversed {
            CHASER_LEDS - 1 - self.position
        } else {
            self.position
        };
        let level = self.level;
        self.position = self.position + 1;
        if self.position == CHASER_LEDS {
            self.level = match self.level {
                Level::High => Level::Low,
                Level::Low => Level::High,
            };
            self.position = 0;
            self.reversed = !self.reversed;
        }
        (led, level)
    }
}

// ---------------------------------------------------------------- elapsed-time clock

/// The elapsed-time display: each timer tick adds a second; while the
/// seconds are past 59 each tick also adds a minute, while the minutes are
/// past 59 each tick also adds an hour, and past 23 hours everything
/// returns to zero.
#[derive(Debug, Clone, Copy, PartialEq, Eq, Structural)]
pub struct ElapsedClock {
    pub seconds: u32,
    pub minutes: u32,
    pub hours: u32,
}

impl ElapsedClock {
    /// All zero.
    pub fn new() -> (c: Self)
        ensures
            c == (ElapsedClock { seconds: 0, minutes: 0, hours: 0 }),
    {
        ElapsedClock { seconds: 0, minutes: 0, hours: 0 }
    }

    /// The clock `n` ticks after zero, for `n` before the reset: minutes
    /// start counting once the seconds pass 59 and hours once the minutes
    /// pass 59.
    pub open spec fn after_ticks(n: nat) -> ElapsedClock {
        ElapsedClock {
            seconds: n as u32,
            minutes: if n > 59 {
                (n - 59) as u32
            } else {
                0
            },
            hours: if n > 118 {
                (n - 118) as u32
            } else {
                0
            },
        }
    }

    /// A state the ticks reach from zero: `after_ticks(n)` for some `n` below 142.
    pub open spec fn wf(self) -> bool {
        &&& self.seconds < 142
        &&& self == Self::after_ticks(self.seconds as nat)
    }

    /// The clock after one timer tick.
    pub open spec fn ticked(self) -> ElapsedClock {
        let s = if self.seconds == u32::MAX {
            0u32
        } else {
            (self.seconds + 1) as u32
        };
        let m = if s > 59 {
            (self.minutes + 1) as u32
        } else {
            self.minutes
        };
        let h = if m > 59 {
            (self.hours + 1) as u32
        } else {
            self.hours
        };
        if h > 23 {
            ElapsedClock { seconds: 0, minutes: 0, hours: 0 }
        } else {
            ElapsedClock { seconds: s, minutes: m, hours: h }
        }
    }

    /// One timer tick.
    pub fn tick(&mut self)
        requires
            old(self).minutes < u32::MAX,
            old(self).hours < u32::MAX,
        ensures
            *final(self) == old(self).ticked(),
    {
        self.seconds = self.seconds.wrapping_add(1);
        if self.seconds > 59 {
            self.minutes = self.minutes + 1;
        }
        if self.minutes > 59 {
            self.hours = self.hours + 1;
        }
        if self.hours > 23 {
            self.seconds = 0;
            self.minutes = 0;
            self.hours = 0;
        }
    }
}

/// From zero the clock runs through `after_ticks(1)`, `after_ticks(2)`, ...,
/// `after_ticks(141)` and is back at zero on the next tick; its counters never
/// overflow, and it never shows more than 23 hours.
pub proof fn lemma_clock_cycle(c: ElapsedClock)
    requires
        c.wf(),
    ensures
        c.minutes < u32::MAX && c.hours < u32::MAX,
        c.hours <= 23,
        c.ticked().wf(),
        c.seconds < 141 ==> c.ticked() == ElapsedClock::after_ticks((c.seconds + 1) as nat),
        c.seconds == 141 ==> c.ticked() == ElapsedClock::after_ticks(0),
{
}

// ---------------------------------------------------------------- punch-o-meter

/// The reading, in milli-g, above which the punch-o-meter starts measuring.
pub const PUNCH_THRESHOLD: i32 = 100;

/// The punch-o-meter: a reading above the threshold starts a measurement
/// and is its first maximum; the next reading is reported when it beats
/// that maximum, and the measurement ends.
pub struct PunchMeter {
    pub measuring: bool,
    pub max_acc: i32,
}

impl PunchMeter {
    /// Not measuring, maximum 0.
    pub fn new() -> (m: Self)
        ensures
            !m.measuring && m.max_acc == 0,
    {
        PunchMeter { measuring: false, max_acc: 0 }
    }

    /// Takes one reading; returns the reading to report as a new highest
    /// value, if any.
    pub fn read(&mut self, reading: i32) -> (report: Option<i32>)
        ensures
            old(self).measuring ==> report == (if reading > old(self).max_acc {
                Some(reading)
            } else {
                None
            }) && !final(self).measuring && final(self).max_acc == 0,
            !old(self).measuring ==> report is None && (if reading > PUNCH_THRESHOLD {
                final(self).measuring && final(self).max_acc == reading
            } else {
                *final(self) == *old(self)
            }),
    {
        if self.measuring {
            let report = if reading > self.max_acc {
                Some(reading)
            } else {
                None
            };
            self.max_acc = 0;
            self.measuring = false;
            report
        } else {
            if reading > PUNCH_THRESHOLD {
                self.measuring = true;
                self.max_acc = reading;
            }
            None
        }
    }
}

} // verus!
