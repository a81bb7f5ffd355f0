//! Duty cycles: mapping a potentiometer reading to a PWM duty, the duty
//! bounds and sweeps of a hobby servo, and a software PWM that fades an LED
//! up and down by toggling a pin.
use vstd::prelude::*;

verus! {

/// Division as Rust does it on signed integers: the quotient is truncated
/// toward zero.
pub open spec fn tdiv(a: int, b: int) -> int {
    if a >= 0 {
        if b > 0 {
            a / b
        } else {
            -(a / (-b))
        }
    } else {
        if b > 0 {
            -((-a) / b)
        } else {
            (-a) / (-b)
        }
    }
}

/// A truncated quotient is no larger in size than the dividend.
pub proof fn lemma_tdiv_bound(a: int, b: int)
    requires
        b != 0,
    ensures
        -a <= tdiv(a, b) <= a || a <= tdiv(a, b) <= -a,
        a >= 0 && b > 0 ==> 0 <= tdiv(a, b) <= a,
{
    if a >= 0 {
        if b > 0 {
            assert(0 <= a / b <= a) by (nonlinear_arith)
                requires
                    a >= 0,
                    b > 0,
            ;
        } else {
            assert(0 <= a / (-b) <= a) by (nonlinear_arith)
                requires
                    a >= 0,
                    -b > 0,
            ;
        }
    } else {
        if b > 0 {
            assert(0 <= (-a) / b <= -a) by (nonlinear_arith)
                requires
                    -a > 0,
                    b > 0,
            ;
        } else {
            assert(0 <= (-a) / (-b) <= -a) by (nonlinear_arith)
                requires
                    -a > 0,
                    -b > 0,
            ;
        }
    }
}

/// `a / b` on `i64`, truncated toward zero.
pub fn trunc_div(a: i64, b: i64) -> (q: i64)
    requires
        b != 0,
        a > i64::MIN,
        b > i64::MIN,
    ensures
        q == tdiv(a as int, b as int),
{
    let ua: u64 = if a < 0 {
        (-a) as u64
    } else {
        a as u64
    };
    let ub: u64 = if b < 0 {
        (-b) as u64
    } else {
        b as u64
    };
    let uq: u64 = ua / ub;
    proof {
        assert(uq <= ua) by (nonlinear_arith)
            requires
                uq == ua / ub,
                ub >= 1,
        ;
    }
    let q = uq as i64;
    if (a < 0) != (b < 0) {
        -q
    } else {
        q
    }
}

/// The largest reading of the 12-bit ADC.
pub const ADC_MAX: u64 = 4095;

/// The largest duty of a 14-bit PWM channel.
pub const PWM_MAX_14_BIT: u64 = 16383;

/// The PWM duty for an ADC reading: the reading scaled from 0..=4095 onto
/// 0..=16383, rounded down.
pub open spec fn pwm_duty_for(adc_input: u16) -> int {
    (adc_input * 16383) / 4095
}

/// Maps a 12-bit potentiometer reading onto the duty range of a 14-bit PWM channel.
pub fn adc_to_pwm_cycle(adc_input: u16) -> (duty: u32)
    ensures
        duty == pwm_duty_for(adc_input),
{
    let adc_max: u64 = ADC_MAX;
    let pwm_max: u64 = PWM_MAX_14_BIT;
    let product: u64 = adc_input as u64 * pwm_max;
    let mapped: u64 = product / adc_max;
    assert(mapped <= product) by (nonlinear_arith)
        requires
            mapped == product / 4095,
            product >= 0,
    ;
    mapped as u32
}

/// The mapping keeps order, sends 0 to 0 and full scale to the full duty,
/// and never leaves the duty range for a reading in the ADC's range.
pub proof fn lemma_pwm_duty_scale(a: u16, b: u16)
    requires
        a <= b,
    ensures
        pwm_duty_for(a) <= pwm_duty_for(b),
        pwm_duty_for(0) == 0,
        pwm_duty_for(4095) == 16383,
        b <= 4095 ==> pwm_duty_for(b) <= 16383,
{
    assert(a * 16383 <= b * 16383) by (nonlinear_arith)
        requires
            a <= b,
    ;
    vstd::arithmetic::div_mod::lemma_div_is_ordered(a * 16383, b * 16383, 4095);
    if b <= 4095 {
        assert(b * 16383 <= 4095 * 16383) by (nonlinear_arith)
            requires
                b <= 4095,
        ;
        vstd::arithmetic::div_mod::lemma_div_is_ordered(b * 16383, 4095int * 16383, 4095);
    }
}

/// The servo's duty bounds for a channel whose full duty is `max_duty`:
/// 5% (0 degrees) and 10% (the far end) of it, rounded down.
pub fn servo_duty_bounds(max_duty: u32) -> (bounds: (u32, u32))
    ensures
        bounds.0 == max_duty / 20,
        bounds.1 == max_duty / 10,
{
    (max_duty / 20, max_duty / 10)
}

/// The duties `start, start + 1, ..., end - 1`, empty when `start >= end`.
pub open spec fn rising(start: u32, end: u32) -> Seq<u32> {
    Seq::new(if start < end { (end - start) as nat } else { 0 }, |i: int| (start + i) as u32)
}

/// The duties `end - 1, end - 2, ..., start`, empty when `start >= end`.
pub open spec fn falling(start: u32, end: u32) -> Seq<u32> {
    Seq::new(if start < end { (end - start) as nat } else { 0 }, |i: int| (end - 1 - i) as u32)
}

/// The duties `end, end - 1, ..., start`, empty when `start > end`.
pub open spec fn falling_inclusive(start: u32, end: u32) -> Seq<u32> {
    Seq::new(
        if start <= end {
            (end - start + 1) as nat
        } else {
            0
        },
        |i: int| (end - i) as u32,
    )
}

/// The duties of `start..end`, in rising order.
pub fn duty_ramp(start: u32, end: u32) -> (duties: Vec<u32>)
    ensures
        duties@ == rising(start, end),
{
    let mut duties: Vec<u32> = Vec::new();
    if start < end {
        let mut duty = start;
        while duty < end
            invariant
                start <= duty <= end,
                duties@ == rising(start, duty),
            decreases end - duty,
        {
            duties.push(duty);
            proof {
                assert(duties@ =~= rising(start, (duty + 1) as u32));
            }
            duty = duty + 1;
        }
    } else {
        assert(duties@ =~= rising(start, end));
    }
    duties
}

/// The duties `end, end - 1, ..., end - count + 1`.
pub open spec fn falling_from(end: int, count: nat) -> Seq<u32> {
    Seq::new(count, |i: int| (end - i) as u32)
}

/// The duties of `(start..end).rev()`, in falling order.
pub fn duty_ramp_down(start: u32, end: u32) -> (duties: Vec<u32>)
    ensures
        duties@ == falling(start, end),
{
    let mut duties: Vec<u32> = Vec::new();
    if start < end {
        let count: u32 = end - start;
        let mut i: u32 = 0;
        while i < count
            invariant
                count == end - start,
                i <= count,
                duties@ == falling_from(end - 1, i as nat),
            decreases count - i,
        {
            duties.push(end - 1 - i);
            proof {
                assert(duties@ =~= falling_from(end - 1, (i + 1) as nat));
            }
            i = i + 1;
        }
    }
    assert(duties@ =~= falling(start, end));
    duties
}

/// One back-and-forth sweep of the servo: the duties of `min..max` rising,
/// then of `min..=max` falling.
pub fn servo_sweep(min_duty: u32, max_duty: u32) -> (duties: Vec<u32>)
    ensures
        duties@ == rising(min_duty, max_duty) + falling_inclusive(min_duty, max_duty),
{
    let mut duties = duty_ramp(min_duty, max_duty);
    let ghost up = duties@;
    if min_duty <= max_duty {
        let count: u64 = (max_duty - min_duty) as u64 + 1;
        let mut i: u64 = 0;
        while i < count
            invariant
                count == max_duty - min_duty + 1,
                i <= count,
                duties@ == up + falling_from(max_duty as int, i as nat),
            decreases count - i,
        {
            duties.push((max_duty as u64 - i) as u32);
            proof {
                assert(duties@ =~= up + falling_from(max_duty as int, (i + 1) as nat));
            }
            i = i + 1;
        }
    }
    assert(duties@ =~= rising(min_duty, max_duty) + falling_inclusive(min_duty, max_duty));
    duties
}

// ---------------------------------------------------------------- software PWM fade

/// Why a fade cannot be run: its timing arithmetic would divide by zero
/// or overflow `i32`.
#[derive(Debug, Clone, Copy, PartialEq, Eq, Structural)]
pub enum FadeError {
    ZeroFrequency,
    Overflow,
}

/// Where the fade is.
#[derive(Debug, Clone, Copy, PartialEq, Eq, Structural)]
pub enum FadePhase {
    /// About to check whether the whole duration has run out.
    Check,
    /// Fading up; the next step is at `duty`.
    Up,
    /// Fading down; the next step is at `duty`.
    Down,
    /// The duration ran out.
    Finished,
}

/// What the pin should do next.
#[derive(Debug, Clone, Copy, PartialEq, Eq, Structural)]
pub enum PwmAction {
    /// One PWM cycle: drive the pin high for `high` microseconds when given,
    /// then low for `low` microseconds when given.
    Pulse { high: Option<u32>, low: Option<u32> },
    /// Nothing to drive; ask again with the current elapsed time.
    Continue,
    /// The fade is over.
    Done,
    /// The duty arithmetic overflows `i32` at this step.
    Overflow,
}

/// A software PWM that fades a pin from duty 0 up to `duty_level` percent
/// and back down, repeatedly, until `duration_ms` have elapsed. Each duty
/// step runs `cycles_per_step` PWM cycles of `period_us` microseconds; the
/// fade up stops early once half the duration has elapsed.
pub struct PwmFade {
    pub duty_level: i32,
    pub period_us: i32,
    pub half_duration_ms: i32,
    pub duration_ms: i32,
    pub cycles_per_step: i32,
    pub phase: FadePhase,
    pub duty: i64,
    pub on_us: i32,
    pub off_us: i32,
    pub pulses_left: i32,
}

/// The number of duty steps in each half of the fade.
pub const FADE_STEPS: i32 = 200;

/// A microsecond count as the pulse carries it: `None` when not positive.
pub open spec fn positive_us(us: i32) -> Option<u32> {
    if us > 0 {
        Some(us as u32)
    } else {
        None
    }
}

/// The high time of a PWM cycle at `duty` percent of `period` microseconds.
pub open spec fn on_time(period: i32, duty: int) -> int {
    tdiv(period * duty, 100)
}

/// A duty step's arithmetic stays within `i32`.
pub open spec fn step_fits(period: i32, duty: int) -> bool {
    i32::MIN <= period * duty <= i32::MAX
}

impl PwmFade {
    /// The cycle shape is fixed by the plan.
    pub open spec fn plan_ok(self) -> bool {
        &&& self.period_us != i32::MIN
        &&& -1_000_000 <= self.period_us <= 1_000_000
        &&& self.pulses_left >= 0
        &&& i32::MIN <= self.duty <= i32::MAX as int + 1
        &&& self.phase == FadePhase::Down ==> self.duty <= self.duty_level
    }

    /// The state after `self` starts a duty step at `self.duty`, or `None`
    /// when the step's arithmetic overflows.
    pub open spec fn start_step(self, next_duty: i64) -> Option<PwmFade> {
        if step_fits(self.period_us, self.duty as int) {
            let on = on_time(self.period_us, self.duty as int);
            Some(
                PwmFade {
                    on_us: on as i32,
                    off_us: (self.period_us - on) as i32,
                    pulses_left: if self.cycles_per_step > 0 {
                        self.cycles_per_step
                    } else {
                        0
                    },
                    duty: next_duty,
                    ..self
                },
            )
        } else {
            None
        }
    }

    /// One move of the fade, given the milliseconds elapsed since it began:
    /// the state afterwards and what the pin should do.
    pub open spec fn advance(self, elapsed_ms: u128) -> (PwmFade, PwmAction) {
        if self.pulses_left > 0 {
            (
                PwmFade { pulses_left: (self.pulses_left - 1) as i32, ..self },
                PwmAction::Pulse { high: positive_us(self.on_us), low: positive_us(self.off_us) },
            )
        } else {
            match self.phase {
                FadePhase::Finished => (self, PwmAction::Done),
                FadePhase::Check => if elapsed_ms < self.duration_ms as u128 {
                    (PwmFade { phase: FadePhase::Up, duty: 0, ..self }, PwmAction::Continue)
                } else {
                    (PwmFade { phase: FadePhase::Finished, ..self }, PwmAction::Done)
                },
                FadePhase::Up => if self.duty > self.duty_level || elapsed_ms
                    >= self.half_duration_ms as u128 {
                    (
                        PwmFade { phase: FadePhase::Down, duty: self.duty_level as i64, ..self },
                        PwmAction::Continue,
                    )
                } else {
                    match self.start_step((self.duty + 1) as i64) {
                        Some(next) => (next, PwmAction::Continue),
                        None => (self, PwmAction::Overflow),
                    }
                },
                FadePhase::Down => if self.duty < 0 || elapsed_ms >= self.duration_ms as u128 {
                    (PwmFade { phase: FadePhase::Check, ..self }, PwmAction::Continue)
                } else {
                    match self.start_step((self.duty - 1) as i64) {
                        Some(next) => (next, PwmAction::Continue),
                        None => (self, PwmAction::Overflow),
                    }
                },
            }
        }
    }

    /// Plans a fade of `duration_ms` milliseconds up to `duty_level` percent
    /// at `frequency_hz`: the period is `1_000_000 / frequency_hz`
    /// microseconds, each of the `FADE_STEPS` steps of a half lasts
    /// `duration_ms / 2 / FADE_STEPS` milliseconds, and so runs that many
    /// milliseconds' worth of cycles. Refused where that arithmetic divides
    /// by zero or overflows `i32`.
    pub fn new(duty_level: i32, frequency_hz: i32, duration_ms: i32) -> (r: Result<PwmFade, FadeError>)
        ensures
            frequency_hz == 0 ==> (r matches Err(e) && e == FadeError::ZeroFrequency),
            frequency_hz != 0 ==> {
                let half = tdiv(duration_ms as int, 2);
                let per_step = tdiv(half, FADE_STEPS as int);
                let product = per_step * frequency_hz;
                &&& (i32::MIN <= product <= i32::MAX) <==> r is Ok
                &&& r matches Ok(f) ==> {
                    &&& f.duty_level == duty_level
                    &&& f.period_us == tdiv(1_000_000, frequency_hz as int)
                    &&& f.half_duration_ms == half
                    &&& f.duration_ms == duration_ms
                    &&& f.cycles_per_step == tdiv(product, 1000)
                    &&& f.phase == FadePhase::Check
                    &&& f.pulses_left == 0
                    &&& f.plan_ok()
                }
                &&& r matches Err(e) ==> e == FadeError::Overflow
            },
    {
        if frequency_hz == 0 {
            return Err(FadeError::ZeroFrequency);
        }
        let period = trunc_div(1_000_000, frequency_hz as i64);
        let half_duration = trunc_div(duration_ms as i64, 2);
        let duration_per_step = trunc_div(half_duration, FADE_STEPS as i64);
        proof {
            lemma_tdiv_bound(1_000_000, frequency_hz as int);
            lemma_tdiv_bound(duration_ms as int, 2);
            lemma_tdiv_bound(half_duration as int, 200);
            assert(duration_per_step * frequency_hz <= 2147483648 * 2147483648) by (nonlinear_arith)
                requires
                    -2147483648 <= duration_per_step <= 2147483648,
                    -2147483648 <= frequency_hz <= 2147483648,
            ;
            assert(-(2147483648 * 2147483648) <= duration_per_step * frequency_hz) by (nonlinear_arith)
                requires
                    -2147483648 <= duration_per_step <= 2147483648,
                    -2147483648 <= frequency_hz <= 2147483648,
            ;
        }
        let product: i64 = duration_per_step * frequency_hz as i64;
        if product < i32::MIN as i64 || product > i32::MAX as i64 {
            return Err(FadeError::Overflow);
        }
        let cycles = trunc_div(product, 1000);
        Ok(
            PwmFade {
                duty_level,
                period_us: period as i32,
                half_duration_ms: half_duration as i32,
                duration_ms,
                cycles_per_step: cycles as i32,
                phase: FadePhase::Check,
                duty: 0,
                on_us: 0,
                off_us: 0,
                pulses_left: 0,
            },
        )
    }

    /// Starts a duty step at `self.duty`: works out the cycle's high and low
    /// times and how many cycles the step runs.
    fn begin_step(&mut self, next_duty: i64) -> (ok: bool)
        requires
            old(self).plan_ok(),
            old(self).pulses_left == 0,
            i32::MIN <= old(self).duty <= i32::MAX,
            i32::MIN <= next_duty <= i32::MAX as int + 1,
            old(self).phase == FadePhase::Down ==> next_duty <= old(self).duty_level,
        ensures
            ok <==> old(self).start_step(next_duty) is Some,
            ok ==> Some(*final(self)) == old(self).start_step(next_duty),
            !ok ==> *final(self) == *old(self),
            final(self).plan_ok(),
    {
        proof {
            assert(-(1_000_000 * 2147483649) <= self.period_us * self.duty <= 1_000_000 * 2147483649) by (nonlinear_arith)
                requires
                    -1_000_000 <= self.period_us <= 1_000_000,
                    -2147483649 <= self.duty <= 2147483649,
            ;
        }
        let product: i64 = self.period_us as i64 * self.duty;
        if product < i32::MIN as i64 || product > i32::MAX as i64 {
            return false;
        }
        let on = trunc_div(product, 100);
        proof {
            assert(-(i32::MAX as int) / 100 - 1 <= on <= i32::MAX as int / 100 + 1) by (nonlinear_arith)
                requires
                    on == tdiv(product as int, 100),
                    i32::MIN <= product <= i32::MAX,
            {
            }
        }
        self.on_us = on as i32;
        self.off_us = self.period_us - self.on_us;
        self.pulses_left = if self.cycles_per_step > 0 {
            self.cycles_per_step
        } else {
            0
        };
        self.duty = next_duty;
        true
    }

    /// One move of the fade: emits the next PWM cycle of the current duty
    /// step, or performs the next check against the elapsed time.
    pub fn next_action(&mut self, elapsed_ms: u128) -> (action: PwmAction)
        requires
            old(self).plan_ok(),
        ensures
            (*final(self), action) == old(self).advance(elapsed_ms),
            final(self).plan_ok(),
    {
        if self.pulses_left > 0 {
            self.pulses_left = self.pulses_left - 1;
            let high = if self.on_us > 0 {
                Some(self.on_us as u32)
            } else {
                None
            };
            let low = if self.off_us > 0 {
                Some(self.off_us as u32)
            } else {
                None
            };
            return PwmAction::Pulse { high, low };
        }
        match self.phase {
            FadePhase::Finished => PwmAction::Done,
            FadePhase::Check => {
                if elapsed_ms < self.duration_ms as u128 {
                    self.phase = FadePhase::Up;
                    self.duty = 0;
                    PwmAction::Continue
                } else {
                    self.phase = FadePhase::Finished;
                    PwmAction::Done
                }
            },
            FadePhase::Up => {
                if self.duty > self.duty_level as i64 || elapsed_ms >= self.half_duration_ms as u128 {
                    self.phase = FadePhase::Down;
                    self.duty = self.duty_level as i64;
                    PwmAction::Continue
                } else if self.begin_step(self.duty + 1) {
                    PwmAction::Continue
                } else {
                    PwmAction::Overflow
                }
            },
            FadePhase::Down => {
                if self.duty < 0 || elapsed_ms >= self.duration_ms as u128 {
                    self.phase = FadePhase::Check;
                    PwmAction::Continue
                } else if self.begin_step(self.duty - 1) {
                    PwmAction::Continue
                } else {
                    PwmAction::Overflow
                }
            },
        }
    }
}

/// Once the fade is over it stays over.
pub proof fn lemma_fade_finished_stays(f: PwmFade, elapsed_ms: u128)
    requires
        f.phase == FadePhase::Finished,
        f.pulses_left == 0,
    ensures
        f.advance(elapsed_ms) == (f, PwmAction::Done),
{
}

/// At the outer check, a fade whose duration has run out is over; one
/// whose duration has not starts fading up from duty 0.
pub proof fn lemma_fade_check(f: PwmFade, elapsed_ms: u128)
    requires
        f.phase == FadePhase::Check,
        f.pulses_left == 0,
    ensures
        elapsed_ms >= f.duration_ms as u128 ==> f.advance(elapsed_ms).1 == PwmAction::Done,
        elapsed_ms < f.duration_ms as u128 ==> f.advance(elapsed_ms).0.phase == FadePhase::Up
            && f.advance(elapsed_ms).0.duty == 0,
{
}

/// Every PWM cycle of a step at a duty between 0 and 100 percent, with a
/// positive period, is high and low for a total of exactly one period.
pub proof fn lemma_cycle_fills_period(period: i32, duty: int)
    requires
        period > 0,
        0 <= duty <= 100,
    ensures
        0 <= on_time(period, duty) <= period,
        on_time(period, duty) + (period - on_time(period, duty)) == period,
{
    assert(0 <= period * duty <= period * 100) by (nonlinear_arith)
        requires
            period > 0,
            0 <= duty <= 100,
    ;
    vstd::arithmetic::div_mod::lemma_div_is_ordered(period * duty, period * 100, 100);
    vstd::arithmetic::div_mod::lemma_div_multiples_vanish(period as int, 100);
}

/// Only the fade up stops at half the duration: fading down goes on until
/// the whole duration has run out. In the down phase, with no pulses left,
/// a duty of 0 or more and time still left, the next move starts the step
/// at that duty and stays in the down phase, with the next duty one lower;
/// once the duration has run out it goes back to the outer check.
pub proof fn lemma_fade_down_runs_to_the_end(f: PwmFade, elapsed_ms: u128)
    requires
        f.phase == FadePhase::Down,
        f.pulses_left == 0,
    ensures
        f.duty >= 0 && elapsed_ms < f.duration_ms as u128 && i32::MIN <= f.period_us * f.duty
            <= i32::MAX ==> {
            let (g, a) = f.advance(elapsed_ms);
            &&& a == PwmAction::Continue
            &&& g.phase == FadePhase::Down
            &&& g.duty == f.duty - 1
            &&& g.pulses_left == (if f.cycles_per_step > 0 {
                f.cycles_per_step
            } else {
                0
            })
        },
        elapsed_ms >= f.duration_ms as u128 ==> f.advance(elapsed_ms).0.phase == FadePhase::Check
            && f.advance(elapsed_ms).1 == PwmAction::Continue,
{
}

/// The fade up stops once half the duration has run out and turns to
/// fading down from `duty_level`.
pub proof fn lemma_fade_up_stops_at_half(f: PwmFade, elapsed_ms: u128)
    requires
        f.phase == FadePhase::Up,
        f.pulses_left == 0,
        elapsed_ms >= f.half_duration_ms as u128,
    ensures
        f.advance(elapsed_ms).0.phase == FadePhase::Down,
        f.advance(elapsed_ms).0.duty == f.duty_level,
        f.advance(elapsed_ms).1 == PwmAction::Continue,
{
}

} // verus!
