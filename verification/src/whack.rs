//! The reaction game: after a random delay an LED lights for a random time;
//! pressing the button while it is lit wins the round, letting it go out
//! loses it. Interrupts set flags; each pass of the main loop decides from a
//! snapshot of the flags what to do.
use vstd::prelude::*;
use rand::Rng;

verus! {

/// The shortest and longest wait before the LED lights, in timer ticks (µs).
pub const MIN_DELAY: u64 = 3_000_000;

pub const MAX_DELAY: u64 = 6_000_000;

/// The shortest and longest time the LED stays lit, in timer ticks (µs).
pub const MIN_DISPLAY_DURATION: u64 = 2_000_000;

pub const MAX_DISPLAY_DURATION: u64 = 6_000_000;

/// How long the success or failure LED stays lit, in timer ticks (µs);
/// shorter than the shortest delay.
pub const FEEDBACK_DURATION: u64 = 2_000_000;

/// `rand::rng().random_range(low..=high)`: some number from `low` to
/// `high` inclusive, drawn from the thread's generator. Which number comes
/// back is left open; `rand` documents a panic for an empty range, which the
/// `requires` rules out, and `rand::rng()` may panic if the operating
/// system's random source fails.
#[verifier::external_body]
fn random_in_range(low: u64, high: u64) -> (r: u64)
    requires
        low <= high,
    ensures
        low <= r <= high,
{
    rand::rng().random_range(low..=high)
}

/// A random wait before the LED lights.
pub fn next_delay_duration() -> (d: u64)
    ensures
        MIN_DELAY <= d <= MAX_DELAY,
{
    random_in_range(MIN_DELAY, MAX_DELAY)
}

/// A random time for the LED to stay lit.
pub fn next_display_duration() -> (d: u64)
    ensures
        MIN_DISPLAY_DURATION <= d <= MAX_DISPLAY_DURATION,
{
    random_in_range(MIN_DISPLAY_DURATION, MAX_DISPLAY_DURATION)
}

/// The reported response: the response timer's count times 1000, or 0 when
/// the timer could not be read.
pub fn response_speed_secs(counter: Option<u64>) -> (speed: u64)
    requires
        counter matches Some(c) ==> c <= u64::MAX / 1000,
    ensures
        counter matches Some(c) ==> speed == c * 1000,
        counter is None ==> speed == 0,
{
    match counter {
        Some(speed) => speed * 1000,
        None => 0,
    }
}

/// The flags the interrupts and the main loop share.
#[derive(Debug, Clone, Copy, PartialEq, Eq, Structural)]
pub struct WhackFlags {
    /// The button was pressed during a round.
    pub button_pressed: bool,
    /// The LED's time ran out.
    pub display_timed_out: bool,
    /// The wait before the LED ran out.
    pub delay_timed_out: bool,
    /// A success or failure LED is showing.
    pub feedback_active: bool,
    /// The round has started, so presses count.
    pub game_started: bool,
}

/// What one pass of the main loop does, in this order.
#[derive(Debug, Clone, Copy, PartialEq, Eq, Structural)]
pub struct RoundPlan {
    /// Light the LED and start timing the response.
    pub show_display: bool,
    /// Show the success LED with the response time.
    pub success: bool,
    /// Show the failure LED.
    pub failure: bool,
    /// Stop the timers and start the wait for the next round.
    pub restart: bool,
}

impl WhackFlags {
    /// All flags down.
    pub fn new() -> (f: Self)
        ensures
            !f.button_pressed && !f.display_timed_out && !f.delay_timed_out && !f.feedback_active
                && !f.game_started,
    {
        WhackFlags {
            button_pressed: false,
            display_timed_out: false,
            delay_timed_out: false,
            feedback_active: false,
            game_started: false,
        }
    }

    /// The wait ran out: the round starts.
    pub fn handle_delay_timeout(&mut self)
        ensures
            *final(self) == (WhackFlags {
                delay_timed_out: true,
                game_started: true,
                ..*old(self)
            }),
    {
        self.delay_timed_out = true;
        self.game_started = true;
    }

    /// The button was pressed: it counts only once the round has started.
    pub fn handle_button_pressed(&mut self)
        ensures
            *final(self) == (WhackFlags {
                button_pressed: old(self).button_pressed || old(self).game_started,
                ..*old(self)
            }),
    {
        if self.game_started {
            self.button_pressed = true;
        }
    }

    /// The LED's time ran out.
    pub fn handle_display_timeout(&mut self)
        ensures
            *final(self) == (WhackFlags { display_timed_out: true, ..*old(self) }),
    {
        self.display_timed_out = true;
    }

    /// The feedback LED's time ran out.
    pub fn handle_feedback_timeout(&mut self)
        ensures
            *final(self) == (WhackFlags { feedback_active: false, ..*old(self) }),
    {
        self.feedback_active = false;
    }

    /// The plan for one pass of the main loop, from a snapshot of the flags:
    /// light the LED once the wait is over (unless feedback shows or the LED
    /// already timed out); a press in a started round before the LED timed
    /// out wins; a timeout without a press loses; after either, restart.
    pub open spec fn plan(self) -> RoundPlan {
        RoundPlan {
            show_display: self.delay_timed_out && !self.feedback_active && !self.display_timed_out,
            success: self.game_started && self.button_pressed && !self.display_timed_out
                && !self.feedback_active,
            failure: !self.button_pressed && self.display_timed_out && !self.feedback_active,
            restart: !self.feedback_active && (self.button_pressed || self.display_timed_out),
        }
    }

    /// Decides one pass of the main loop.
    pub fn plan_round(&self) -> (p: RoundPlan)
        ensures
            p == self.plan(),
    {
        let button_was_pressed = self.button_pressed;
        let display_timed_out = self.display_timed_out;
        let is_displaying_feedback = self.feedback_active;
        let new_game_started = self.delay_timed_out;
        let game_ongoing = self.game_started;
        RoundPlan {
            show_display: new_game_started && !is_displaying_feedback && !display_timed_out,
            success: game_ongoing && button_was_pressed && !display_timed_out
                && !is_displaying_feedback,
            failure: !button_was_pressed && display_timed_out && !is_displaying_feedback,
            restart: !is_displaying_feedback && (button_was_pressed || display_timed_out),
        }
    }

    /// The flags once the planned actions are done, with no interrupt in
    /// between: lighting the LED clears the wait flag, feedback sets the
    /// feedback flag, a restart clears every flag but the feedback flag.
    pub open spec fn after(self, p: RoundPlan) -> WhackFlags {
        let shown = if p.show_display {
            WhackFlags { delay_timed_out: false, ..self }
        } else {
            self
        };
        let fed = if p.success || p.failure {
            WhackFlags { feedback_active: true, ..shown }
        } else {
            shown
        };
        if p.restart {
            WhackFlags {
                delay_timed_out: false,
                game_started: false,
                display_timed_out: false,
                button_pressed: false,
                ..fed
            }
        } else {
            fed
        }
    }
}

/// A round ends at most one way: never both a win and a loss; the LED is
/// never lit in the same pass that loses; and any win or loss is followed by
/// a restart that clears the round's flags while the feedback shows.
pub proof fn lemma_round_outcomes(f: WhackFlags)
    ensures
        !(f.plan().success && f.plan().failure),
        !(f.plan().show_display && f.plan().failure),
        (f.plan().success || f.plan().failure) ==> f.plan().restart,
        (f.plan().success || f.plan().failure) ==> {
            let g = f.after(f.plan());
            &&& g.feedback_active
            &&& !g.button_pressed && !g.display_timed_out && !g.delay_timed_out && !g.game_started
        },
        f.feedback_active ==> !f.plan().success && !f.plan().failure && !f.plan().restart
            && !f.plan().show_display,
{
}

} // verus!
