//! Fixed-step pacing of the integration loop against wall-clock time.
//!
//! All times are signed nanosecond counts: clock readings count from an
//! epoch of the caller's choice, durations are differences of readings.
//! The loop sleeps in whole microseconds.

use vstd::prelude::*;

verus! {

/// Nanoseconds in one microsecond.
pub const NANOS_PER_MICRO: i64 = 1_000;

/// What the loop does before its next integration step.
#[derive(Clone, Copy, Debug, PartialEq, Eq, Structural)]
pub enum Pace {
    /// The loop is on time: sleep for this many whole microseconds first.
    Sleep(u64),
    /// The loop is behind: step at once.
    CatchUp,
}

/// The backlog of a loop that is behind no longer fits in 64 bits.
#[derive(Clone, Copy, Debug, PartialEq, Eq, Structural)]
pub enum PaceError {
    LagOverflow,
}

/// Time on the accumulator once the clock reads `now`: what it held, plus
/// what has passed since the reading before.
pub open spec fn accumulated(tick: int, previous: int, now: int) -> int {
    tick + (now - previous)
}

/// Whether a loop holding `acc` on its accumulator is on time for a step of
/// length `step`.
pub open spec fn on_time(acc: int, step: int) -> bool {
    acc <= step
}

/// Whole microseconds left until the step is due; meant for `on_time(acc, step)`.
pub open spec fn sleep_micros(acc: int, step: int) -> int {
    (step - acc) / (NANOS_PER_MICRO as int)
}

/// What stays on the accumulator: nothing after a sleep, the backlog less
/// the one step that is taken otherwise.
pub open spec fn carried(acc: int, step: int) -> int {
    if on_time(acc, step) {
        0
    } else {
        acc - step
    }
}

/// The accumulator of one run: the step length, the time not yet consumed
/// by steps, and the last clock reading.
#[derive(Clone, Copy, Debug)]
pub struct Pacer {
    step: i64,
    tick: i64,
    previous: i64,
}

impl Pacer {
    pub closed spec fn spec_step(&self) -> i64 {
        self.step
    }

    pub closed spec fn spec_tick(&self) -> i64 {
        self.tick
    }

    pub closed spec fn spec_previous(&self) -> i64 {
        self.previous
    }

    /// A pacer for steps of `step` nanoseconds, started when the clock reads `now`.
    pub fn new(step: i64, now: i64) -> (pacer: Pacer)
        ensures
            pacer.step() == step,
            pacer.tick() == 0,
            pacer.previous() == now,
    {
        Pacer { step, tick: 0, previous: now }
    }

    /// A pacer for steps of `step_micros` microseconds, started when the
    /// clock reads `now` nanoseconds; `None` where the step does not fit in
    /// 64 bits of nanoseconds.
    pub fn from_micros(step_micros: i64, now: i64) -> (pacer: Option<Pacer>)
        ensures
            match pacer {
                Some(pacer) => {
                    &&& pacer.step() == step_micros * NANOS_PER_MICRO
                    &&& pacer.tick() == 0
                    &&& pacer.previous() == now
                },
                None => !(i64::MIN <= step_micros * NANOS_PER_MICRO <= i64::MAX),
            },
    {
        match step_micros.checked_mul(NANOS_PER_MICRO) {
            Some(step) => Some(Pacer::new(step, now)),
            None => None,
        }
    }

    /// The step length in nanoseconds.
    #[verifier::when_used_as_spec(spec_step)]
    pub fn step(&self) -> (step: i64)
        ensures
            step == self.spec_step(),
    {
        self.step
    }

    /// The time accumulated and not yet consumed, in nanoseconds.
    #[verifier::when_used_as_spec(spec_tick)]
    pub fn tick(&self) -> (tick: i64)
        ensures
            tick == self.spec_tick(),
    {
        self.tick
    }

    /// The clock reading of the last call of `advance` (of `new` before the first).
    #[verifier::when_used_as_spec(spec_previous)]
    pub fn previous(&self) -> (previous: i64)
        ensures
            previous == self.spec_previous(),
    {
        self.previous
    }

    /// Accounts for the time up to `now` and decides how the loop goes on.
    ///
    /// On time, the loop sleeps out the rest of the step and the accumulator
    /// is reset. Behind, one step's worth is consumed and the loop goes on
    /// without sleeping, until it has caught up. A backlog beyond `i64::MAX`
    /// nanoseconds is an error and leaves the pacer as it was.
    pub fn advance(&mut self, now: i64) -> (pace: Result<Pace, PaceError>)
        ensures
            final(self).step() == old(self).step(),
            ({
                let step = old(self).step() as int;
                let acc = accumulated(old(self).tick() as int, old(self).previous() as int, now as int);
                match pace {
                    Ok(Pace::Sleep(micros)) => {
                        &&& on_time(acc, step)
                        &&& micros == sleep_micros(acc, step)
                        &&& final(self).tick() == 0
                        &&& final(self).previous() == now
                    },
                    Ok(Pace::CatchUp) => {
                        &&& !on_time(acc, step)
                        &&& final(self).tick() == carried(acc, step)
                        &&& final(self).previous() == now
                    },
                    Err(PaceError::LagOverflow) => {
                        &&& !on_time(acc, step)
                        &&& carried(acc, step) > i64::MAX
                        &&& *final(self) == *old(self)
                    },
                }
            }),
    {
        let step: i128 = self.step as i128;
        let acc: i128 = self.tick as i128 + (now as i128 - self.previous as i128);
        if acc <= step {
            let micros: i128 = (step - acc) / (NANOS_PER_MICRO as i128);
            self.tick = 0;
            self.previous = now;
            Ok(Pace::Sleep(micros as u64))
        } else {
            let rest: i128 = acc - step;
            if rest > i64::MAX as i128 {
                Err(PaceError::LagOverflow)
            } else {
                self.tick = rest as i64;
                self.previous = now;
                Ok(Pace::CatchUp)
            }
        }
    }
}

} // verus!
