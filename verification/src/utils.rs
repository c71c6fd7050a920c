//! Constants of the program, timers and secrets.

use crate::outside::clock::{epoch_millis, measure_micros, micros_between, millis_since_epoch};
use std::time::{Instant, SystemTime};
use vstd::prelude::*;
use vstd::string::*;

verus! {

/// Name of the program.
pub const PROG_NAME: &'static str = "Scalpel MD@Home";

/// Version of the client protocol that is told to the backend.
pub const SPEC: u16 = 31;

/// A timer that counts from its start.
pub struct Timer(Instant);

impl Timer {
    /// The reading of the monotonic clock at which the timer started.
    pub closed spec fn started(self) -> Instant {
        self.0
    }

    /// Starts a timer now: [`Timer::started_at`] the present reading of the clock.
    pub fn start() -> (timer: Self)
        ensures
            call_ensures(Instant::now, (), timer.started()),
    {
        Self::started_at(Instant::now())
    }

    /// A timer that started at the given reading of the monotonic clock.
    pub fn started_at(instant: Instant) -> (timer: Self)
        ensures
            timer.started() == instant,
    {
        Timer(instant)
    }

    /// Microseconds from the start of the timer to the given reading of the monotonic clock.
    pub fn micros_at(&self, now: Instant) -> (micros: u128)
        ensures
            micros == micros_between(self.started(), now),
    {
        measure_micros(&self.0, &now)
    }

    /// Microseconds since the start of the timer: what [`Timer::micros_at`] gives for a reading of the
    /// clock that is taken during the call.
    pub fn elapsed_micros(&self) -> (micros: u128)
        ensures
            exists|now: Instant|
                {
                    &&& call_ensures(Instant::now, (), now)
                    &&& micros == #[trigger] micros_between(self.started(), now)
                },
    {
        self.micros_at(Instant::now())
    }
}

/// The milliseconds that a clock reading amounts to: the low 64 bits of them, and zero for a clock
/// that stands before the epoch.
pub open spec fn millis_of(since_epoch: Option<u128>) -> u64 {
    match since_epoch {
        Some(millis) => (millis % 0x1_0000_0000_0000_0000) as u64,
        None => 0,
    }
}

/// The milliseconds that a clock reading amounts to.
pub fn clock_millis(since_epoch: Option<u128>) -> (millis: u64)
    ensures
        millis == millis_of(since_epoch),
{
    match since_epoch {
        Some(m) => {
            proof {
                assert(m as u64 == (m % 0x1_0000_0000_0000_0000u128) as u64) by (bit_vector);
            }
            #[verifier::truncate]
            (m as u64)
        },
        None => 0,
    }
}

/// The wall clock gave a reading that amounts to so many milliseconds.
pub open spec fn shown_by_clock(millis: u64) -> bool {
    exists|reading: SystemTime|
        {
            &&& call_ensures(SystemTime::now, (), reading)
            &&& millis == millis_of(#[trigger] epoch_millis(reading))
        }
}

/// Milliseconds since the epoch, by the wall clock: what [`clock_millis`] makes of a reading that is
/// taken during the call.
pub fn now_as_millis() -> (millis: u64)
    ensures
        shown_by_clock(millis),
{
    clock_millis(millis_since_epoch(SystemTime::now()))
}

/// A secret of the client. Its debug text does not divulge it.
pub struct Secret<T>(pub T);

impl<T: Clone> Clone for Secret<T> {
    fn clone(&self) -> (copy: Self)
        ensures
            cloned(self.0, copy.0),
    {
        Secret(self.0.clone())
    }
}

impl<T> Secret<T> {
    /// The text that stands for the secret in debug output.
    pub fn debug_text(&self) -> (text: String)
        ensures
            text@ == "Hidden"@,
    {
        "Hidden".to_string()
    }
}

impl<T> std::ops::Deref for Secret<T> {
    type Target = T;

    fn deref(&self) -> (inner: &T)
        ensures
            *inner == self.0,
    {
        &self.0
    }
}

} // verus!
