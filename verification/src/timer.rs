//! A self-contained timer for tracking how long a generation takes.

use std::time::Duration;
use std::time::Instant;
use vstd::prelude::*;
use vstd::string::*;

use crate::decimal::decimal;
use crate::decimal::push_decimal;

verus! {

#[verifier::external_type_specification]
#[verifier::external_body]
pub struct ExInstant(Instant);

/// Calls `std::time::Instant::now`. The reading comes from the system clock,
/// so nothing is promised of the value.
#[verifier::external_body]
fn instant_now() -> Instant {
    Instant::now()
}

/// Calls `std::time::Instant::elapsed`. How much time has passed depends on the
/// clock, so nothing is promised of the value.
#[verifier::external_body]
fn instant_elapsed(started_at: &Instant) -> Duration {
    started_at.elapsed()
}

/// The number of whole seconds of a duration, as `Duration::as_secs` returns it.
pub uninterp spec fn duration_whole_secs(d: Duration) -> u64;

/// Calls `std::time::Duration::as_secs`, which returns the duration's whole
/// seconds and depends on the duration alone: the result is
/// `duration_whole_secs` of the argument.
#[verifier::external_body]
fn duration_as_secs(elapsed: &Duration) -> (secs: u64)
    ensures
        secs == duration_whole_secs(*elapsed),
{
    elapsed.as_secs()
}

/// The text shown for an elapsed time of `seconds`: `" {s}s"` under a minute,
/// `" {m}m {s}s"` from one minute on.
pub open spec fn elapsed_text(seconds: nat) -> Seq<char> {
    if seconds < 60 {
        seq![' '] + decimal(seconds) + seq!['s']
    } else {
        seq![' '] + decimal(seconds / 60) + seq!['m', ' '] + decimal(seconds % 60) + seq!['s']
    }
}

/// Tracks when a generation started and, once it stopped, how many whole
/// seconds it took.
pub struct GenerationTimer {
    started_at: Option<Instant>,
    duration_secs: Option<u64>,
}

impl GenerationTimer {
    /// Whether the timer is running.
    pub closed spec fn is_running(&self) -> bool {
        self.started_at is Some
    }

    /// The whole seconds recorded by the last `stop`, if any.
    pub closed spec fn recorded_secs(&self) -> Option<u64> {
        self.duration_secs
    }

    /// A timer that is neither running nor holds a recorded duration.
    pub fn new() -> (timer: Self)
        ensures
            !timer.is_running(),
            timer.recorded_secs() is None,
    {
        GenerationTimer { started_at: None, duration_secs: None }
    }

    /// Formats a whole number of seconds: seconds alone under one minute,
    /// otherwise minutes and seconds.
    pub fn format_elapsed_secs(seconds: u64) -> (text: String)
        ensures
            text@ == elapsed_text(seconds as nat),
    {
        let mut text = String::new();
        proof { reveal_strlit(" "); reveal_strlit("s"); reveal_strlit("m "); }
        text.append(" ");
        if seconds < 60 {
            push_decimal(&mut text, seconds);
        } else {
            push_decimal(&mut text, seconds / 60);
            text.append("m ");
            push_decimal(&mut text, seconds % 60);
        }
        text.append("s");
        text
    }

    /// Formats a duration by its whole seconds, as `format_elapsed_secs` does.
    pub fn format_elapsed_time(elapsed: Duration) -> (text: String)
        ensures
            text@ == elapsed_text(duration_whole_secs(elapsed) as nat),
    {
        let seconds = duration_as_secs(&elapsed);
        Self::format_elapsed_secs(seconds)
    }

    /// Starts (or restarts) the timer and forgets any recorded duration.
    pub fn start(&mut self)
        ensures
            final(self).is_running(),
            final(self).recorded_secs() is None,
    {
        self.started_at = Some(instant_now());
        self.duration_secs = None;
    }

    /// Stops a running timer and records how long it ran; a timer that is not
    /// running is left as it is.
    pub fn stop(&mut self)
        ensures
            !final(self).is_running(),
            old(self).is_running() ==> exists|d: Duration|
                final(self).recorded_secs() == Some(duration_whole_secs(d)),
            !old(self).is_running() ==> final(self).recorded_secs() == old(self).recorded_secs(),
    {
        if let Some(started_at) = self.started_at.take() {
            let elapsed = instant_elapsed(&started_at);
            self.duration_secs = Some(duration_as_secs(&elapsed));
        }
    }

    /// Stops the timer without recording anything.
    pub fn cancel(&mut self)
        ensures
            !final(self).is_running(),
            final(self).recorded_secs() is None,
    {
        self.started_at = None;
        self.duration_secs = None;
    }

    /// The text of the timer's label (drawn small and muted): the recorded
    /// duration if there is one, whatever the clock says, else the time since
    /// the start while running, else nothing.
    pub fn render(&self) -> (text: String)
        ensures
            self.recorded_secs() matches Some(s) ==> text@ == elapsed_text(s as nat),
            self.recorded_secs() is None && self.is_running() ==> exists|d: Duration|
                text@ == elapsed_text(duration_whole_secs(d) as nat),
            self.recorded_secs() is None && !self.is_running() ==> text@ == Seq::<char>::empty(),
    {
        match (&self.duration_secs, &self.started_at) {
            (Some(seconds), _) => Self::format_elapsed_secs(*seconds),
            (None, Some(started_at)) => Self::format_elapsed_time(instant_elapsed(started_at)),
            (None, None) => String::new(),
        }
    }
}

impl Default for GenerationTimer {
    fn default() -> (timer: Self)
        ensures
            !timer.is_running(),
            timer.recorded_secs() is None,
    {
        Self::new()
    }
}

} // verus!
