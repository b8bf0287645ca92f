//! Points on the wall clock's timeline, and the clock itself.

use std::time::Duration;
use std::time::SystemTime;
use vstd::prelude::*;

verus! {

/// An absolute point in time: whole seconds since the Unix epoch plus a number of
/// nanoseconds on top of them.
///
/// The two fields are added up, so the nanoseconds may well exceed a second; two
/// values name the same instant exactly when [`Timestamp::instant`] agrees.
#[derive(Clone, Copy, Debug)]
pub struct Timestamp {
    /// Whole seconds since the Unix epoch.
    pub secs: u64,
    /// Nanoseconds on top of the seconds.
    pub nanos: u32,
}

impl Timestamp {
    /// Nanoseconds since the Unix epoch.
    pub open spec fn instant(&self) -> int {
        self.secs * 1_000_000_000 + self.nanos
    }

    /// The instant `nanos` nanoseconds after `secs` seconds past the Unix epoch.
    pub fn new(secs: u64, nanos: u32) -> (t: Timestamp)
        ensures
            t.secs == secs,
            t.nanos == nanos,
    {
        Timestamp { secs, nanos }
    }

    /// Whether this instant is `limit` or later.
    pub fn has_reached(&self, limit: &Timestamp) -> (r: bool)
        ensures
            r == (self.instant() >= limit.instant()),
    {
        let here: u128 = self.secs as u128 * 1_000_000_000u128 + self.nanos as u128;
        let there: u128 = limit.secs as u128 * 1_000_000_000u128 + limit.nanos as u128;
        here >= there
    }

    /// The instant that a reading of the system clock names. A reading from before
    /// the Unix epoch counts as the epoch itself.
    pub fn from_system_time(reading: &SystemTime) -> (t: Timestamp)
        ensures
            t.nanos < 1_000_000_000,
    {
        match since_unix_epoch(reading) {
            Some(elapsed) => Timestamp { secs: whole_secs(&elapsed), nanos: subsec_nanos(&elapsed) },
            None => Timestamp { secs: 0, nanos: 0 },
        }
    }

    /// What the system clock shows at the moment of the call.
    pub fn now() -> (t: Timestamp)
        ensures
            t.nanos < 1_000_000_000,
    {
        let reading = system_now();
        Timestamp::from_system_time(&reading)
    }
}

#[verifier::external_type_specification]
#[verifier::external_body]
pub struct ExSystemTime(SystemTime);

/// `SystemTime::now`: the clock's reading, of which nothing is known beforehand.
#[verifier::external_body]
fn system_now() -> SystemTime {
    SystemTime::now()
}

/// `SystemTime::duration_since`, measured from `UNIX_EPOCH`: the time elapsed since
/// the epoch, or nothing for a reading that lies before it.
#[verifier::external_body]
fn since_unix_epoch(reading: &SystemTime) -> Option<Duration> {
    match reading.duration_since(SystemTime::UNIX_EPOCH) {
        Ok(elapsed) => Some(elapsed),
        Err(_) => None,
    }
}

/// `Duration::as_secs`: the whole seconds of a duration.
#[verifier::external_body]
fn whole_secs(elapsed: &Duration) -> u64 {
    elapsed.as_secs()
}

/// `Duration::subsec_nanos`: the part of a duration beyond its whole seconds, in
/// nanoseconds, which is less than a second.
#[verifier::external_body]
fn subsec_nanos(elapsed: &Duration) -> (nanos: u32)
    ensures
        nanos < 1_000_000_000,
{
    elapsed.subsec_nanos()
}

} // verus!
