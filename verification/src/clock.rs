//! Points in time, the clocks that give them and the timestamps that payloads carry.
use vstd::prelude::*;

verus! {

pub const MILLIS_PER_SECOND: u64 = 1_000;

pub const NANOS_PER_MILLI: u32 = 1_000_000;

pub const NANOS_PER_SECOND: u32 = 1_000_000_000;

/// A point in coordinated universal time: seconds since the Unix epoch, and nanoseconds
/// within that second.
#[derive(Clone, Copy, Debug, PartialEq, Eq, Structural)]
pub struct UtcTime {
    pub secs: i64,
    pub nanos: u32,
}

impl UtcTime {
    /// The nanoseconds make up less than a second: the point is not within a leap second.
    pub open spec fn outside_leap_second(self) -> bool {
        self.nanos < NANOS_PER_SECOND
    }

    pub open spec fn spec_is_after(self, other: UtcTime) -> bool {
        self.secs > other.secs || (self.secs == other.secs && self.nanos > other.nanos)
    }

    /// Whether this point lies strictly after `other`.
    pub fn is_after(self, other: UtcTime) -> (after: bool)
        ensures
            after == self.spec_is_after(other),
    {
        self.secs > other.secs || (self.secs == other.secs && self.nanos > other.nanos)
    }
}

/// What a timestamp in a payload says: the point in time, and the same point in whole
/// milliseconds since the Unix epoch.
#[derive(Clone, Copy, Debug, PartialEq, Eq, Structural)]
pub struct Timestamp {
    pub utc: UtcTime,
    pub millis: i64,
}

/// The readings of both clocks that decisions depend on.
#[derive(Clone, Copy, Debug, PartialEq, Eq, Structural)]
pub struct Now {
    pub utc: UtcTime,
    pub unix_millis: u64,
}

/// What `chrono::DateTime::parse_from_rfc3339` reads in a text: `None` where it refuses it.
pub uninterp spec fn rfc3339_timestamp(text: Seq<char>) -> Option<Timestamp>;

/// Calls `chrono::DateTime::parse_from_rfc3339` and takes the parsed time apart with
/// `timestamp`, `timestamp_subsec_nanos` and `timestamp_millis`. The result is a function of
/// the text alone. Which texts are accepted, and what time each one stands for, is not stated.
#[verifier::external_body]
pub(crate) fn parse_rfc3339(text: &str) -> (parsed: Option<Timestamp>)
    ensures
        parsed == rfc3339_timestamp(text@),
{
    match chrono::DateTime::parse_from_rfc3339(text) {
        Ok(time) => {
            let utc = UtcTime { secs: time.timestamp(), nanos: time.timestamp_subsec_nanos() };
            Some(Timestamp { utc, millis: time.timestamp_millis() })
        },
        Err(_) => None,
    }
}

/// Calls `chrono::Utc::now`, which wants the clock of the machine to stand after the Unix epoch:
/// it is called only after a look at that clock. A clock that counts from the epoch gives no leap seconds: the nanoseconds of every reading
/// make up less than a second. Which point in time is read is not stated.
#[verifier::external_body]
fn utc_now() -> (now: UtcTime)
    ensures
        now.outside_leap_second(),
{
    let now = chrono::Utc::now();
    UtcTime { secs: now.timestamp(), nanos: now.timestamp_subsec_nanos() }
}

/// Calls `std::time::SystemTime::elapsed` on the Unix epoch: the whole seconds since then and
/// the nanoseconds of the next one, or `None` where the clock stands before the epoch. Nothing
/// is promised of the reading.
#[verifier::external_body]
fn since_unix_epoch() -> (elapsed: Option<(u64, u32)>) {
    match std::time::UNIX_EPOCH.elapsed() {
        Ok(elapsed) => Some((elapsed.as_secs(), elapsed.subsec_nanos())),
        Err(_) => None,
    }
}

/// The whole milliseconds of an elapsed time.
pub open spec fn spec_elapsed_millis(elapsed: Option<(u64, u32)>) -> int {
    match elapsed {
        Some((secs, nanos)) => secs * MILLIS_PER_SECOND + nanos / NANOS_PER_MILLI,
        None => 0,
    }
}

/// An elapsed time in whole milliseconds: none where the clock stands before the epoch, and
/// the largest value where the count does not fit.
pub fn elapsed_millis(elapsed: Option<(u64, u32)>) -> (millis: u64)
    ensures
        millis == if spec_elapsed_millis(elapsed) <= u64::MAX {
            spec_elapsed_millis(elapsed)
        } else {
            u64::MAX as int
        },
{
    match elapsed {
        Some((secs, nanos)) => {
            let part: u64 = (nanos / NANOS_PER_MILLI) as u64;
            match secs.checked_mul(MILLIS_PER_SECOND) {
                Some(whole) => whole.saturating_add(part),
                None => u64::MAX,
            }
        },
        None => 0,
    }
}

impl UtcTime {
    /// Reads the clock. Any point outside leap seconds is possible. A clock that stands before
    /// the Unix epoch is taken to stand at it.
    pub(crate) fn read() -> (now: UtcTime)
        ensures
            now.outside_leap_second(),
    {
        match since_unix_epoch() {
            Some(_) => utc_now(),
            None => UtcTime { secs: 0, nanos: 0 },
        }
    }
}

/// Reads the clock in milliseconds since the Unix epoch. Every count is possible: each one is
/// the `elapsed_millis` of some time since the epoch.
pub(crate) fn read_unix_millis() -> (now_millis: u64) {
    elapsed_millis(since_unix_epoch())
}

impl Now {
    /// Reads both clocks. Any count of milliseconds, and any point outside leap seconds, is
    /// possible; the two are read one after the other and need not agree.
    pub fn read() -> (now: Now)
        ensures
            now.utc.outside_leap_second(),
    {
        Now { utc: UtcTime::read(), unix_millis: read_unix_millis() }
    }
}

} // verus!
