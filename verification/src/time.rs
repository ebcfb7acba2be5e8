//! Points in time and lengths of time.

use chrono::Utc;
use std::time::Instant;
use vstd::prelude::*;

verus! {

/// The number of nanoseconds in a second.
pub const NANOS_PER_SEC: u32 = 1_000_000_000;

/// A point in time: whole seconds since the Unix epoch, and the nanoseconds since the
/// last whole second.
#[derive(Clone, Copy, Debug, PartialEq, Eq, Structural)]
pub struct Timestamp {
    pub secs: i64,
    pub nanos: u32,
}

/// Calls `chrono::Utc::now` and takes the reading apart with `timestamp` and
/// `timestamp_subsec_nanos`. Of the reading it claims only that the nanoseconds stay
/// below a second, as they do in `Utc::now`, which never lands in a leap second; the
/// rest depends on the moment of the call. `Utc::now` panics where the system clock is
/// set before the Unix epoch.
#[verifier::external_body]
pub(crate) fn read_utc_clock() -> (now: Timestamp)
    ensures
        now.nanos < NANOS_PER_SEC,
{
    let now = Utc::now();
    Timestamp { secs: now.timestamp(), nanos: now.timestamp_subsec_nanos() }
}

/// Whether `now` is something that the UTC clock may show.
pub closed spec fn utc_reading(now: Timestamp) -> bool {
    call_ensures(read_utc_clock, (), now)
}

/// The current time of day and date, in UTC.
pub fn utc_now() -> (now: Timestamp)
    ensures
        utc_reading(now),
        now.nanos < NANOS_PER_SEC,
{
    read_utc_clock()
}

/// Whatever the UTC clock shows, the nanoseconds do not make up a second.
pub proof fn utc_readings_stay_below_a_second(now: Timestamp)
    requires
        utc_reading(now),
    ensures
        now.nanos < NANOS_PER_SEC,
{
}

/// A length of time, to the nanosecond. It is viewed as its number of nanoseconds.
#[derive(Clone, Copy, Debug, PartialEq, Eq, Structural)]
pub struct Duration {
    secs: u64,
    nanos: u32,
}

/// The number of nanoseconds in `secs` seconds and `nanos` nanoseconds.
pub open spec fn nanos_in(secs: u64, nanos: u32) -> nat {
    (secs * NANOS_PER_SEC + nanos) as nat
}

impl View for Duration {
    type V = nat;

    closed spec fn view(&self) -> nat {
        nanos_in(self.secs, self.nanos)
    }
}

impl Duration {
    /// The nanoseconds beside the whole seconds do not make up a second.
    #[verifier::type_invariant]
    spec fn well_formed(&self) -> bool {
        self.nanos < NANOS_PER_SEC
    }

    /// The longest length of time, in nanoseconds.
    pub open spec fn max_nanos() -> nat {
        nanos_in(u64::MAX, (NANOS_PER_SEC - 1) as u32)
    }

    /// The given number of seconds and nanoseconds.
    pub fn new(secs: u64, nanos: u32) -> (duration: Duration)
        requires
            nanos_in(secs, nanos) <= Duration::max_nanos(),
        ensures
            duration@ == nanos_in(secs, nanos),
    {
        Duration { secs: secs + (nanos / NANOS_PER_SEC) as u64, nanos: nanos % NANOS_PER_SEC }
    }

    /// The given number of seconds.
    pub fn from_secs(secs: u64) -> (duration: Duration)
        ensures
            duration@ == nanos_in(secs, 0),
    {
        Duration { secs, nanos: 0 }
    }

    /// The whole seconds, and the nanoseconds beside them.
    pub fn parts(self) -> (parts: (u64, u32))
        ensures
            parts.1 < NANOS_PER_SEC,
            self@ == nanos_in(parts.0, parts.1),
    {
        proof {
            use_type_invariant(&self);
        }
        (self.secs, self.nanos)
    }

    /// The two lengths of time together, unless that is too long to hold.
    pub fn checked_plus(self, other: Duration) -> (sum: Option<Duration>)
        ensures
            match sum {
                Some(sum) => sum@ == self@ + other@ && sum@ <= Duration::max_nanos(),
                None => self@ + other@ > Duration::max_nanos(),
            },
    {
        proof {
            use_type_invariant(&self);
            use_type_invariant(&other);
        }
        let nanos: u32 = self.nanos + other.nanos;
        let (carry, nanos): (u64, u32) = if nanos < NANOS_PER_SEC {
            (0, nanos)
        } else {
            (1, nanos - NANOS_PER_SEC)
        };
        match self.secs.checked_add(other.secs) {
            Some(secs) => match secs.checked_add(carry) {
                Some(secs) => Some(Duration { secs, nanos }),
                None => None,
            },
            None => None,
        }
    }

    /// Whether this length of time is longer than `other`.
    pub fn exceeds(self, other: Duration) -> (longer: bool)
        ensures
            longer == (self@ > other@),
    {
        proof {
            use_type_invariant(&self);
            use_type_invariant(&other);
        }
        self.secs > other.secs || self.secs == other.secs && self.nanos > other.nanos
    }
}

/// Calls `Instant::elapsed` and takes the length of time apart with `as_secs` and
/// `subsec_nanos`. It claims only that the nanoseconds stay below a second; the rest
/// depends on the moment of the call.
#[verifier::external_body]
pub(crate) fn read_elapsed(since: &Instant) -> (elapsed: (u64, u32))
    ensures
        elapsed.1 < NANOS_PER_SEC,
{
    let elapsed = since.elapsed();
    (elapsed.as_secs(), elapsed.subsec_nanos())
}

/// Whether `secs` seconds and `nanos` nanoseconds is something that the monotonic clock may
/// show as the time since `since`.
pub closed spec fn clock_shows(since: Instant, secs: u64, nanos: u32) -> bool {
    call_ensures(read_elapsed, (&since,), (secs, nanos))
}

/// Whether `elapsed` is something that the monotonic clock may show as the time since
/// `since`.
pub closed spec fn elapsed_reading(since: Instant, elapsed: Duration) -> bool {
    exists|reading: (u64, u32)|
        {
            &&& #[trigger] call_ensures(read_elapsed, (&since,), reading)
            &&& elapsed@ == nanos_in(reading.0, reading.1)
        }
}

/// The time that has passed since `since`.
pub fn elapsed_since(since: &Instant) -> (elapsed: Duration)
    ensures
        elapsed_reading(*since, elapsed),
        exists|secs: u64, nanos: u32|
            {
                &&& #[trigger] clock_shows(*since, secs, nanos)
                &&& nanos < 1_000_000_000
                &&& elapsed@ == secs * 1_000_000_000 + nanos
            },
{
    let (secs, nanos): (u64, u32) = read_elapsed(since);
    assert(clock_shows(*since, secs, nanos));
    Duration::new(secs, nanos)
}

/// The current time is the whole of what the UTC clock was read as.
pub(crate) proof fn utc_now_is_what_was_read(now: Timestamp)
    requires
        call_ensures(utc_now, (), now) || utc_reading(now),
    ensures
        call_ensures(read_utc_clock, (), now),
{
}

/// What the monotonic clock shows is the whole of what it was read as.
pub(crate) proof fn clock_shows_what_was_read(since: Instant, secs: u64, nanos: u32)
    ensures
        clock_shows(since, secs, nanos) <==> call_ensures(read_elapsed, (&since,), (secs, nanos)),
{
}

/// The time that has passed is the whole of what the monotonic clock was read as: the whole
/// seconds as well as the nanoseconds beside them.
pub(crate) proof fn elapsed_time_is_what_was_read(since: Instant, elapsed: Duration)
    requires
        call_ensures(elapsed_since, (&since,), elapsed) || elapsed_reading(since, elapsed),
    ensures
        exists|reading: (u64, u32)|
            {
                &&& #[trigger] call_ensures(read_elapsed, (&since,), reading)
                &&& reading.1 < 1_000_000_000
                &&& elapsed@ == reading.0 * 1_000_000_000 + reading.1
            },
{
    if call_ensures(elapsed_since, (&since,), elapsed) {
        let (secs, nanos) = choose|secs: u64, nanos: u32|
            {
                &&& #[trigger] clock_shows(since, secs, nanos)
                &&& nanos < 1_000_000_000
                &&& elapsed@ == secs * 1_000_000_000 + nanos
            };
        assert(call_ensures(read_elapsed, (&since,), (secs, nanos)));
    }
}

/// The time that has passed is the whole of what the monotonic clock shows.
pub proof fn elapsed_time_is_the_whole_reading(since: Instant, elapsed: Duration)
    requires
        call_ensures(elapsed_since, (&since,), elapsed),
    ensures
        exists|secs: u64, nanos: u32|
            {
                &&& #[trigger] clock_shows(since, secs, nanos)
                &&& nanos < 1_000_000_000
                &&& elapsed@ == secs * 1_000_000_000 + nanos
            },
{
}

/// A length of time is viewed as the number of nanoseconds that its parts make up together,
/// and the nanoseconds among them do not make up a second.
pub proof fn a_length_is_all_its_nanoseconds(duration: Duration, parts: (u64, u32))
    requires
        call_ensures(Duration::parts, (duration,), parts),
    ensures
        duration@ == parts.0 * 1_000_000_000 + parts.1,
        parts.1 < 1_000_000_000,
{
}

/// A length of time gives back what it was made of, with as many whole seconds as there
/// are.
pub proof fn a_length_reads_back(secs: u64, nanos: u32, duration: Duration, parts: (u64, u32))
    requires
        call_ensures(Duration::new, (secs, nanos), duration),
        call_ensures(Duration::parts, (duration,), parts),
    ensures
        parts.0 == secs + nanos / 1_000_000_000,
        parts.1 == nanos % 1_000_000_000,
{
}

/// A number of seconds gives back that number, with nothing beside it.
pub proof fn whole_seconds_read_back(secs: u64, duration: Duration, parts: (u64, u32))
    requires
        call_ensures(Duration::from_secs, (secs,), duration),
        call_ensures(Duration::parts, (duration,), parts),
    ensures
        parts == (secs, 0u32),
{
}

/// Seconds and nanoseconds make a length of time unless they are too much to hold, however
/// many nanoseconds there are.
pub proof fn lengths_that_fit_can_be_made(secs: u64, nanos: u32)
    requires
        secs + nanos / 1_000_000_000 <= u64::MAX,
    ensures
        call_requires(Duration::new, (secs, nanos)),
{
}

/// Two lengths of time add up, part by part with a carry, and are refused if and only if
/// the whole seconds of their sum are too many to hold.
pub proof fn lengths_add_up(
    first: Duration,
    second: Duration,
    sum: Option<Duration>,
    first_parts: (u64, u32),
    second_parts: (u64, u32),
)
    requires
        call_ensures(Duration::checked_plus, (first, second), sum),
        call_ensures(Duration::parts, (first,), first_parts),
        call_ensures(Duration::parts, (second,), second_parts),
    ensures
        ({
            let nanos = first_parts.1 + second_parts.1;
            let secs = first_parts.0 + second_parts.0 + nanos / 1_000_000_000;
            &&& sum is None <==> secs > u64::MAX
            &&& forall|parts: (u64, u32)|
                sum is Some && #[trigger] call_ensures(Duration::parts, (sum->Some_0,), parts)
                    ==> parts.0 == secs && parts.1 == nanos % 1_000_000_000
        }),
{
}

/// The longer of two lengths of time has more whole seconds, or as many and more
/// nanoseconds beside them.
pub proof fn lengths_compare_by_their_parts(
    first: Duration,
    second: Duration,
    longer: bool,
    first_parts: (u64, u32),
    second_parts: (u64, u32),
)
    requires
        call_ensures(Duration::exceeds, (first, second), longer),
        call_ensures(Duration::parts, (first,), first_parts),
        call_ensures(Duration::parts, (second,), second_parts),
    ensures
        longer <==> {
            ||| first_parts.0 > second_parts.0
            ||| first_parts.0 == second_parts.0 && first_parts.1 > second_parts.1
        },
{
}

} // verus!
