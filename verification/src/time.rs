//! Wall-clock times, and what is sent of them.
use vstd::prelude::*;

verus! {

/// The first millisecond since the Unix epoch that a calendar date can be given
/// for: the start of the year -262143.
pub const MIN_MILLIS: i64 = -8_334_601_228_800_000;

/// The last such millisecond: the end of the year 262142.
pub const MAX_MILLIS: i64 = 8_210_266_876_799_999;

/// A wall-clock time: whole seconds since the Unix epoch, negative before it,
/// and the nanoseconds that follow.
#[derive(Debug, Clone, Copy, PartialEq, Eq)]
pub struct Timestamp {
    pub secs: i64,
    pub nanos: u32,
}

impl Timestamp {
    /// Nanoseconds since the Unix epoch, negative before it.
    pub open spec fn total_nanos(self) -> int {
        self.secs * 1_000_000_000 + self.nanos
    }
}

/// The number that the low 64 bits of `n` give.
pub open spec fn low_64_bits(n: int) -> int {
    n % 0x1_0000_0000_0000_0000
}

/// The number that 64 bits give in two's complement, where they give `n` without a sign.
pub open spec fn signed_64(n: int) -> int {
    if n < 0x8000_0000_0000_0000 {
        n
    } else {
        n - 0x1_0000_0000_0000_0000
    }
}

/// The milliseconds since the Unix epoch that are sent for a time: none for a
/// time before it, and the low 64 bits, with a sign, of the whole milliseconds
/// after it.
pub open spec fn epoch_millis(time: Timestamp) -> int {
    let nanos = time.total_nanos();
    if nanos < 0 {
        0
    } else {
        signed_64(low_64_bits(nanos / 1_000_000))
    }
}

/// Whether the milliseconds that are sent for a time have a calendar date.
pub open spec fn has_date(time: Timestamp) -> bool {
    MIN_MILLIS <= epoch_millis(time) <= MAX_MILLIS
}

/// The whole milliseconds from `start` to `end`, by their low 64 bits; none if
/// `end` is the earlier one.
pub open spec fn elapsed_millis(start: Timestamp, end: Timestamp) -> Option<int> {
    let nanos = end.total_nanos() - start.total_nanos();
    if nanos < 0 {
        None
    } else {
        Some(low_64_bits(nanos / 1_000_000))
    }
}

impl Timestamp {
    fn nanos_since_epoch(&self) -> (r: i128)
        ensures
            r == self.total_nanos(),
            -0x1_0000_0000_0000_0000_0000_0000 < r < 0x1_0000_0000_0000_0000_0000_0000,
    {
        (self.secs as i128) * 1_000_000_000 + (self.nanos as i128)
    }

    /// Whether the milliseconds that are sent for this time have a calendar date.
    pub fn has_date(&self) -> (r: bool)
        ensures
            r == has_date(*self),
    {
        let millis: i64 = timestamp_from_system_time(*self);
        MIN_MILLIS <= millis && millis <= MAX_MILLIS
    }

    /// The whole milliseconds since `start`, by their low 64 bits; none if this
    /// time is the earlier one.
    pub fn millis_since(&self, start: Timestamp) -> (r: Option<u64>)
        ensures
            r is Some <==> elapsed_millis(start, *self) is Some,
            r is Some ==> r->0 == elapsed_millis(start, *self)->0,
            ({
                let nanos = (self.secs - start.secs) * 1_000_000_000 + self.nanos - start.nanos;
                &&& r is Some <==> nanos >= 0
                &&& 0 <= nanos < 0x1_0000_0000_0000_0000 * 1_000_000 ==> r->0 * 1_000_000 <= nanos
                    < (r->0 + 1) * 1_000_000
            }),
    {
        proof {
            durations_are_whole_milliseconds(start, *self);
        }
        let nanos: i128 = self.nanos_since_epoch() - start.nanos_since_epoch();
        if nanos < 0 {
            None
        } else {
            Some(low_bits((nanos as u128) / 1_000_000))
        }
    }
}

/// The milliseconds since the Unix epoch that are sent for a time.
pub fn timestamp_from_system_time(time: Timestamp) -> (r: i64)
    ensures
        r == epoch_millis(time),
        ({
            let nanos = time.secs * 1_000_000_000 + time.nanos;
            &&& nanos < 0 ==> r == 0
            &&& 0 <= nanos < 0x8000_0000_0000_0000 * 1_000_000 ==> r * 1_000_000 <= nanos < (r + 1)
                * 1_000_000
        }),
{
    proof {
        times_are_whole_milliseconds(time);
    }
    let nanos: i128 = time.nanos_since_epoch();
    if nanos < 0 {
        0
    } else {
        signed(low_bits((nanos as u128) / 1_000_000))
    }
}

fn low_bits(n: u128) -> (r: u64)
    ensures
        r == low_64_bits(n as int),
{
    assert(n as u64 == n % 0x1_0000_0000_0000_0000) by (bit_vector);
    #[verifier::truncate]
    (n as u64)
}

fn signed(n: u64) -> (r: i64)
    ensures
        r == signed_64(n as int),
{
    assert(n < 0x8000_0000_0000_0000 ==> n as i64 == n) by (bit_vector);
    assert(n >= 0x8000_0000_0000_0000 ==> n as i64 == n - 0x1_0000_0000_0000_0000) by (bit_vector);
    #[verifier::truncate]
    (n as i64)
}

/// What is sent for a time is the whole milliseconds from the Unix epoch to it,
/// as far as 64 bits with a sign can hold them, and otherwise differs from them
/// by a multiple of two to the 64. For a time before the epoch it is zero.
pub proof fn times_are_whole_milliseconds(time: Timestamp)
    ensures
        ({
            let nanos = time.secs * 1_000_000_000 + time.nanos;
            let millis = epoch_millis(time);
            &&& -0x8000_0000_0000_0000 <= millis < 0x8000_0000_0000_0000
            &&& nanos < 0 ==> millis == 0
            &&& nanos >= 0 ==> (nanos / 1_000_000 - millis) % 0x1_0000_0000_0000_0000 == 0
            &&& 0 <= nanos < 0x8000_0000_0000_0000 * 1_000_000 ==> millis * 1_000_000 <= nanos < (
            millis + 1) * 1_000_000
        }),
{
}

/// The time from a start to an end is told in whole milliseconds, as far as 64
/// bits can hold them, and otherwise differs from them by a multiple of two to
/// the 64. It is told exactly if the end is not before the start.
pub proof fn durations_are_whole_milliseconds(start: Timestamp, end: Timestamp)
    ensures
        ({
            let nanos = (end.secs - start.secs) * 1_000_000_000 + end.nanos - start.nanos;
            let told = elapsed_millis(start, end);
            &&& told is Some <==> nanos >= 0
            &&& nanos >= 0 ==> 0 <= told->0 < 0x1_0000_0000_0000_0000 && (nanos / 1_000_000
                - told->0) % 0x1_0000_0000_0000_0000 == 0
            &&& 0 <= nanos < 0x1_0000_0000_0000_0000 * 1_000_000 ==> told->0 * 1_000_000 <= nanos
                < (told->0 + 1) * 1_000_000
        }),
{
}

/// A time has a date exactly if what is sent for it lies in the years from
/// -262143 to 262142. So has every time from the epoch to the end of that year,
/// and every time before the epoch, for which the epoch itself is sent.
pub proof fn ordinary_times_have_a_date(time: Timestamp)
    ensures
        has_date(time) <==> -8_334_601_228_800_000 <= epoch_millis(time)
            <= 8_210_266_876_799_999,
        time.secs * 1_000_000_000 + time.nanos < 8_210_266_876_800_000_000_000 ==> has_date(time),
{
}

} // verus!
