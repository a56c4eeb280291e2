//! Plain values of the kernel structures that the tests hand to system calls,
//! with the arithmetic that the tests do on them.

use vstd::prelude::*;

verus! {

/// Nanoseconds in one second.
pub const NANOS_PER_SEC: u64 = 1_000_000_000;

/// `struct timespec`: seconds and nanoseconds.
pub struct Timespec {
    pub tv_sec: i64,
    pub tv_nsec: i64,
}

/// `struct iovec`: a buffer address and its length.
pub struct Iovec {
    pub iov_base: u64,
    pub iov_len: u64,
}

/// `struct pollfd`: a descriptor, the events asked for, the events returned.
#[derive(Clone, Copy)]
pub struct Pollfd {
    pub fd: i32,
    pub events: i16,
    pub revents: i16,
}

/// The nanosecond count the suite computes from a time value: both fields
/// taken as unsigned 64-bit values, seconds scaled by 10^9.
pub open spec fn nanos_of(sec: i64, nsec: i64) -> int {
    (sec as u64) as int * 1_000_000_000 + (nsec as u64) as int
}

/// The value is a time of day or a duration in canonical form: nanoseconds in
/// `[0, 10^9)`, seconds not negative.
pub open spec fn canonical(sec: i64, nsec: i64) -> bool {
    sec >= 0 && 0 <= nsec < 1_000_000_000
}

impl Timespec {
    /// Total nanoseconds, `tv_sec * 10^9 + tv_nsec` over the unsigned views of
    /// the fields.
    pub fn nanos(&self) -> (r: u64)
        requires
            nanos_of(self.tv_sec, self.tv_nsec) <= u64::MAX,
        ensures
            r == nanos_of(self.tv_sec, self.tv_nsec),
            canonical(self.tv_sec, self.tv_nsec) ==> r == self.tv_sec * 1_000_000_000
                + self.tv_nsec,
    {
        let s = self.tv_sec as u64;
        let n = self.tv_nsec as u64;
        assert(s as int * 1_000_000_000 <= u64::MAX) by (nonlinear_arith)
            requires
                s as int * 1_000_000_000 + n as int <= u64::MAX,
                n >= 0,
        ;
        s * NANOS_PER_SEC + n
    }

    /// The nanosecond field lies in `[0, 10^9)`.
    pub fn nsec_in_range(&self) -> (r: bool)
        ensures
            r == (0 <= self.tv_nsec < 1_000_000_000),
    {
        self.tv_nsec >= 0 && self.tv_nsec < 1_000_000_000
    }
}

/// Nanoseconds from `start` to `end`, 0 when `end` is not later.
pub fn elapsed_nanos(start: &Timespec, end: &Timespec) -> (r: u64)
    requires
        nanos_of(start.tv_sec, start.tv_nsec) <= u64::MAX,
        nanos_of(end.tv_sec, end.tv_nsec) <= u64::MAX,
    ensures
        r == (if nanos_of(end.tv_sec, end.tv_nsec) > nanos_of(start.tv_sec, start.tv_nsec) {
            nanos_of(end.tv_sec, end.tv_nsec) - nanos_of(start.tv_sec, start.tv_nsec)
        } else {
            0
        }),
{
    let a = start.nanos();
    let b = end.nanos();
    b.saturating_sub(a)
}

impl Pollfd {
    /// Some of the events in `mask` were returned.
    pub fn has_events(&self, mask: i16) -> (r: bool)
        ensures
            r == (self.revents & mask != 0),
    {
        (self.revents & mask) != 0
    }
}

/// Law: a time value's nanosecond count grows by 10^9 per second and by one
/// per nanosecond, and is 0 for the zero time: for canonical values it is
/// `sec * 10^9 + nsec`.
pub proof fn lemma_nanos_steps(sec: i64, nsec: i64)
    requires
        0 <= sec < i64::MAX,
        0 <= nsec < i64::MAX,
    ensures
        nanos_of(0, 0) == 0,
        nanos_of((sec + 1) as i64, nsec) == nanos_of(sec, nsec) + 1_000_000_000,
        nanos_of(sec, (nsec + 1) as i64) == nanos_of(sec, nsec) + 1,
        nanos_of(sec, nsec) == sec * 1_000_000_000 + nsec,
{
}

/// Law: canonical time values are exactly those with non-negative seconds
/// and nanoseconds below one second.
pub proof fn lemma_canonical_range(sec: i64, nsec: i64)
    ensures
        canonical(sec, nsec) <==> (0 <= sec && 0 <= nsec && nsec <= 999_999_999),
{
}

} // verus!
