//! Time related primitives and functions.

use core::marker::PhantomData;
use vstd::prelude::*;

verus! {

/// The number of nanoseconds per millisecond.
pub const NSEC_PER_MSEC: i64 = 1_000_000;

/// A point or a span of time in nanoseconds, as the kernel's `ktime_t`.
#[derive(Copy, Clone)]
pub struct Ktime {
    inner: i64,
}

/// `ns` nanoseconds in whole milliseconds, rounded towards zero.
pub open spec fn spec_ns_to_ms(ns: int) -> int {
    if ns >= 0 {
        ns / 1_000_000
    } else {
        -((-ns) / 1_000_000)
    }
}

impl Ktime {
    /// The number of nanoseconds.
    pub closed spec fn spec_ns(self) -> i64 {
        self.inner
    }

    /// Create a `Ktime` from a raw `ktime_t`.
    pub fn from_raw(inner: i64) -> (r: Self)
        ensures
            r.spec_ns() == inner,
    {
        Self { inner }
    }

    /// Divide the number of nanoseconds by a constant, rounding towards
    /// zero.
    fn divns_constant<const DIV: u32>(self) -> (r: i64)
        requires
            DIV > 0,
        ensures
            r == (if self.spec_ns() >= 0 {
                (self.spec_ns() as int) / (DIV as int)
            } else {
                -((-(self.spec_ns() as int)) / (DIV as int))
            }),
    {
        let div: i64 = DIV as i64;
        if self.inner >= 0 {
            self.inner / div
        } else if self.inner == i64::MIN {
            // The magnitude does not fit: split off one divisor first.
            let rest: i64 = -(self.inner + div);
            proof {
                vstd::arithmetic::div_mod::lemma_div_plus_one(rest as int, div as int);
            }
            -(rest / div) - 1
        } else {
            -((-self.inner) / div)
        }
    }

    /// Returns the number of nanoseconds.
    pub fn to_ns(self) -> (r: i64)
        ensures
            r == self.spec_ns(),
    {
        self.inner
    }

    /// Returns the number of milliseconds, rounded towards zero.
    pub fn to_ms(self) -> (r: i64)
        ensures
            r == spec_ns_to_ms(self.spec_ns() as int),
    {
        self.divns_constant::<1_000_000>()
    }

    /// Returns the difference of two times.
    pub fn sub(self, other: Ktime) -> (r: Ktime)
        requires
            i64::MIN <= self.spec_ns() - other.spec_ns() <= i64::MAX,
        ensures
            r.spec_ns() == self.spec_ns() - other.spec_ns(),
    {
        Self { inner: self.inner - other.inner }
    }
}

/// Returns the number of milliseconds between two ktimes.
pub fn ktime_ms_delta(later: Ktime, earlier: Ktime) -> (r: i64)
    requires
        i64::MIN <= later.spec_ns() - earlier.spec_ns() <= i64::MAX,
    ensures
        r == spec_ns_to_ms(later.spec_ns() - earlier.spec_ns()),
{
    later.sub(earlier).to_ms()
}

/// Represents a clock, that is, a unique time source.
pub trait Clock: Sized {
}

/// A time source that can be queried for the current time.
pub trait Now: Clock {
    /// Returns the current time for this clock.
    fn now() -> Instant<Self>;
}

/// Marker trait for clock sources that are guaranteed to be monotonic.
pub trait Monotonic {
}

/// Marker trait for clock sources that represent a calendar (wall clock)
/// relative to the UNIX epoch.
pub trait WallTime {
}

/// The time in nanoseconds from the reading `since` of a clock to the
/// reading `now` of the same clock; zero if the clock went backwards.
pub open spec fn spec_elapsed(since: i64, now: i64) -> int {
    if now < since {
        0
    } else {
        now - since
    }
}

/// An instant in time associated with a given clock source.
pub struct Instant<T: Clock> {
    nanoseconds: i64,
    _type: PhantomData<T>,
}

impl<T: Clock> Clone for Instant<T> {
    fn clone(&self) -> (r: Self)
        ensures
            r.spec_nanoseconds() == self.spec_nanoseconds(),
    {
        Instant { nanoseconds: self.nanoseconds, _type: PhantomData }
    }
}

impl<T: Clock> Copy for Instant<T> {

}

impl<T: Clock> Instant<T> {
    /// The reading of the clock at this instant, in nanoseconds.
    pub closed spec fn spec_nanoseconds(&self) -> i64 {
        self.nanoseconds
    }

    /// Creates the instant at which the clock read `nanoseconds`.
    pub fn new(nanoseconds: i64) -> (r: Self)
        ensures
            r.spec_nanoseconds() == nanoseconds,
    {
        Instant { nanoseconds, _type: PhantomData }
    }

    /// Returns the time elapsed since an earlier instant in nanoseconds, or
    /// `None` if the argument is a later instant.
    pub fn since(&self, earlier: Instant<T>) -> (r: Option<u64>)
        ensures
            r == (if earlier.spec_nanoseconds() > self.spec_nanoseconds() {
                None
            } else {
                Some((self.spec_nanoseconds() - earlier.spec_nanoseconds()) as u64)
            }),
    {
        if earlier.nanoseconds > self.nanoseconds {
            None
        } else if earlier.nanoseconds >= 0 {
            Some((self.nanoseconds - earlier.nanoseconds) as u64)
        } else if self.nanoseconds < 0 {
            Some((self.nanoseconds - earlier.nanoseconds) as u64)
        } else {
            // The difference may not fit a signed integer: add the two
            // magnitudes as unsigned integers.
            let before_zero: u64 = if earlier.nanoseconds == i64::MIN {
                0x8000_0000_0000_0000
            } else {
                (-earlier.nanoseconds) as u64
            };
            Some(self.nanoseconds as u64 + before_zero)
        }
    }

    /// Returns the time in nanoseconds between this instant and the instant
    /// `now` read later from the same clock; zero if the clock went
    /// backwards.
    pub fn elapsed_at(&self, now: Instant<T>) -> (r: u64)
        ensures
            r == spec_elapsed(self.spec_nanoseconds(), now.spec_nanoseconds()),
    {
        match now.since(*self) {
            Some(d) => d,
            None => 0,
        }
    }
}

impl<T: Clock + Now + Monotonic> Instant<T> {
    /// Returns the time elapsed since this instant in nanoseconds.
    ///
    /// The clock is read once, and the result is the time from this instant
    /// to that reading, see `elapsed_at`: zero if the clock, against its
    /// promise, went backwards. Which reading it is the clock decides.
    pub fn elapsed(&self) -> (r: u64)
        ensures
            exists|now: i64| r == #[trigger] spec_elapsed(self.spec_nanoseconds(), now),
    {
        let now = T::now();
        let r = self.elapsed_at(now);
        assert(r == spec_elapsed(self.spec_nanoseconds(), now.spec_nanoseconds()));
        r
    }
}

/// A clock representing the default kernel time source.
///
/// This is like `BootTime`, but does not include time spent sleeping.
pub struct KernelTime;

impl Clock for KernelTime {

}

impl Monotonic for KernelTime {

}

/// A clock representing the time elapsed since boot, including time spent
/// sleeping.
pub struct BootTime;

impl Clock for BootTime {

}

impl Monotonic for BootTime {

}

/// A clock representing TAI time.
///
/// This clock is not monotonic and can be changed from userspace.
/// However, it is not affected by leap seconds.
pub struct TaiTime;

impl Clock for TaiTime {

}

impl WallTime for TaiTime {

}

/// A clock representing wall clock time.
///
/// This clock is not monotonic and can be changed from userspace.
pub struct RealTime;

impl Clock for RealTime {

}

impl WallTime for RealTime {

}

} // verus!
