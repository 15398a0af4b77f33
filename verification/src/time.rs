//! A monotonic `Instant` whose value is an offset from an arbitrary origin,
//! for targets without a platform clock.

use core::time::Duration;
use vstd::prelude::*;
use vstd::std_specs::ops::{AddSpecImpl, SubSpecImpl};

verus! {

/// The largest number of nanoseconds a `Duration` can hold
/// (`u64::MAX` seconds plus 999 999 999 nanoseconds).
pub open spec fn max_duration_nanos() -> int {
    18_446_744_073_709_551_615int * 1_000_000_000int + 999_999_999int
}

/// The total number of nanoseconds held by a `Duration`: the value that
/// `Duration::as_nanos` returns for it.
pub uninterp spec fn duration_nanos(d: Duration) -> nat;

/// Calls `Duration::checked_sub`. The documentation of `core::time::Duration`
/// states that it computes `a - b` and returns `None` when the result would be
/// negative; a `Duration` spans exactly the nanosecond counts from zero to
/// its maximum, so the difference is exact whenever it exists.
#[verifier::external_body]
fn duration_checked_sub(a: Duration, b: Duration) -> (r: Option<Duration>)
    ensures
        r.is_some() <==> duration_nanos(a) >= duration_nanos(b),
        r matches Some(d) ==> duration_nanos(d) == duration_nanos(a) - duration_nanos(b),
{
    a.checked_sub(b)
}

/// Calls `Duration::saturating_sub`: `a - b`, or zero when `b` is larger.
#[verifier::external_body]
fn duration_saturating_sub(a: Duration, b: Duration) -> (r: Duration)
    ensures
        duration_nanos(r) == if duration_nanos(a) >= duration_nanos(b) {
            duration_nanos(a) - duration_nanos(b)
        } else {
            0
        },
{
    a.saturating_sub(b)
}

/// Calls `Duration::checked_add`: `a + b`, or `None` when the sum does not
/// fit in a `Duration` (the documented overflow case).
#[verifier::external_body]
fn duration_checked_add(a: Duration, b: Duration) -> (r: Option<Duration>)
    ensures
        r.is_some() <==> duration_nanos(a) + duration_nanos(b) <= max_duration_nanos(),
        r matches Some(d) ==> duration_nanos(d) == duration_nanos(a) + duration_nanos(b),
{
    a.checked_add(b)
}

/// Calls `Duration::as_nanos`: the total number of nanoseconds, which for
/// any `Duration` is at most `u64::MAX` seconds and 999 999 999
/// nanoseconds.
#[verifier::external_body]
fn duration_as_nanos(d: Duration) -> (n: u128)
    ensures
        n == duration_nanos(d),
        n <= max_duration_nanos(),
{
    d.as_nanos()
}

/// Fallback implementation of `Instant` for targets without a platform
/// clock: the time elapsed since some arbitrary origin.
#[derive(Copy, Clone, Debug, PartialEq, Eq, PartialOrd, Ord, Hash)]
pub struct Instant(pub Duration);

impl Instant {
    /// Nanoseconds since the origin.
    pub open spec fn nanos(self) -> nat {
        duration_nanos(self.0)
    }

    /// Returns the amount of time elapsed from another instant to this one,
    /// or zero duration if that instant is later than this one.
    pub fn duration_since(&self, earlier: Instant) -> (d: Duration)
        ensures
            duration_nanos(d) == if self.nanos() >= earlier.nanos() {
                self.nanos() - earlier.nanos()
            } else {
                0
            },
    {
        self.saturating_duration_since(earlier)
    }

    /// Returns the amount of time elapsed from another instant to this one,
    /// or `None` if that instant is later than this one.
    pub fn checked_duration_since(&self, earlier: Instant) -> (d: Option<Duration>)
        ensures
            d.is_some() <==> self.nanos() >= earlier.nanos(),
            d matches Some(v) ==> duration_nanos(v) == self.nanos() - earlier.nanos(),
    {
        duration_checked_sub(self.0, earlier.0)
    }

    /// Returns the amount of time elapsed from another instant to this one,
    /// or zero duration if that instant is later than this one.
    pub fn saturating_duration_since(&self, earlier: Instant) -> (d: Duration)
        ensures
            duration_nanos(d) == if self.nanos() >= earlier.nanos() {
                self.nanos() - earlier.nanos()
            } else {
                0
            },
    {
        duration_saturating_sub(self.0, earlier.0)
    }

    /// Returns the amount of time elapsed from this instant until `now`
    /// (zero when `now` is earlier), `now` being the current instant read
    /// by the caller.
    pub fn elapsed(&self, now: Instant) -> (d: Duration)
        ensures
            duration_nanos(d) == if now.nanos() >= self.nanos() {
                now.nanos() - self.nanos()
            } else {
                0
            },
    {
        now.saturating_duration_since(*self)
    }

    /// Returns `Some(t)` where `t` is `self + duration` if it can be
    /// represented, `None` otherwise.
    pub fn checked_add(&self, duration: Duration) -> (t: Option<Instant>)
        ensures
            t.is_some() <==> self.nanos() + duration_nanos(duration) <= max_duration_nanos(),
            t matches Some(v) ==> v.nanos() == self.nanos() + duration_nanos(duration),
    {
        match duration_checked_add(self.0, duration) {
            Some(d) => Some(Instant(d)),
            None => None,
        }
    }

    /// Returns `Some(t)` where `t` is `self - duration` if it can be
    /// represented, `None` otherwise.
    pub fn checked_sub(&self, duration: Duration) -> (t: Option<Instant>)
        ensures
            t.is_some() <==> self.nanos() >= duration_nanos(duration),
            t matches Some(v) ==> v.nanos() == self.nanos() - duration_nanos(duration),
            t matches Some(v) ==> v.nanos() + duration_nanos(duration) <= max_duration_nanos(),
    {
        // Reading the total shows it is within range, so the difference can
        // be added back.
        let _total = duration_as_nanos(self.0);
        match duration_checked_sub(self.0, duration) {
            Some(d) => Some(Instant(d)),
            None => None,
        }
    }
}

impl core::ops::Add<Duration> for Instant {
    type Output = Instant;

    /// `self + other`; the sum must be representable.
    fn add(self, other: Duration) -> (r: Instant)
        ensures
            r.nanos() == self.nanos() + duration_nanos(other),
    {
        match self.checked_add(other) {
            Some(t) => t,
            None => {
                proof {
                    assert(false);
                }
                self
            },
        }
    }
}

impl AddSpecImpl<Duration> for Instant {
    open spec fn obeys_add_spec() -> bool {
        false
    }

    open spec fn add_req(self, rhs: Duration) -> bool {
        self.nanos() + duration_nanos(rhs) <= max_duration_nanos()
    }

    open spec fn add_spec(self, rhs: Duration) -> Instant {
        self
    }
}

impl core::ops::Sub<Duration> for Instant {
    type Output = Instant;

    /// `self - other`; the difference must not be negative.
    fn sub(self, other: Duration) -> (r: Instant)
        ensures
            r.nanos() == self.nanos() - duration_nanos(other),
    {
        match self.checked_sub(other) {
            Some(t) => t,
            None => {
                proof {
                    assert(false);
                }
                self
            },
        }
    }
}

impl SubSpecImpl<Duration> for Instant {
    open spec fn obeys_sub_spec() -> bool {
        false
    }

    open spec fn sub_req(self, rhs: Duration) -> bool {
        self.nanos() >= duration_nanos(rhs)
    }

    open spec fn sub_spec(self, rhs: Duration) -> Instant {
        self
    }
}

impl core::ops::Sub<Instant> for Instant {
    type Output = Duration;

    /// The time elapsed from `other` to `self`, zero when `other` is later.
    fn sub(self, other: Instant) -> (r: Duration)
        ensures
            duration_nanos(r) == if self.nanos() >= other.nanos() {
                self.nanos() - other.nanos()
            } else {
                0
            },
    {
        self.duration_since(other)
    }
}

impl SubSpecImpl<Instant> for Instant {
    open spec fn obeys_sub_spec() -> bool {
        false
    }

    open spec fn sub_req(self, rhs: Instant) -> bool {
        true
    }

    open spec fn sub_spec(self, rhs: Instant) -> Duration {
        self.0
    }
}

impl Instant {
    /// `*self += other`; the sum must be representable.
    pub fn add_assign(&mut self, other: Duration)
        requires
            old(self).nanos() + duration_nanos(other) <= max_duration_nanos(),
        ensures
            final(self).nanos() == old(self).nanos() + duration_nanos(other),
    {
        match self.checked_add(other) {
            Some(t) => *self = t,
            None => {},
        }
    }

    /// `*self -= other`; the difference must not be negative.
    pub fn sub_assign(&mut self, other: Duration)
        requires
            old(self).nanos() >= duration_nanos(other),
        ensures
            final(self).nanos() == old(self).nanos() - duration_nanos(other),
    {
        match self.checked_sub(other) {
            Some(t) => *self = t,
            None => {},
        }
    }
}

/// Adding a duration and subtracting it again gives the instant back, and
/// the elapsed time between the two is that duration.
pub proof fn lemma_add_then_sub(t: Instant, d: Duration, later: Instant)
    requires
        later.nanos() == t.nanos() + duration_nanos(d),
    ensures
        later.nanos() >= duration_nanos(d),
        later.nanos() - duration_nanos(d) == t.nanos(),
        later.nanos() >= t.nanos(),
        later.nanos() - t.nanos() == duration_nanos(d),
{
}

/// `checked_duration_since` succeeds exactly when the earlier instant is
/// not later, and then agrees with `duration_since`.
pub proof fn lemma_checked_matches_saturating(a: Instant, b: Instant, checked: Option<Duration>, saturating: Duration)
    requires
        checked.is_some() <==> a.nanos() >= b.nanos(),
        checked matches Some(v) ==> duration_nanos(v) == a.nanos() - b.nanos(),
        duration_nanos(saturating) == if a.nanos() >= b.nanos() { a.nanos() - b.nanos() } else { 0 },
    ensures
        checked matches Some(v) ==> duration_nanos(v) == duration_nanos(saturating),
        checked is None ==> duration_nanos(saturating) == 0,
{
}

/// Subtracting a duration and adding it back gives the instant back: when
/// `checked_sub` gives `earlier`, `checked_add` of the same duration
/// succeeds on it with the nanoseconds of `t`, and the time from `earlier`
/// to `t` is that duration. `t` is a valid instant: a `Duration` holds at
/// most `max_duration_nanos()` nanoseconds.
pub proof fn lemma_sub_then_add(t: Instant, d: Duration, earlier: Instant)
    requires
        t.nanos() <= max_duration_nanos(),
        t.nanos() >= duration_nanos(d),
        earlier.nanos() == t.nanos() - duration_nanos(d),
    ensures
        earlier.nanos() <= t.nanos(),
        earlier.nanos() + duration_nanos(d) <= max_duration_nanos(),
        earlier.nanos() + duration_nanos(d) == t.nanos(),
        t.nanos() - earlier.nanos() == duration_nanos(d),
{
}

} // verus!
