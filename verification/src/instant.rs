//! Instants in time, as a monotonic timer counts them.

use core::cmp::Ordering;
use core::ops::{Add, Sub};
use core::time::Duration;
use vstd::prelude::*;

verus! {

/// The number of nanoseconds in a duration, as `Duration::as_nanos` gives it.
pub uninterp spec fn nanos_in(duration: Duration) -> u128;

/// The duration of a number of microseconds.
pub uninterp spec fn duration_of_micros(micros: u64) -> Duration;

/// The number of whole microseconds in a duration: what is left of a microsecond is dropped.
pub open spec fn whole_micros(duration: Duration) -> u128 {
    nanos_in(duration) / 1_000
}

/// `Duration::as_micros` returns the number of whole microseconds in the duration, of 1000
/// nanoseconds each.
pub assume_specification[ Duration::as_micros ](duration: &Duration) -> (micros: u128)
    ensures
        micros == nanos_in(*duration) / 1_000,
;

/// `Duration::from_micros` returns the duration of that many microseconds, which has 1000 times
/// as many nanoseconds in it.
pub assume_specification[ Duration::from_micros ](micros: u64) -> (duration: Duration)
    ensures
        duration == duration_of_micros(micros),
        nanos_in(duration) == 1_000 * micros,
;

/// A time instant, from the start of a timer. It has microsecond precision.
#[derive(Clone, Copy, Debug, PartialEq, Eq, Ord, Structural)]
pub struct Instant {
    /// Total count, in microseconds.
    pub count_us: i64,
}

/// The lowest 64 bits of `n`, read as a signed number.
pub open spec fn wrap_i64(n: int) -> int {
    let low = n % 0x1_0000_0000_0000_0000;
    if low < 0x8000_0000_0000_0000 {
        low
    } else {
        low - 0x1_0000_0000_0000_0000
    }
}

/// The lowest 64 bits of `n`, read as an unsigned number.
pub open spec fn wrap_u64(n: int) -> int {
    n % 0x1_0000_0000_0000_0000
}

impl Instant {
    /// The instant `micros` microseconds later, of which the lowest 64 bits count, read as a
    /// signed number.
    pub fn plus_micros(self, micros: u128) -> (later: Instant)
        requires
            i64::MIN <= self.count_us + wrap_i64(micros as int) <= i64::MAX,
        ensures
            later.count_us == self.count_us + wrap_i64(micros as int),
    {
        let step = low_i64(micros);
        Instant { count_us: self.count_us + step }
    }

    /// The instant `micros` microseconds earlier, of which the lowest 64 bits count, read as
    /// a signed number.
    pub fn minus_micros(self, micros: u128) -> (earlier: Instant)
        requires
            i64::MIN <= self.count_us - wrap_i64(micros as int) <= i64::MAX,
        ensures
            earlier.count_us == self.count_us - wrap_i64(micros as int),
    {
        let step = low_i64(micros);
        Instant { count_us: self.count_us - step }
    }

    /// The microseconds from `rhs` to this instant. Where `rhs` is the later one, the
    /// difference is taken modulo 2 to the power of 64.
    pub fn micros_since(self, rhs: Instant) -> (micros: u64)
        requires
            i64::MIN <= self.count_us - rhs.count_us <= i64::MAX,
        ensures
            micros == wrap_u64(self.count_us - rhs.count_us),
            rhs.count_us <= self.count_us ==> micros == self.count_us - rhs.count_us,
    {
        let difference: i64 = self.count_us - rhs.count_us;
        assert(difference as u64 == if difference >= 0 {
            difference as int
        } else {
            difference + 0x1_0000_0000_0000_0000
        }) by (bit_vector);
        #[verifier::truncate]
        let micros = difference as u64;
        micros
    }

    /// The instant `duration` later, or `None` where its count would be out of range.
    pub fn checked_add(self, duration: Duration) -> (later: Option<Instant>)
        ensures
            later is Some <==> i64::MIN <= self.count_us + wrap_i64(whole_micros(duration) as int)
                <= i64::MAX,
            later matches Some(instant) ==> instant.count_us == self.count_us + wrap_i64(
                whole_micros(duration) as int,
            ),
    {
        let step = low_i64(duration.as_micros());
        if self.count_us.checked_add(step).is_some() {
            Some(self + duration)
        } else {
            None
        }
    }

    /// The instant `duration` earlier, or `None` where its count would be out of range.
    pub fn checked_sub(self, duration: Duration) -> (earlier: Option<Instant>)
        ensures
            earlier is Some <==> i64::MIN <= self.count_us - wrap_i64(
                whole_micros(duration) as int,
            ) <= i64::MAX,
            earlier matches Some(instant) ==> instant.count_us == self.count_us - wrap_i64(
                whole_micros(duration) as int,
            ),
    {
        let step = low_i64(duration.as_micros());
        if self.count_us.checked_sub(step).is_some() {
            Some(self - duration)
        } else {
            None
        }
    }
}

fn low_i64(n: u128) -> (low: i64)
    ensures
        low == wrap_i64(n as int),
{
    assert(n as i64 == if n % 0x1_0000_0000_0000_0000u128 < 0x8000_0000_0000_0000u128 {
        (n % 0x1_0000_0000_0000_0000u128) as int
    } else {
        (n % 0x1_0000_0000_0000_0000u128) - 0x1_0000_0000_0000_0000
    }) by (bit_vector);
    #[verifier::truncate]
    let low = n as i64;
    low
}

impl Default for Instant {
    fn default() -> (zero: Self)
        ensures
            zero.count_us == 0,
    {
        Instant { count_us: 0 }
    }
}

/// The order of two instants is that of their counts.
pub open spec fn order_of(a: Instant, b: Instant) -> Ordering {
    if a.count_us < b.count_us {
        Ordering::Less
    } else if a.count_us == b.count_us {
        Ordering::Equal
    } else {
        Ordering::Greater
    }
}

impl PartialOrd for Instant {
    fn partial_cmp(&self, other: &Self) -> (order: Option<Ordering>) {
        if self.count_us < other.count_us {
            Some(Ordering::Less)
        } else if self.count_us == other.count_us {
            Some(Ordering::Equal)
        } else {
            Some(Ordering::Greater)
        }
    }
}

impl vstd::std_specs::cmp::PartialOrdSpecImpl for Instant {
    open spec fn obeys_partial_cmp_spec() -> bool {
        true
    }

    open spec fn partial_cmp_spec(&self, other: &Self) -> Option<Ordering> {
        Some(order_of(*self, *other))
    }
}

impl Add<Duration> for Instant {
    type Output = Self;

    fn add(self, rhs: Duration) -> (later: Self)
        ensures
            later.count_us == self.count_us + wrap_i64(whole_micros(rhs) as int),
    {
        self.plus_micros(rhs.as_micros())
    }
}

impl vstd::std_specs::ops::AddSpecImpl<Duration> for Instant {
    open spec fn obeys_add_spec() -> bool {
        true
    }

    open spec fn add_req(self, rhs: Duration) -> bool {
        i64::MIN <= self.count_us + wrap_i64(whole_micros(rhs) as int) <= i64::MAX
    }

    open spec fn add_spec(self, rhs: Duration) -> Instant {
        Instant { count_us: (self.count_us + wrap_i64(whole_micros(rhs) as int)) as i64 }
    }
}

impl Sub<Duration> for Instant {
    type Output = Self;

    fn sub(self, rhs: Duration) -> (earlier: Self)
        ensures
            earlier.count_us == self.count_us - wrap_i64(whole_micros(rhs) as int),
    {
        self.minus_micros(rhs.as_micros())
    }
}

impl vstd::std_specs::ops::SubSpecImpl<Duration> for Instant {
    open spec fn obeys_sub_spec() -> bool {
        true
    }

    open spec fn sub_req(self, rhs: Duration) -> bool {
        i64::MIN <= self.count_us - wrap_i64(whole_micros(rhs) as int) <= i64::MAX
    }

    open spec fn sub_spec(self, rhs: Duration) -> Instant {
        Instant { count_us: (self.count_us - wrap_i64(whole_micros(rhs) as int)) as i64 }
    }
}

impl Sub<Instant> for Instant {
    type Output = Duration;

    fn sub(self, rhs: Instant) -> (elapsed: Duration)
        ensures
            nanos_in(elapsed) == 1_000 * wrap_u64(self.count_us - rhs.count_us),
            rhs.count_us + wrap_i64(whole_micros(elapsed) as int) == self.count_us,
    {
        Duration::from_micros(self.micros_since(rhs))
    }
}

impl vstd::std_specs::ops::SubSpecImpl<Instant> for Instant {
    open spec fn obeys_sub_spec() -> bool {
        true
    }

    open spec fn sub_req(self, rhs: Instant) -> bool {
        i64::MIN <= self.count_us - rhs.count_us <= i64::MAX
    }

    open spec fn sub_spec(self, rhs: Instant) -> Duration {
        duration_of_micros(wrap_u64(self.count_us - rhs.count_us) as u64)
    }
}

} // verus!
