//! Civil twilight: whether a moment is day or night at a place, and when
//! the sun rises and sets there on that day.

use vstd::prelude::*;

mod calc;

pub use calc::{
    lemma_boundary_is_night, lemma_classify_deterministic, lemma_polar, lemma_times_iff_defined,
    millis_since_2000, saturate_i64, twilight_of, unix_millis_from_2000, SunPath, DAY_IN_MILLIS,
    UTC_2000,
};

verus! {

/// Whether it is day or night.
#[derive(Copy, Clone, PartialEq, Eq, Hash, Debug, Structural)]
pub enum State {
    /// Daytime.
    Day,
    /// Nighttime.
    Night,
}

/// Sunrise and sunset (civil twilight) of one day, in milliseconds since the
/// Unix epoch.
#[derive(Copy, Clone, PartialEq, Eq, Hash, Debug, Structural)]
pub struct TwilightTimes {
    sunrise: i64,
    sunset: i64,
}

impl View for TwilightTimes {
    /// `(sunrise, sunset)`.
    type V = (i64, i64);

    closed spec fn view(&self) -> (i64, i64) {
        (self.sunrise, self.sunset)
    }
}

impl TwilightTimes {
    /// The pair of instants `sunrise` and `sunset`.
    pub fn new(sunrise: i64, sunset: i64) -> (r: TwilightTimes)
        ensures
            r@ == (sunrise, sunset),
    {
        TwilightTimes { sunrise, sunset }
    }

    /// Sunrise, in milliseconds since the Unix epoch.
    pub fn sunrise_ms(&self) -> (r: i64)
        ensures
            r == self@.0,
    {
        self.sunrise
    }

    /// Sunset, in milliseconds since the Unix epoch.
    pub fn sunset_ms(&self) -> (r: i64)
        ensures
            r == self@.1,
    {
        self.sunset
    }

    /// Two values with the same instants are the same value.
    pub proof fn lemma_view_injective(a: TwilightTimes, b: TwilightTimes)
        requires
            a@ == b@,
        ensures
            a == b,
    {
    }
}

/// Result of a twilight calculation: the state of the day, and the twilight
/// times unless the place is under polar day or polar night.
#[derive(Copy, Clone, PartialEq, Eq, Debug, Structural)]
pub struct Twilight {
    state: State,
    times: Option<TwilightTimes>,
}

impl View for Twilight {
    /// `(state, (sunrise, sunset) if defined)`.
    type V = (State, Option<(i64, i64)>);

    closed spec fn view(&self) -> (State, Option<(i64, i64)>) {
        (
            self.state,
            match self.times {
                Some(t) => Some(t@),
                None => None,
            },
        )
    }
}

impl Twilight {
    /// The result made of `state` and `times`.
    pub(crate) fn from_parts(state: State, times: Option<TwilightTimes>) -> (r: Twilight)
        ensures
            r@.0 == state,
            r@.1 == match times {
                Some(t) => Some(t@),
                None => None::<(i64, i64)>,
            },
    {
        Twilight { state, times }
    }

    /// Whether the given time is day or night at the given place.
    pub fn state(&self) -> (r: State)
        ensures
            r == self@.0,
    {
        self.state
    }

    /// The civil twilight times, unless the place is under polar day or
    /// polar night on the given day.
    pub fn twilight_times(&self) -> (r: Option<TwilightTimes>)
        ensures
            match r {
                Some(t) => self@.1 == Some(t@),
                None => self@.1 is None,
            },
    {
        self.times
    }

    /// Two results with the same view are the same value.
    pub proof fn lemma_view_injective(a: Twilight, b: Twilight)
        requires
            a@ == b@,
        ensures
            a == b,
    {
        match (a.times, b.times) {
            (Some(x), Some(y)) => TwilightTimes::lemma_view_injective(x, y),
            _ => {},
        }
    }
}

/// Milliseconds in one second.
pub const MILLIS_PER_SEC: i64 = 1000;

/// Nanoseconds in one millisecond.
pub const NANOS_PER_MILLI: u32 = 1_000_000;

/// The whole seconds of `ms` milliseconds, rounded towards negative infinity.
pub open spec fn secs_of(ms: int) -> int {
    ms / 1000
}

/// The nanoseconds that `ms` milliseconds hold beyond `secs_of(ms)` seconds.
pub open spec fn nanos_of(ms: int) -> int {
    (ms % 1000) * 1_000_000
}

/// Splits a millisecond timestamp into whole seconds and the nanoseconds left over.
///
/// The split is lossless: `secs * 1000 + nanos / 1_000_000 == ms`, and the
/// nanoseconds always lie in `0 .. 1_000_000_000`, also before the epoch.
pub fn ms_to_s_ns(ms: i64) -> (r: (i64, u32))
    ensures
        r.0 == secs_of(ms as int),
        r.1 == nanos_of(ms as int),
        r.0 * 1000 + r.1 / 1_000_000 == ms,
        r.1 < 1_000_000_000,
        r.1 % 1_000_000 == 0,
{
    let secs = ms.checked_div_euclid(MILLIS_PER_SEC).unwrap();
    let rem = ms.checked_rem_euclid(MILLIS_PER_SEC).unwrap();
    (secs, (rem as u32) * NANOS_PER_MILLI)
}

impl TwilightTimes {
    /// Sunrise as whole seconds and nanoseconds since the Unix epoch, the
    /// form that a time zone takes to give a local date-time.
    pub fn sunrise_time(&self) -> (r: (i64, u32))
        ensures
            r.0 == secs_of(self@.0 as int),
            r.1 == nanos_of(self@.0 as int),
    {
        ms_to_s_ns(self.sunrise)
    }

    /// Sunset as whole seconds and nanoseconds since the Unix epoch, the
    /// form that a time zone takes to give a local date-time.
    pub fn sunset_time(&self) -> (r: (i64, u32))
        ensures
            r.0 == secs_of(self@.1 as int),
            r.1 == nanos_of(self@.1 as int),
    {
        ms_to_s_ns(self.sunset)
    }
}

/// A point in time that the calculation can take.
pub trait Timestamp {
    /// The time as a Unix timestamp, in milliseconds.
    fn as_unix_timestamp_ms(&self) -> i64;
}

/// A plain count of milliseconds since the Unix epoch.
impl Timestamp for i64 {
    fn as_unix_timestamp_ms(&self) -> i64 {
        *self
    }
}

} // verus!
