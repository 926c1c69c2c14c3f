//! Day/night classification from the outcome of the hour-angle equation.

use vstd::prelude::*;

use crate::{State, Twilight, TwilightTimes};

verus! {

/// Noon of January 1, 2000 (UTC), the reference epoch of the solar formulas,
/// in milliseconds since the Unix epoch.
pub const UTC_2000: i64 = 946728000000;

/// Milliseconds in one day.
pub const DAY_IN_MILLIS: i64 = 86400000;

/// `x` held to the range of `i64`.
pub open spec fn saturate_i64(x: int) -> int {
    if x > i64::MAX {
        i64::MAX as int
    } else if x < i64::MIN {
        i64::MIN as int
    } else {
        x
    }
}

/// Milliseconds from the reference epoch `UTC_2000` to `time`, exactly.
pub fn millis_since_2000(time: i64) -> (r: i128)
    ensures
        r == time - UTC_2000,
{
    time as i128 - UTC_2000 as i128
}

/// The Unix timestamp of the instant `offset` milliseconds after the
/// reference epoch `UTC_2000`, held to the range of `i64`.
pub fn unix_millis_from_2000(offset: i64) -> (r: i64)
    ensures
        r == saturate_i64(offset + UTC_2000),
{
    if offset > i64::MAX - UTC_2000 {
        i64::MAX
    } else {
        offset + UTC_2000
    }
}

/// What the hour-angle equation gives for one day at one place.
#[derive(Copy, Clone, PartialEq, Eq, Debug, Structural)]
pub enum SunPath {
    /// The cosine of the hour angle is at least 1: the sun stays below the
    /// civil-twilight altitude the whole day (polar night).
    NeverRises,
    /// The cosine of the hour angle is at most -1: the sun stays above the
    /// civil-twilight altitude the whole day (polar day).
    NeverSets,
    /// The equation has a solution: the sun crosses the civil-twilight
    /// altitude at these instants, in milliseconds since the Unix epoch.
    RisesAndSets { sunrise: i64, sunset: i64 },
}

/// The result for the instant `time` on a day whose sun takes `path`.
///
/// It is day strictly between sunrise and sunset, and night at either
/// instant itself.
pub open spec fn twilight_of(time: i64, path: SunPath) -> (State, Option<(i64, i64)>) {
    match path {
        SunPath::NeverRises => (State::Night, None),
        SunPath::NeverSets => (State::Day, None),
        SunPath::RisesAndSets { sunrise, sunset } => (
            if sunrise < time && time < sunset {
                State::Day
            } else {
                State::Night
            },
            Some((sunrise, sunset)),
        ),
    }
}

impl Twilight {
    /// Classifies the instant `time` as day or night, given what the
    /// hour-angle equation gave for that day at that place.
    pub fn classify(time: i64, path: SunPath) -> (r: Twilight)
        ensures
            r@ == twilight_of(time, path),
    {
        match path {
            SunPath::NeverRises => Twilight::from_parts(State::Night, None),
            SunPath::NeverSets => Twilight::from_parts(State::Day, None),
            SunPath::RisesAndSets { sunrise, sunset } => {
                let state = if sunrise < time && sunset > time {
                    State::Day
                } else {
                    State::Night
                };
                Twilight::from_parts(state, Some(TwilightTimes::new(sunrise, sunset)))
            },
        }
    }
}

/// The classification is a function of its inputs: two results for the same
/// instant and the same sun path are the same value, bit for bit.
pub proof fn lemma_classify_deterministic(time: i64, path: SunPath, a: Twilight, b: Twilight)
    requires
        a@ == twilight_of(time, path),
        b@ == twilight_of(time, path),
    ensures
        a == b,
{
    Twilight::lemma_view_injective(a, b);
}

/// Twilight times are present exactly when the hour-angle equation has a
/// solution, and then the state is day exactly when the instant lies strictly
/// between sunrise and sunset.
pub proof fn lemma_times_iff_defined(time: i64, path: SunPath)
    ensures
        twilight_of(time, path).1 is Some <==> path is RisesAndSets,
        path matches SunPath::RisesAndSets { sunrise, sunset } ==> (twilight_of(time, path).0
            == State::Day <==> sunrise < time && time < sunset),
{
}

/// At the instant of sunrise or of sunset itself it is night.
pub proof fn lemma_boundary_is_night(time: i64, path: SunPath)
    requires
        path matches SunPath::RisesAndSets { sunrise, sunset } && (time == sunrise || time
            == sunset),
    ensures
        twilight_of(time, path).0 == State::Night,
{
}

/// Where the sun never rises the result is night without times, and where it
/// never sets it is day without times, whatever the instant.
pub proof fn lemma_polar(time: i64, path: SunPath)
    ensures
        path is NeverRises ==> twilight_of(time, path) == (State::Night, None::<(i64, i64)>),
        path is NeverSets ==> twilight_of(time, path) == (State::Day, None::<(i64, i64)>),
{
}

} // verus!
