//! The calendar side of the sun's position: the Julian day of a date, the place
//! of the observer, and the questions that are put to an ephemeris.
use chrono::Datelike;
use chrono::NaiveDate;
use vstd::prelude::*;

verus! {

/// chrono's `NaiveDate`, a day of the calendar. Nothing inside it is seen
/// here: its year, month and day are asked of chrono.
#[verifier::external_type_specification]
#[verifier::external_body]
pub struct ExNaiveDate(NaiveDate);

/// Latitude and longitude in millionths of a degree, north and east positive,
/// and the altitude in millimetres.
#[derive(Clone, Copy, Debug, PartialEq, Eq)]
pub struct Coordinates(pub i32, pub i32, pub i32);

impl Coordinates {
    /// A place; its altitude is 0 where none is given.
    pub fn new(latitude: i32, longitude: i32, altitude: Option<i32>) -> (coords: Coordinates)
        ensures
            coords.0 == latitude,
            coords.1 == longitude,
            coords.2 == match altitude {
                Some(millimetres) => millimetres,
                None => 0,
            },
    {
        let millimetres: i32 = match altitude {
            Some(given) => given,
            None => 0,
        };
        Coordinates(latitude, longitude, millimetres)
    }
}

/// What the sun is asked to reach.
#[derive(Clone, Copy, Debug, PartialEq, Eq)]
pub enum SunTarget {
    /// The meridian: solar noon.
    Noon,
    /// This angle below the horizon, in millionths of a degree.
    Depression(i32),
    /// The horizon as an observer sees it who stands this many millimetres
    /// above the ground: the angle of sunrise and sunset.
    Horizon(i32),
    /// The height at which a shadow is longer than at noon by this many
    /// heights of the object that casts it.
    Shadow(u8),
}

/// One question to the ephemeris: at what time of the day the sun reaches its
/// target.
#[derive(Clone, Copy, Debug, PartialEq, Eq)]
pub struct SunQuery {
    /// Twice the Julian day of the date.
    pub julian_day: i64,
    /// The instant at which the sun's place is taken, in microseconds from
    /// the start of that day.
    pub offset: i64,
    /// The latitude of the observer, in millionths of a degree.
    pub latitude: i32,
    pub target: SunTarget,
    /// Whether the time before solar noon is meant, not the one after it.
    pub ccw: bool,
}

/// The questions behind the times of a day.
#[derive(Clone, Copy, Debug, PartialEq, Eq)]
pub struct SunQueries {
    pub imsak: SunQuery,
    pub fajr: SunQuery,
    pub sunrise: SunQuery,
    pub dhuhr: SunQuery,
    pub asr: SunQuery,
    pub sunset: SunQuery,
    pub maghrib: SunQuery,
    pub isha: SunQuery,
}

/// The answers to `SunQueries`: local solar times in microseconds, `None`
/// where the sun does not reach the target on that day.
#[derive(Clone, Copy, Debug, PartialEq, Eq)]
pub struct SolvedTimes {
    pub imsak: Option<i64>,
    pub fajr: Option<i64>,
    pub sunrise: Option<i64>,
    pub dhuhr: Option<i64>,
    pub asr: Option<i64>,
    pub sunset: Option<i64>,
    pub maghrib: Option<i64>,
    pub isha: Option<i64>,
}

/// The time by which the clock of a longitude, in millionths of a degree, is
/// ahead of UTC, in microseconds: four minutes to the degree.
pub open spec fn longitude_time(longitude: i32) -> int {
    240 * longitude
}

/// The instant of a day at which the sun's place is taken for an event that
/// is expected at `hour` o'clock at this longitude, in microseconds from the
/// start of the day in UTC.
pub open spec fn sample_offset(hour: int, longitude: i32) -> int {
    3_600_000_000 * hour - longitude_time(longitude)
}

/// Twice the Julian day of a calendar date. The Julian day itself ends in one
/// half, so the doubled number is odd.
///
/// January and February count as months 13 and 14 of the year before. The days
/// up to the month are the whole part of `365.2425 * year + 30.6001 * month`.
pub open spec fn julian_half_days(year: int, month: int, day: int) -> int {
    let y = if month < 3 {
        year - 1
    } else {
        year
    };
    let m = if month < 3 {
        month + 12
    } else {
        month
    };
    2 * ((3_652_425 * y + 306_001 * m) / 10_000 + day + 1_721_027) + 1
}

/// Whether `year` has a 29th of February.
pub open spec fn is_leap_year(year: int) -> bool {
    year % 4 == 0 && (year % 100 != 0 || year % 400 == 0)
}

/// The number of days of a month, 1 to 12, of `year`.
pub open spec fn days_in_month(year: int, month: int) -> int {
    if month == 2 {
        if is_leap_year(year) {
            29
        } else {
            28
        }
    } else if month == 4 || month == 6 || month == 9 || month == 11 {
        30
    } else {
        31
    }
}

/// A day of the calendar, taken as a day in UTC.
#[derive(Clone, Copy, Debug, PartialEq, Eq)]
pub struct Date {
    pub year: i32,
    /// The month, counted from 1.
    pub month: u32,
    /// The day of the month, counted from 1.
    pub day: u32,
}

impl Date {
    /// Twice the Julian day of the date.
    pub open spec fn julian(self) -> int {
        julian_half_days(self.year as int, self.month as int, self.day as int)
    }

    /// Whether the date is a day of the calendar. A `Date` may hold any
    /// numbers; this says which of them name a day.
    pub open spec fn is_calendar_date(self) -> bool {
        1 <= self.month <= 12 && 1 <= self.day <= days_in_month(self.year as int, self.month as int)
    }

    /// Whether the date is `other` or comes before it.
    pub open spec fn not_after(self, other: Date) -> bool {
        self.year < other.year || (self.year == other.year && (self.month < other.month || (
        self.month == other.month && self.day <= other.day)))
    }

    /// The date that chrono's `date` stands for.
    ///
    /// Year, month and day are asked of chrono one by one, so what is known of
    /// the result is what chrono says of each: a month from 1 to 12 and a day
    /// from 1 to 31.
    pub fn from_naive(date: &NaiveDate) -> (day: Date)
        ensures
            1 <= day.month <= 12,
            1 <= day.day <= 31,
    {
        Date { year: date_year(date), month: date_month(date), day: date_day(date) }
    }
}

/// Twice the Julian day of a date. No number is refused for a month or a day.
pub fn get_julian_day(date: &Date) -> (julian: i64)
    ensures
        julian == date.julian(),
{
    let mut y: i64 = date.year as i64;
    let mut m: i64 = date.month as i64;
    if date.month < 3 {
        y = y - 1;
        m = m + 12;
    }
    let scaled: i64 = 3_652_425 * y + 306_001 * m;
    let whole: i64 = scaled.checked_div_euclid(10_000).unwrap();
    2 * (whole + date.day as i64 + 1_721_027) + 1
}

/// `Datelike::year` of a `NaiveDate`: the year of the date. Nothing is claimed
/// of the number.
#[verifier::external_body]
fn date_year(date: &NaiveDate) -> (year: i32) {
    date.year()
}

/// `Datelike::month` of a `NaiveDate`: the month of the date, which chrono
/// counts from 1 to 12.
#[verifier::external_body]
fn date_month(date: &NaiveDate) -> (month: u32)
    ensures
        1 <= month <= 12,
{
    date.month()
}

/// `Datelike::day` of a `NaiveDate`: the day of the month, which chrono counts
/// from 1 to at most 31.
#[verifier::external_body]
fn date_day(date: &NaiveDate) -> (day: u32)
    ensures
        1 <= day <= 31,
{
    date.day()
}

/// A later date never has a smaller Julian day: of two days of the calendar,
/// the first not after the second, the first has the smaller or the same
/// Julian day.
pub proof fn julian_day_is_monotonic(first: Date, second: Date)
    requires
        first.is_calendar_date(),
        second.is_calendar_date(),
        first.not_after(second),
    ensures
        first.julian() <= second.julian(),
{
}

} // verus!
