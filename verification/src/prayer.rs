//! The rules that turn the solved times of the sun into the times of prayer.
use crate::astronomy::longitude_time;
use crate::astronomy::sample_offset;
use crate::astronomy::get_julian_day;
use crate::astronomy::Coordinates;
use crate::astronomy::Date;
use crate::astronomy::SolvedTimes;
use crate::astronomy::SunQueries;
use crate::astronomy::SunQuery;
use crate::astronomy::SunTarget;
use crate::dmath::normalized_hour;
use crate::dmath::DAY;
use crate::dmath::HOUR;
use crate::method::CalculationMethod;
use crate::method::CalculationMethods;
use crate::method::CalculationType;
use crate::method::MeanTimeType;
use vstd::prelude::*;

verus! {

/// The method to use for higher latitudes, where the sun may not reach the
/// angle of Fajr or Isha.
#[derive(Clone, Copy, Debug, PartialEq, Eq)]
pub enum HightLatMethods {
    /// One half of the night.
    NightMiddle,
    /// As many sixtieths of the night as the angle has degrees.
    AngleBased,
    /// One seventh of the night.
    OneSeventh,
}

impl HightLatMethods {
    /// The part of a night of `night` microseconds by which an event with an
    /// angle of `angle` millionths of a degree may lie from sunrise or sunset,
    /// rounded down to whole microseconds.
    pub open spec fn portion(self, angle: int, night: int) -> int {
        match self {
            HightLatMethods::NightMiddle => night / 2,
            HightLatMethods::AngleBased => (angle * night) / 60_000_000,
            HightLatMethods::OneSeventh => night / 7,
        }
    }
}

/// The times of a day, in microseconds of UTC. They are not brought into one
/// day: a time may be negative or lie beyond 24 hours.
#[derive(Clone, Copy, Debug, PartialEq, Eq)]
pub struct PrayerTimes {
    pub imsak: Option<i64>,
    pub fajr: Option<i64>,
    pub sunrise: Option<i64>,
    pub dhuhr: Option<i64>,
    pub asr: Option<i64>,
    pub sunset: Option<i64>,
    pub maghrib: Option<i64>,
    pub isha: Option<i64>,
    pub midnight: Option<i64>,
}

/// The span of `minutes` millionths of a minute, in microseconds.
pub open spec fn minutes_time(minutes: i32) -> int {
    60 * minutes
}

/// `time` moved by `by` microseconds. There is none where `time` is none, or
/// where an `i64` cannot hold the result.
pub open spec fn shifted(time: Option<i64>, by: int) -> Option<i64> {
    match time {
        Some(at) => if i64::MIN <= at + by <= i64::MAX {
            Some((at + by) as i64)
        } else {
            None
        },
        None => None,
    }
}

/// The time that passes from `time1` until the clock next shows `time2`: less
/// than a day. There is none where one of the two is none.
pub open spec fn time_between(time1: Option<i64>, time2: Option<i64>) -> Option<i64> {
    match (time1, time2) {
        (Some(from), Some(to)) => Some(normalized_hour(to - from) as i64),
        _ => None,
    }
}

/// The part of the night that `strategy` allows an event with this angle.
/// There is none where the night is none, or where an `i64` cannot hold it.
pub open spec fn night_part(strategy: HightLatMethods, angle: i32, night: Option<i64>) -> Option<
    i64,
> {
    match night {
        Some(length) => {
            let part = strategy.portion(angle as int, length as int);
            if i64::MIN <= part <= i64::MAX {
                Some(part as i64)
            } else {
                None
            }
        },
        None => None,
    }
}

/// The time of an event under `strategy`. `time` is the solved time, `base`
/// the sunrise that follows it (`ccw`) or the sunset that it follows. Where
/// the allowed part of the night is longer than the time between the two, the
/// event is put that part away from `base`; else, and where either is none,
/// `time` stays.
pub open spec fn adjusted_time(
    strategy: HightLatMethods,
    time: Option<i64>,
    base: Option<i64>,
    angle: i32,
    night: Option<i64>,
    ccw: bool,
) -> Option<i64> {
    let diff = if ccw {
        time_between(time, base)
    } else {
        time_between(base, time)
    };
    match (night_part(strategy, angle, night), diff) {
        (Some(portion), Some(apart)) => if portion > apart {
            shifted(
                base,
                if ccw {
                    -portion
                } else {
                    portion as int
                },
            )
        } else {
            time
        },
        _ => time,
    }
}

/// `time` moved by `by` microseconds.
pub fn shift(time: Option<i64>, by: i64) -> (moved: Option<i64>)
    ensures
        moved == shifted(time, by as int),
{
    match time {
        Some(at) => at.checked_add(by),
        None => None,
    }
}

/// The time that passes from `time1` until the clock next shows `time2`.
pub fn time_diff(time1: Option<i64>, time2: Option<i64>) -> (diff: Option<i64>)
    ensures
        diff == time_between(time1, time2),
{
    match (time1, time2) {
        (Some(from), Some(to)) => {
            let span: i128 = to as i128 - from as i128;
            let rest: i128 = span.checked_rem_euclid(DAY as i128).unwrap();
            Some(rest as i64)
        },
        _ => None,
    }
}

/// The time that lies after `from` by half of what passes until the clock next
/// shows `until`, rounded down to whole microseconds.
pub open spec fn half_way(from: Option<i64>, until: Option<i64>) -> Option<i64> {
    match time_between(from, until) {
        Some(apart) => shifted(from, apart / 2),
        None => None,
    }
}

/// The time that lies after `from` by half of what passes until the clock next
/// shows `until`.
pub fn middle(from: Option<i64>, until: Option<i64>) -> (between: Option<i64>)
    ensures
        between == half_way(from, until),
{
    match time_diff(from, until) {
        Some(apart) => shift(from, apart / 2),
        None => None,
    }
}

/// The question for an event that is expected at `hour` o'clock of the day
/// `date`, at `coords`.
pub open spec fn question(
    date: Date,
    coords: Coordinates,
    hour: int,
    target: SunTarget,
    ccw: bool,
) -> SunQuery {
    SunQuery {
        julian_day: date.julian() as i64,
        offset: sample_offset(hour, coords.1) as i64,
        latitude: coords.0,
        target,
        ccw,
    }
}

/// A method of calculation, and what to do at high latitudes.
#[derive(Clone, Copy, Debug, PartialEq, Eq)]
pub struct PrayerManager {
    pub method: CalculationMethod,
    pub high_lats: Option<HightLatMethods>,
}

impl PrayerManager {
    /// The manager for a method, with or without a rule for high latitudes.
    pub fn new(method: CalculationMethods, high_lats: Option<HightLatMethods>) -> (manager:
        PrayerManager)
        ensures
            manager.method == method.parameters(),
            manager.high_lats == high_lats,
    {
        PrayerManager { method: PrayerManager::get_calculation_method(method), high_lats }
    }

    /// The parameters that a method stands for.
    pub fn get_calculation_method(calculation_method: CalculationMethods) -> (method:
        CalculationMethod)
        ensures
            method == calculation_method.parameters(),
    {
        match calculation_method {
            CalculationMethods::MWL => CalculationMethod::from(
                18_000_000,
                CalculationType::Angle(17_000_000),
            ),
            CalculationMethods::ISNA => CalculationMethod::from(
                15_000_000,
                CalculationType::Angle(15_000_000),
            ),
            CalculationMethods::Egypt => CalculationMethod::from(
                19_500_000,
                CalculationType::Angle(17_500_000),
            ),
            CalculationMethods::Makkah(is_ramadan) => CalculationMethod::from(
                18_500_000,
                CalculationType::Minutes(
                    if is_ramadan {
                        120_000_000
                    } else {
                        90_000_000
                    },
                ),
            ),
            CalculationMethods::Karachi => CalculationMethod::from(
                18_000_000,
                CalculationType::Angle(18_000_000),
            ),
            CalculationMethods::Tehran => CalculationMethod::new(
                None,
                17_700_000,
                None,
                Some(CalculationType::Angle(4_500_000)),
                CalculationType::Angle(14_000_000),
                Some(MeanTimeType::Jafari),
            ),
            CalculationMethods::Jafari => CalculationMethod::new(
                None,
                16_000_000,
                None,
                Some(CalculationType::Angle(4_000_000)),
                CalculationType::Angle(14_000_000),
                Some(MeanTimeType::Jafari),
            ),
            CalculationMethods::MF => CalculationMethod::from(
                12_000_000,
                CalculationType::Angle(12_000_000),
            ),
            CalculationMethods::Custom(value) => value,
        }
    }

    /// The part of the night that the rule for high latitudes allows an event
    /// with this angle.
    pub fn night_portion(&self, angle: i32, night: Option<i64>) -> (portion: Option<i64>)
        requires
            self.high_lats is Some,
        ensures
            portion == night_part(self.high_lats.unwrap(), angle, night),
    {
        match night {
            Some(length) => {
                let part: i128 = match self.high_lats.unwrap() {
                    HightLatMethods::NightMiddle => (length as i128).checked_div_euclid(2).unwrap(),
                    HightLatMethods::AngleBased => {
                        assert(-0x8000_0000_0000_0000_0000_0000 <= (angle as int) * (length as int)
                            <= 0x8000_0000_0000_0000_0000_0000) by (nonlinear_arith)
                            requires
                                -0x8000_0000 <= angle <= 0x8000_0000,
                                -0x8000_0000_0000_0000 <= length <= 0x8000_0000_0000_0000,
                        ;
                        let product: i128 = angle as i128 * length as i128;
                        product.checked_div_euclid(60_000_000).unwrap()
                    },
                    HightLatMethods::OneSeventh => (length as i128).checked_div_euclid(7).unwrap(),
                };
                if i64::MIN as i128 <= part && part <= i64::MAX as i128 {
                    Some(part as i64)
                } else {
                    None
                }
            },
            None => None,
        }
    }

    /// The time of an event under the rule for high latitudes.
    pub fn adjust_highlat_time(
        &self,
        time: Option<i64>,
        base: Option<i64>,
        angle: i32,
        night: Option<i64>,
        ccw: bool,
    ) -> (adjusted: Option<i64>)
        requires
            self.high_lats is Some,
        ensures
            adjusted == adjusted_time(self.high_lats.unwrap(), time, base, angle, night, ccw),
    {
        let portion = self.night_portion(angle, night);
        let diff = if ccw {
            time_diff(time, base)
        } else {
            time_diff(base, time)
        };
        match (portion, diff) {
            (Some(allowed), Some(apart)) => {
                if allowed > apart {
                    shift(
                        base,
                        if ccw {
                            -allowed
                        } else {
                            allowed
                        },
                    )
                } else {
                    time
                }
            },
            _ => time,
        }
    }

    /// The time of an event as the manager's rule for high latitudes has it;
    /// without a rule, the solved time.
    pub open spec fn bounded(
        self,
        time: Option<i64>,
        base: Option<i64>,
        angle: i32,
        night: Option<i64>,
        ccw: bool,
    ) -> Option<i64> {
        match self.high_lats {
            Some(strategy) => adjusted_time(strategy, time, base, angle, night, ccw),
            None => time,
        }
    }

    /// The times of a day at `coords`, from the local solar times `solved`.
    ///
    /// Every solved time is brought to UTC by the time of the longitude. Dhuhr
    /// is solar noon and the minutes of the method. Fajr, and Imsak, Maghrib
    /// and Isha where the method gives them an angle, are bounded by the rule
    /// for high latitudes: Fajr and Imsak against sunrise, the two others
    /// against sunset, over the night from sunset to sunrise. Where the method
    /// gives minutes, Imsak lies them before Fajr, Maghrib before sunset, Isha
    /// before Maghrib. Midnight lies after sunset by half of what passes until
    /// sunrise, or until Fajr with `MeanTimeType::Jafari`.
    pub open spec fn times(self, coords: Coordinates, solved: SolvedTimes) -> PrayerTimes {
        let adjust = longitude_time(coords.1);
        let sunrise = shifted(solved.sunrise, -adjust);
        let sunset = shifted(solved.sunset, -adjust);
        let night = time_between(sunset, sunrise);
        let fajr = self.bounded(
            shifted(solved.fajr, -adjust),
            sunrise,
            self.method.fajr,
            night,
            true,
        );
        let maghrib = match self.method.maghrib {
            CalculationType::Minutes(minutes) => shifted(sunset, -minutes_time(minutes)),
            CalculationType::Angle(angle) => self.bounded(
                shifted(solved.maghrib, -adjust),
                sunset,
                angle,
                night,
                false,
            ),
        };
        PrayerTimes {
            imsak: match self.method.imsak {
                CalculationType::Minutes(minutes) => shifted(fajr, -minutes_time(minutes)),
                CalculationType::Angle(angle) => self.bounded(
                    shifted(solved.imsak, -adjust),
                    sunrise,
                    angle,
                    night,
                    true,
                ),
            },
            fajr,
            sunrise,
            dhuhr: shifted(solved.dhuhr, minutes_time(self.method.duhr) - adjust),
            asr: shifted(solved.asr, -adjust),
            sunset,
            maghrib,
            isha: match self.method.isha {
                CalculationType::Minutes(minutes) => shifted(maghrib, -minutes_time(minutes)),
                CalculationType::Angle(angle) => self.bounded(
                    shifted(solved.isha, -adjust),
                    sunset,
                    angle,
                    night,
                    false,
                ),
            },
            midnight: match self.method.midnight {
                MeanTimeType::Standard => half_way(sunset, sunrise),
                MeanTimeType::Jafari => half_way(sunset, fajr),
            },
        }
    }

    /// The questions to the ephemeris for the day `date` at `coords`.
    ///
    /// Imsak and Fajr are sought before noon with the sun's place at 5
    /// o'clock, sunrise with its place at 6; Dhuhr is solar noon at 12; Asr is
    /// sought after noon at 13, sunset, Maghrib and Isha at 18. Imsak, Maghrib
    /// and Isha take the number of their parameter for the angle, whichever
    /// way the method means it.
    pub fn sun_queries(&self, date: &Date, coords: &Coordinates) -> (queries: SunQueries)
        ensures
            queries.imsak == question(
                *date,
                *coords,
                5,
                SunTarget::Depression(self.method.imsak.value()),
                true,
            ),
            queries.fajr == question(
                *date,
                *coords,
                5,
                SunTarget::Depression(self.method.fajr),
                true,
            ),
            queries.sunrise == question(*date, *coords, 6, SunTarget::Horizon(coords.2), true),
            queries.dhuhr == question(*date, *coords, 12, SunTarget::Noon, false),
            queries.asr == question(
                *date,
                *coords,
                13,
                SunTarget::Shadow(self.method.asr.factor()),
                false,
            ),
            queries.sunset == question(
                *date,
                *coords,
                18,
                SunTarget::Horizon(coords.2),
                false,
            ),
            queries.maghrib == question(
                *date,
                *coords,
                18,
                SunTarget::Depression(self.method.maghrib.value()),
                false,
            ),
            queries.isha == question(
                *date,
                *coords,
                18,
                SunTarget::Depression(self.method.isha.value()),
                false,
            ),
    {
        let julian_day: i64 = get_julian_day(date);
        let early: i64 = 5 * HOUR - 240 * (coords.1 as i64);
        let rise: i64 = 6 * HOUR - 240 * (coords.1 as i64);
        let noon: i64 = 12 * HOUR - 240 * (coords.1 as i64);
        let afternoon: i64 = 13 * HOUR - 240 * (coords.1 as i64);
        let late: i64 = 18 * HOUR - 240 * (coords.1 as i64);
        let latitude: i32 = coords.0;
        let horizon = SunTarget::Horizon(coords.2);
        SunQueries {
            imsak: SunQuery {
                julian_day,
                offset: early,
                latitude,
                target: SunTarget::Depression(self.method.imsak.unwrap()),
                ccw: true,
            },
            fajr: SunQuery {
                julian_day,
                offset: early,
                latitude,
                target: SunTarget::Depression(self.method.fajr),
                ccw: true,
            },
            sunrise: SunQuery { julian_day, offset: rise, latitude, target: horizon, ccw: true },
            dhuhr: SunQuery {
                julian_day,
                offset: noon,
                latitude,
                target: SunTarget::Noon,
                ccw: false,
            },
            asr: SunQuery {
                julian_day,
                offset: afternoon,
                latitude,
                target: SunTarget::Shadow(self.method.asr.shadow_factor()),
                ccw: false,
            },
            sunset: SunQuery { julian_day, offset: late, latitude, target: horizon, ccw: false },
            maghrib: SunQuery {
                julian_day,
                offset: late,
                latitude,
                target: SunTarget::Depression(self.method.maghrib.unwrap()),
                ccw: false,
            },
            isha: SunQuery {
                julian_day,
                offset: late,
                latitude,
                target: SunTarget::Depression(self.method.isha.unwrap()),
                ccw: false,
            },
        }
    }

    /// The times of a day at `coords`, from the answers `solved` to the
    /// manager's questions for that day and place.
    pub fn get_times(&self, coords: &Coordinates, solved: &SolvedTimes) -> (times: PrayerTimes)
        ensures
            times == self.times(*coords, *solved),
    {
        let method = &self.method;
        let adjust: i64 = 240 * (coords.1 as i64);

        let mut imsak = shift(solved.imsak, -adjust);
        let mut fajr = shift(solved.fajr, -adjust);
        let sunrise = shift(solved.sunrise, -adjust);
        let dhuhr = shift(solved.dhuhr, 60 * (method.duhr as i64) - adjust);
        let asr = shift(solved.asr, -adjust);
        let sunset = shift(solved.sunset, -adjust);
        let mut maghrib = shift(solved.maghrib, -adjust);
        let mut isha = shift(solved.isha, -adjust);

        if self.high_lats.is_some() {
            let night_time = time_diff(sunset, sunrise);

            imsak = self.adjust_highlat_time(imsak, sunrise, method.imsak.unwrap(), night_time, true);
            fajr = self.adjust_highlat_time(fajr, sunrise, method.fajr, night_time, true);
            isha = self.adjust_highlat_time(isha, sunset, method.isha.unwrap(), night_time, false);
            maghrib =
            self.adjust_highlat_time(maghrib, sunset, method.maghrib.unwrap(), night_time, false);
        }
        if let CalculationType::Minutes(minutes) = method.imsak {
            imsak = shift(fajr, -(60 * (minutes as i64)));
        }
        if let CalculationType::Minutes(minutes) = method.maghrib {
            maghrib = shift(sunset, -(60 * (minutes as i64)));
        }
        if let CalculationType::Minutes(minutes) = method.isha {
            isha = shift(maghrib, -(60 * (minutes as i64)));
        }
        let midnight = match method.midnight {
            MeanTimeType::Standard => middle(sunset, sunrise),
            MeanTimeType::Jafari => middle(sunset, fajr),
        };

        PrayerTimes { imsak, fajr, sunrise, dhuhr, asr, sunset, maghrib, isha, midnight }
    }
}

/// Whether `strategy` leaves the solved time of an event as it is: the part of
/// the night that it allows is not longer than the time between the event and
/// its sunrise or sunset, or one of the two does not exist.
pub open spec fn is_left_alone(
    strategy: HightLatMethods,
    time: Option<i64>,
    base: Option<i64>,
    angle: i32,
    night: Option<i64>,
    ccw: bool,
) -> bool {
    let diff = if ccw {
        time_between(time, base)
    } else {
        time_between(base, time)
    };
    match (night_part(strategy, angle, night), diff) {
        (Some(portion), Some(apart)) => portion <= apart,
        _ => true,
    }
}

impl PrayerManager {
    /// The same method without a rule for high latitudes.
    pub open spec fn unbounded(self) -> PrayerManager {
        PrayerManager { method: self.method, high_lats: None }
    }

    /// Whether the rule for high latitudes, where there is one, leaves alone
    /// Fajr and each of Imsak, Maghrib and Isha to which the method gives an
    /// angle.
    pub open spec fn leaves_alone(self, coords: Coordinates, solved: SolvedTimes) -> bool {
        let adjust = longitude_time(coords.1);
        let sunrise = shifted(solved.sunrise, -adjust);
        let sunset = shifted(solved.sunset, -adjust);
        let night = time_between(sunset, sunrise);
        match self.high_lats {
            Some(strategy) => {
                &&& is_left_alone(
                    strategy,
                    shifted(solved.fajr, -adjust),
                    sunrise,
                    self.method.fajr,
                    night,
                    true,
                )
                &&& self.method.imsak matches CalculationType::Angle(angle) ==> is_left_alone(
                    strategy,
                    shifted(solved.imsak, -adjust),
                    sunrise,
                    angle,
                    night,
                    true,
                )
                &&& self.method.maghrib matches CalculationType::Angle(angle) ==> is_left_alone(
                    strategy,
                    shifted(solved.maghrib, -adjust),
                    sunset,
                    angle,
                    night,
                    false,
                )
                &&& self.method.isha matches CalculationType::Angle(angle) ==> is_left_alone(
                    strategy,
                    shifted(solved.isha, -adjust),
                    sunset,
                    angle,
                    night,
                    false,
                )
            },
            None => true,
        }
    }
}

/// A rule for high latitudes changes an event only where the part of the night
/// that it allows is longer than the time between the event and its sunrise or
/// sunset.
pub proof fn adjusted_time_changes_only_when_nearer(
    strategy: HightLatMethods,
    time: Option<i64>,
    base: Option<i64>,
    angle: i32,
    night: Option<i64>,
    ccw: bool,
)
    requires
        is_left_alone(strategy, time, base, angle, night, ccw),
    ensures
        adjusted_time(strategy, time, base, angle, night, ccw) == time,
{
}

/// Where a rule for high latitudes leaves every solved time alone, the times
/// of the day are those of the same method without a rule.
pub proof fn high_latitude_rule_is_idle(
    manager: PrayerManager,
    coords: Coordinates,
    solved: SolvedTimes,
)
    requires
        manager.leaves_alone(coords, solved),
    ensures
        manager.times(coords, solved) == manager.unbounded().times(coords, solved),
{
}

/// Whether both times exist and the first is the earlier one.
pub open spec fn earlier(first: Option<i64>, second: Option<i64>) -> bool {
    first is Some && second is Some && first.unwrap() < second.unwrap()
}

/// Whether both times exist and the first is not the later one.
pub open spec fn not_later(first: Option<i64>, second: Option<i64>) -> bool {
    first is Some && second is Some && first.unwrap() <= second.unwrap()
}

/// A Fajr that was solved before sunrise stays before sunrise, with any rule
/// for high latitudes or none.
pub proof fn fajr_stays_before_sunrise(
    manager: PrayerManager,
    coords: Coordinates,
    solved: SolvedTimes,
)
    requires
        earlier(solved.fajr, solved.sunrise),
        manager.times(coords, solved).fajr is Some,
        manager.times(coords, solved).sunrise is Some,
    ensures
        earlier(manager.times(coords, solved).fajr, manager.times(coords, solved).sunrise),
{
}

/// Where the method adds no minutes to solar noon, a noon that was solved
/// between sunrise and sunset gives a Dhuhr between sunrise and sunset.
pub proof fn dhuhr_stays_between_sunrise_and_sunset(
    manager: PrayerManager,
    coords: Coordinates,
    solved: SolvedTimes,
)
    requires
        manager.method.duhr == 0,
        earlier(solved.sunrise, solved.dhuhr),
        earlier(solved.dhuhr, solved.sunset),
        manager.times(coords, solved).sunrise is Some,
        manager.times(coords, solved).dhuhr is Some,
        manager.times(coords, solved).sunset is Some,
    ensures
        earlier(manager.times(coords, solved).sunrise, manager.times(coords, solved).dhuhr),
        earlier(manager.times(coords, solved).dhuhr, manager.times(coords, solved).sunset),
{
}

/// A Maghrib that the method gives an angle, and that was solved at or after
/// sunset, stays at or after sunset, with any rule for high latitudes or none.
pub proof fn maghrib_by_angle_stays_after_sunset(
    manager: PrayerManager,
    coords: Coordinates,
    solved: SolvedTimes,
)
    requires
        manager.method.maghrib is Angle,
        not_later(solved.sunset, solved.maghrib),
        manager.times(coords, solved).sunset is Some,
        manager.times(coords, solved).maghrib is Some,
    ensures
        not_later(manager.times(coords, solved).sunset, manager.times(coords, solved).maghrib),
{
}

/// A Maghrib that the method gives minutes lies at or after sunset exactly
/// where the minutes are not positive: the minutes are taken from sunset.
pub proof fn maghrib_by_minutes_is_after_sunset_iff(
    manager: PrayerManager,
    coords: Coordinates,
    solved: SolvedTimes,
)
    requires
        manager.method.maghrib is Minutes,
        manager.times(coords, solved).sunset is Some,
        manager.times(coords, solved).maghrib is Some,
    ensures
        not_later(manager.times(coords, solved).sunset, manager.times(coords, solved).maghrib)
            <==> manager.method.maghrib.value() <= 0,
{
}

} // verus!
