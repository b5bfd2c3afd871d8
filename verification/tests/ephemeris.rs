//! The library together with an ephemeris: the place of the sun is worked out
//! here, in floating point, and the library asks the questions and makes the
//! times of the day from the answers.
use chrono::NaiveDate;
use prayers::AsrJuristic;
use prayers::CalculationMethod;
use prayers::CalculationMethods;
use prayers::CalculationType;
use prayers::Coordinates;
use prayers::Date;
use prayers::HightLatMethods;
use prayers::PrayerManager;
use prayers::PrayerTimes;
use prayers::SolvedTimes;
use prayers::SunQuery;
use prayers::SunTarget;

fn sin(degrees: f64) -> f64 {
    degrees.to_radians().sin()
}

fn cos(degrees: f64) -> f64 {
    degrees.to_radians().cos()
}

fn tan(degrees: f64) -> f64 {
    degrees.to_radians().tan()
}

fn fix(a: f64, b: f64) -> f64 {
    let rest = a % b;
    if rest < 0.0 {
        rest + b
    } else {
        rest
    }
}

/// Declination in degrees and equation of time in hours.
fn sun_position(julian: f64) -> (f64, f64) {
    let d = julian - 2451545.0;
    let q = fix(280.46061837 + 0.98564736 * d, 360.0);
    let g = fix(357.528 + 0.98560028 * d, 360.0);
    let l = fix(q + 1.915 * sin(g) + 0.020 * sin(2.0 * g), 360.0);
    let e = 23.439 - 0.00000036 * d;
    let declination = (sin(e) * sin(l)).asin().to_degrees();
    let ascension = (cos(e) * sin(l)).atan2(cos(l)).to_degrees() / 15.0;
    (declination, q / 15.0 - fix(ascension, 24.0))
}

fn angle_time(julian: f64, latitude: f64, angle: f64, ccw: bool) -> f64 {
    let (declination, equation) = sun_position(julian);
    let t = 1.0 / 15.0
        * ((-sin(angle) - sin(declination) * sin(latitude)) / (cos(declination) * cos(latitude)))
            .acos()
            .to_degrees();
    fix(12.0 - equation, 24.0) + if ccw { -t } else { t }
}

/// The answer to a question, in hours.
fn hours(query: &SunQuery) -> f64 {
    let julian = query.julian_day as f64 / 2.0 + query.offset as f64 / 86_400_000_000.0;
    let latitude = query.latitude as f64 / 1e6;
    match query.target {
        SunTarget::Noon => fix(12.0 - sun_position(julian).1, 24.0),
        SunTarget::Depression(angle) => angle_time(julian, latitude, angle as f64 / 1e6, query.ccw),
        SunTarget::Horizon(millimetres) => {
            let radius = 6371008.7714;
            let dip = (radius / (radius + millimetres as f64 / 1e3)).acos().to_degrees();
            angle_time(julian, latitude, 0.833 + dip, query.ccw)
        }
        SunTarget::Shadow(factor) => {
            let declination = sun_position(julian).0;
            let angle = -(1.0 / (factor as f64 + tan((latitude - declination).abs()))).atan().to_degrees();
            angle_time(julian, latitude, angle, query.ccw)
        }
    }
}

fn answer(query: &SunQuery) -> Option<i64> {
    let time = hours(query);
    if time.is_finite() {
        Some((time * 3.6e9).round() as i64)
    } else {
        None
    }
}

fn times(manager: &PrayerManager, date: NaiveDate, coords: Coordinates) -> PrayerTimes {
    let queries = manager.sun_queries(&Date::from_naive(&date), &coords);
    let solved = SolvedTimes {
        imsak: answer(&queries.imsak),
        fajr: answer(&queries.fajr),
        sunrise: answer(&queries.sunrise),
        dhuhr: answer(&queries.dhuhr),
        asr: answer(&queries.asr),
        sunset: answer(&queries.sunset),
        maghrib: answer(&queries.maghrib),
        isha: answer(&queries.isha),
    };
    manager.get_times(&coords, &solved)
}

fn in_hours(time: Option<i64>) -> f64 {
    time.unwrap() as f64 / 3.6e9
}

fn close(time: Option<i64>, hours: f64) -> bool {
    (in_hours(time) - hours).abs() < 1e-6
}

fn washington() -> Coordinates {
    Coordinates::new(38_897_676, -77_036_529, Some(18_000))
}

fn april_day() -> NaiveDate {
    NaiveDate::from_ymd_opt(2021, 4, 12).unwrap()
}

#[test]
fn muslim_world_league_in_washington() {
    let manager = PrayerManager::new(CalculationMethods::MWL, None);
    let times = times(&manager, april_day(), washington());
    assert!(close(times.imsak, 8.860089038173626));
    assert!(close(times.fajr, 9.026755704840292));
    assert!(close(times.sunrise, 10.581941026910073));
    assert!(close(times.dhuhr, 17.14708096904308));
    assert!(close(times.asr, 20.831494870257075));
    assert!(close(times.sunset, 23.72239613166242));
    assert!(close(times.maghrib, 23.72239613166242));
    assert!(close(times.isha, 25.1845331305664));
    assert!(close(times.midnight, 29.152168579286247));
}

#[test]
fn the_events_of_a_day_come_in_their_order() {
    let places = [
        washington(),
        Coordinates::new(21_422_500, 39_826_200, Some(277_000)),
        Coordinates::new(-33_868_800, 151_209_300, None),
        Coordinates::new(51_507_400, -127_800, Some(11_000)),
    ];
    let methods = [
        CalculationMethods::MWL,
        CalculationMethods::ISNA,
        CalculationMethods::Egypt,
        CalculationMethods::Karachi,
        CalculationMethods::Tehran,
        CalculationMethods::Jafari,
    ];
    for coords in places {
        for method in methods {
            let manager = PrayerManager::new(method, None);
            let times = times(&manager, april_day(), coords);
            assert!(in_hours(times.fajr) < in_hours(times.sunrise));
            assert!(in_hours(times.sunrise) < in_hours(times.dhuhr));
            assert!(in_hours(times.dhuhr) < in_hours(times.sunset));
            assert!(in_hours(times.sunset) <= in_hours(times.maghrib));
        }
    }
}

#[test]
fn hanafi_asr_is_later() {
    let standard = CalculationMethod::new(
        None,
        18_000_000,
        Some(AsrJuristic::Standard),
        None,
        CalculationType::Angle(17_000_000),
        None,
    );
    let hanafi = CalculationMethod { asr: AsrJuristic::Hanafi, ..standard };
    let places = [washington(), Coordinates::new(51_507_400, -127_800, None)];
    for coords in places {
        let first = times(&PrayerManager::new(CalculationMethods::Custom(standard), None), april_day(), coords);
        let second = times(&PrayerManager::new(CalculationMethods::Custom(hanafi), None), april_day(), coords);
        assert!(in_hours(first.asr) < in_hours(second.asr));
        assert_eq!(first.dhuhr, second.dhuhr);
        assert_eq!(first.sunset, second.sunset);
    }
    let first = times(&PrayerManager::new(CalculationMethods::Custom(standard), None), april_day(), washington());
    let second = times(&PrayerManager::new(CalculationMethods::Custom(hanafi), None), april_day(), washington());
    assert!(close(first.asr, 20.831494870257075));
    assert!(close(second.asr, 21.80742966573139));
}

#[test]
fn one_seventh_leaves_fajr_alone_in_washington() {
    let plain = times(&PrayerManager::new(CalculationMethods::MWL, None), april_day(), washington());
    let manager = PrayerManager::new(CalculationMethods::MWL, Some(HightLatMethods::OneSeventh));
    let bounded = times(&manager, april_day(), washington());
    // Fajr lies 1.555 hours before sunrise, a seventh of the night is 1.551 hours
    assert_eq!(bounded.fajr, plain.fajr);
    assert_eq!(bounded.imsak, plain.imsak);
    assert_eq!(bounded.maghrib, plain.maghrib);
    assert_eq!(bounded.midnight, plain.midnight);
    // Isha lies 1.462 hours after sunset
    assert!(close(bounded.isha, 23.72239613166242 + 10.859544895247652 / 7.0));
}

#[test]
fn the_midnight_sun_leaves_only_noon_and_afternoon() {
    let manager = PrayerManager::new(CalculationMethods::MWL, Some(HightLatMethods::AngleBased));
    let date = NaiveDate::from_ymd_opt(2021, 6, 21).unwrap();
    let times = times(&manager, date, Coordinates::new(69_649_200, 18_955_300, None));
    assert_eq!(times.fajr, None);
    assert_eq!(times.sunrise, None);
    assert_eq!(times.sunset, None);
    assert_eq!(times.isha, None);
    assert_eq!(times.midnight, None);
    assert!(times.dhuhr.is_some());
    assert!(times.asr.is_some());
    assert!(in_hours(times.dhuhr) < in_hours(times.asr));
}
