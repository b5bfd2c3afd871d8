//! Prayer times from the position of the sun.
//!
//! Every quantity is a whole number: angles in millionths of a degree, spans in
//! millionths of a minute, times of day in microseconds. A time that does not
//! exist, or that an `i64` cannot hold, is `None`.
//!
//! The place of the sun itself is not worked out here. `PrayerManager::sun_queries`
//! says what has to be asked of an ephemeris for a day and a place, and
//! `PrayerManager::get_times` makes the times of the day from the answers.
pub mod astronomy;
pub mod dmath;
pub mod method;
pub mod prayer;

pub use crate::astronomy::get_julian_day;
pub use crate::astronomy::Coordinates;
pub use crate::astronomy::Date;
pub use crate::astronomy::SolvedTimes;
pub use crate::astronomy::SunQueries;
pub use crate::astronomy::SunQuery;
pub use crate::astronomy::SunTarget;
pub use crate::dmath::fix_angle;
pub use crate::dmath::fix_hour;
pub use crate::method::AsrJuristic;
pub use crate::method::CalculationMethod;
pub use crate::method::CalculationMethods;
pub use crate::method::CalculationType;
pub use crate::method::MeanTimeType;
pub use crate::prayer::HightLatMethods;
pub use crate::prayer::PrayerManager;
pub use crate::prayer::PrayerTimes;
