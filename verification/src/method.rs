//! Calculation methods: the parameters by which the times of a day are found,
//! and the methods that are known by name.
use vstd::prelude::*;

verus! {

/// How the time of an event is found: from an angle of the sun, in millionths of
/// a degree, or as a span away from another event, in millionths of a minute.
#[derive(Clone, Copy, Debug, PartialEq, Eq)]
pub enum CalculationType {
    Angle(i32),
    Minutes(i32),
}

impl CalculationType {
    /// The number held, whichever way it is meant.
    pub open spec fn value(self) -> i32 {
        match self {
            CalculationType::Angle(value) => value,
            CalculationType::Minutes(value) => value,
        }
    }

    /// The number held, whichever way it is meant.
    pub fn unwrap(&self) -> (value: i32)
        ensures
            value == self.value(),
    {
        match self {
            CalculationType::Angle(value) => *value,
            CalculationType::Minutes(value) => *value,
        }
    }
}

/// The length of shadow that marks Asr.
#[derive(Clone, Copy, Debug, PartialEq, Eq)]
pub enum AsrJuristic {
    /// The shadow has grown by the height of the object.
    Standard,
    /// The shadow has grown by twice the height of the object.
    Hanafi,
}

impl AsrJuristic {
    /// By how many heights of the object the shadow has grown at Asr.
    pub open spec fn factor(self) -> u8 {
        match self {
            AsrJuristic::Standard => 1,
            AsrJuristic::Hanafi => 2,
        }
    }

    /// By how many heights of the object the shadow has grown at Asr.
    pub fn shadow_factor(&self) -> (factor: u8)
        ensures
            factor == self.factor(),
    {
        match self {
            AsrJuristic::Standard => 1,
            AsrJuristic::Hanafi => 2,
        }
    }
}

/// The part of the night whose middle is midnight.
#[derive(Clone, Copy, Debug, PartialEq, Eq)]
pub enum MeanTimeType {
    /// From sunset to sunrise.
    Standard,
    /// From sunset to Fajr.
    Jafari,
}

/// The parameters of a calculation method.
#[derive(Clone, Copy, Debug, PartialEq, Eq)]
pub struct CalculationMethod {
    pub imsak: CalculationType,
    /// The angle of Fajr, in millionths of a degree.
    pub fajr: i32,
    /// The span from solar noon to Dhuhr, in millionths of a minute.
    pub duhr: i32,
    pub asr: AsrJuristic,
    pub maghrib: CalculationType,
    pub isha: CalculationType,
    pub midnight: MeanTimeType,
}

impl CalculationMethod {
    /// The method with these parameters. What is left out is: Imsak ten minutes
    /// from Fajr, Asr by the standard shadow, Maghrib no minute from sunset,
    /// midnight between sunset and sunrise. Dhuhr is solar noon.
    pub fn new(
        imsak: Option<CalculationType>,
        fajr: i32,
        asr: Option<AsrJuristic>,
        maghrib: Option<CalculationType>,
        isha: CalculationType,
        midnight: Option<MeanTimeType>,
    ) -> (method: CalculationMethod)
        ensures
            method.imsak == match imsak {
                Some(given) => given,
                None => CalculationType::Minutes(10_000_000),
            },
            method.fajr == fajr,
            method.duhr == 0,
            method.asr == match asr {
                Some(given) => given,
                None => AsrJuristic::Standard,
            },
            method.maghrib == match maghrib {
                Some(given) => given,
                None => CalculationType::Minutes(0),
            },
            method.isha == isha,
            method.midnight == match midnight {
                Some(given) => given,
                None => MeanTimeType::Standard,
            },
    {
        CalculationMethod {
            imsak: match imsak {
                Some(given) => given,
                None => CalculationType::Minutes(10_000_000),
            },
            fajr,
            duhr: 0,
            asr: match asr {
                Some(given) => given,
                None => AsrJuristic::Standard,
            },
            maghrib: match maghrib {
                Some(given) => given,
                None => CalculationType::Minutes(0),
            },
            isha,
            midnight: match midnight {
                Some(given) => given,
                None => MeanTimeType::Standard,
            },
        }
    }

    /// The method with this angle of Fajr and this rule for Isha, and nothing
    /// else given.
    pub fn from(fajr: i32, isha: CalculationType) -> (method: CalculationMethod)
        ensures
            method == CalculationMethod::plain(fajr, isha),
    {
        CalculationMethod::new(None, fajr, None, None, isha, None)
    }

    /// The method with this angle of Fajr and this rule for Isha, and nothing
    /// else given.
    pub open spec fn plain(fajr: i32, isha: CalculationType) -> CalculationMethod {
        CalculationMethod {
            imsak: CalculationType::Minutes(10_000_000),
            fajr,
            duhr: 0,
            asr: AsrJuristic::Standard,
            maghrib: CalculationType::Minutes(0),
            isha,
            midnight: MeanTimeType::Standard,
        }
    }
}

/// The calculation methods.
#[derive(Clone, Copy, Debug, PartialEq, Eq)]
pub enum CalculationMethods {
    /// Muslim World League
    MWL,
    /// Islamic Society of North America
    ISNA,
    /// Egyptian General Authority of Survey
    Egypt,
    /// Umm Al-Qura University, Makkah; `true` in Ramadan
    Makkah(bool),
    /// University of Islamic Sciences, Karachi
    Karachi,
    /// Institute of Geophysics, University of Tehran
    Tehran,
    /// Shia Ithna-Ashari, Leva Institute, Qum
    Jafari,
    /// Muslims of France
    MF,
    /// Parameters of one's own
    Custom(CalculationMethod),
}

impl CalculationMethods {
    /// The parameters that the method stands for.
    pub open spec fn parameters(self) -> CalculationMethod {
        match self {
            CalculationMethods::MWL => CalculationMethod::plain(
                18_000_000,
                CalculationType::Angle(17_000_000),
            ),
            CalculationMethods::ISNA => CalculationMethod::plain(
                15_000_000,
                CalculationType::Angle(15_000_000),
            ),
            CalculationMethods::Egypt => CalculationMethod::plain(
                19_500_000,
                CalculationType::Angle(17_500_000),
            ),
            CalculationMethods::Makkah(is_ramadan) => CalculationMethod::plain(
                18_500_000,
                CalculationType::Minutes(
                    if is_ramadan {
                        120_000_000
                    } else {
                        90_000_000
                    },
                ),
            ),
            CalculationMethods::Karachi => CalculationMethod::plain(
                18_000_000,
                CalculationType::Angle(18_000_000),
            ),
            CalculationMethods::Tehran => CalculationMethod {
                imsak: CalculationType::Minutes(10_000_000),
                fajr: 17_700_000,
                duhr: 0,
                asr: AsrJuristic::Standard,
                maghrib: CalculationType::Angle(4_500_000),
                isha: CalculationType::Angle(14_000_000),
                midnight: MeanTimeType::Jafari,
            },
            CalculationMethods::Jafari => CalculationMethod {
                imsak: CalculationType::Minutes(10_000_000),
                fajr: 16_000_000,
                duhr: 0,
                asr: AsrJuristic::Standard,
                maghrib: CalculationType::Angle(4_000_000),
                isha: CalculationType::Angle(14_000_000),
                midnight: MeanTimeType::Jafari,
            },
            CalculationMethods::MF => CalculationMethod::plain(
                12_000_000,
                CalculationType::Angle(12_000_000),
            ),
            CalculationMethods::Custom(method) => method,
        }
    }
}

/// The Hanafi shadow is the longer one.
pub proof fn hanafi_shadow_is_longer()
    ensures
        AsrJuristic::Standard.factor() < AsrJuristic::Hanafi.factor(),
{
}

/// Switching the way a number is meant, from an angle to minutes and back or
/// the other way round, gives back the parameter one started from.
pub proof fn calculation_type_round_trip(value: i32)
    ensures
        CalculationType::Angle(value).value() == value,
        CalculationType::Minutes(value).value() == value,
        CalculationType::Angle(CalculationType::Minutes(CalculationType::Angle(value).value()).value())
            == CalculationType::Angle(value),
        CalculationType::Minutes(CalculationType::Angle(CalculationType::Minutes(value).value()).value())
            == CalculationType::Minutes(value),
{
}

} // verus!
