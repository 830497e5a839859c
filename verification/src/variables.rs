//! The three linguistic variables of the controller and their fuzzy sets.
//!
//! Temperature runs from 0 to 50 degrees Celsius, humidity and fan speed from
//! 0 to 100 percent. Breakpoints are written in thousandths of the unit.

use crate::membership::{
    lemma_trapezoidal_bounds, lemma_triangular_bounds, spec_trapezoidal, spec_triangular,
    trapezoidal, triangular, DEGREE_ONE,
};
use vstd::prelude::*;

verus! {

/// The fuzzy sets of the temperature.
#[derive(Clone, Copy, Debug, PartialEq, Eq, Structural)]
pub enum TemperatureLabel {
    Cold,
    Mild,
    Hot,
}

/// The fuzzy sets of the humidity.
#[derive(Clone, Copy, Debug, PartialEq, Eq, Structural)]
pub enum HumidityLabel {
    Low,
    Medium,
    High,
}

/// The fuzzy sets of the fan speed.
#[derive(Clone, Copy, Debug, PartialEq, Eq, Structural)]
pub enum FanSpeedLabel {
    Off,
    Low,
    Medium,
    High,
}

/// A fuzzy set of some variable together with the degree to which one crisp
/// value belongs to it.
#[derive(Debug, PartialEq, Eq)]
pub struct FuzzySet<L> {
    pub label: L,
    pub membership: u64,
}

impl<L: Copy> Clone for FuzzySet<L> {
    fn clone(&self) -> (copy: Self)
        ensures
            copy == *self,
    {
        *self
    }
}

impl<L: Copy> Copy for FuzzySet<L> {

}

/// A triangular fuzzy set of the fan speed: its label and breakpoints.
#[derive(Clone, Copy, Debug, PartialEq, Eq, Structural)]
pub struct FanSpeedSet {
    pub label: FanSpeedLabel,
    pub a: i32,
    pub b: i32,
    pub c: i32,
}

/// Degree to which `temperature` is `label`.
pub open spec fn temperature_membership(label: TemperatureLabel, temperature: int) -> int {
    match label {
        TemperatureLabel::Cold => spec_trapezoidal(temperature, 0, 0, 15_000, 20_000),
        TemperatureLabel::Mild => spec_triangular(temperature, 15_000, 22_500, 30_000),
        TemperatureLabel::Hot => spec_trapezoidal(temperature, 25_000, 30_000, 50_000, 50_000),
    }
}

/// Degree to which `humidity` is `label`.
pub open spec fn humidity_membership(label: HumidityLabel, humidity: int) -> int {
    match label {
        HumidityLabel::Low => spec_trapezoidal(humidity, 0, 0, 30_000, 50_000),
        HumidityLabel::Medium => spec_triangular(humidity, 30_000, 50_000, 70_000),
        HumidityLabel::High => spec_trapezoidal(humidity, 50_000, 70_000, 100_000, 100_000),
    }
}

/// Degree to which `fan_speed` is `label`.
pub open spec fn fan_speed_membership(label: FanSpeedLabel, fan_speed: int) -> int {
    match label {
        FanSpeedLabel::Off => spec_triangular(fan_speed, 0, 0, 20_000),
        FanSpeedLabel::Low => spec_triangular(fan_speed, 0, 25_000, 50_000),
        FanSpeedLabel::Medium => spec_triangular(fan_speed, 25_000, 50_000, 75_000),
        FanSpeedLabel::High => spec_triangular(fan_speed, 50_000, 100_000, 100_000),
    }
}

/// The temperature sets in their fixed order, each with its degree at
/// `temperature`.
pub open spec fn spec_fuzzify_temperature(temperature: int) -> Seq<FuzzySet<TemperatureLabel>> {
    seq![
        FuzzySet {
            label: TemperatureLabel::Cold,
            membership: temperature_membership(TemperatureLabel::Cold, temperature) as u64,
        },
        FuzzySet {
            label: TemperatureLabel::Mild,
            membership: temperature_membership(TemperatureLabel::Mild, temperature) as u64,
        },
        FuzzySet {
            label: TemperatureLabel::Hot,
            membership: temperature_membership(TemperatureLabel::Hot, temperature) as u64,
        },
    ]
}

/// The humidity sets in their fixed order, each with its degree at
/// `humidity`.
pub open spec fn spec_fuzzify_humidity(humidity: int) -> Seq<FuzzySet<HumidityLabel>> {
    seq![
        FuzzySet {
            label: HumidityLabel::Low,
            membership: humidity_membership(HumidityLabel::Low, humidity) as u64,
        },
        FuzzySet {
            label: HumidityLabel::Medium,
            membership: humidity_membership(HumidityLabel::Medium, humidity) as u64,
        },
        FuzzySet {
            label: HumidityLabel::High,
            membership: humidity_membership(HumidityLabel::High, humidity) as u64,
        },
    ]
}

/// The fan speed sets in their fixed order.
pub open spec fn spec_fan_speed_sets() -> Seq<FanSpeedSet> {
    seq![
        FanSpeedSet { label: FanSpeedLabel::Off, a: 0, b: 0, c: 20_000 },
        FanSpeedSet { label: FanSpeedLabel::Low, a: 0, b: 25_000, c: 50_000 },
        FanSpeedSet { label: FanSpeedLabel::Medium, a: 25_000, b: 50_000, c: 75_000 },
        FanSpeedSet { label: FanSpeedLabel::High, a: 50_000, b: 100_000, c: 100_000 },
    ]
}

/// Every temperature has a degree between no and full membership in every
/// temperature set.
pub proof fn lemma_temperature_membership_bounds(label: TemperatureLabel, temperature: int)
    ensures
        0 <= temperature_membership(label, temperature) <= DEGREE_ONE,
{
    lemma_trapezoidal_bounds(temperature, 0, 0, 15_000, 20_000);
    lemma_triangular_bounds(temperature, 15_000, 22_500, 30_000);
    lemma_trapezoidal_bounds(temperature, 25_000, 30_000, 50_000, 50_000);
}

/// Every humidity has a degree between no and full membership in every
/// humidity set.
pub proof fn lemma_humidity_membership_bounds(label: HumidityLabel, humidity: int)
    ensures
        0 <= humidity_membership(label, humidity) <= DEGREE_ONE,
{
    lemma_trapezoidal_bounds(humidity, 0, 0, 30_000, 50_000);
    lemma_triangular_bounds(humidity, 30_000, 50_000, 70_000);
    lemma_trapezoidal_bounds(humidity, 50_000, 70_000, 100_000, 100_000);
}

/// Every fan speed has a degree between no and full membership in every fan
/// speed set.
pub proof fn lemma_fan_speed_membership_bounds(label: FanSpeedLabel, fan_speed: int)
    ensures
        0 <= fan_speed_membership(label, fan_speed) <= DEGREE_ONE,
{
    lemma_triangular_bounds(fan_speed, 0, 0, 20_000);
    lemma_triangular_bounds(fan_speed, 0, 25_000, 50_000);
    lemma_triangular_bounds(fan_speed, 25_000, 50_000, 75_000);
    lemma_triangular_bounds(fan_speed, 50_000, 100_000, 100_000);
}

/// The temperature sets need no rounding: at every whole number of
/// thousandths of a degree their ramps meet a whole step, so that the degree
/// is the exact linear interpolation.
pub proof fn lemma_temperature_membership_exact(label: TemperatureLabel, temperature: int)
    ensures
        temperature_membership(label, temperature) == match label {
            TemperatureLabel::Cold => if 0 < temperature <= 15_000 {
                DEGREE_ONE as int
            } else if 15_000 < temperature < 20_000 {
                1_572_864 * (20_000 - temperature)
            } else {
                0
            },
            TemperatureLabel::Mild => if 15_000 < temperature <= 22_500 {
                1_048_576 * (temperature - 15_000)
            } else if 22_500 < temperature < 30_000 {
                1_048_576 * (30_000 - temperature)
            } else {
                0
            },
            TemperatureLabel::Hot => if 25_000 < temperature < 30_000 {
                1_572_864 * (temperature - 25_000)
            } else if 30_000 <= temperature < 50_000 {
                DEGREE_ONE as int
            } else {
                0
            },
        },
{
}

/// The humidity sets need no rounding: at every whole number of thousandths
/// of a percent their ramps meet a whole step, so that the degree is the
/// exact linear interpolation.
pub proof fn lemma_humidity_membership_exact(label: HumidityLabel, humidity: int)
    ensures
        humidity_membership(label, humidity) == match label {
            HumidityLabel::Low => if 0 < humidity <= 30_000 {
                DEGREE_ONE as int
            } else if 30_000 < humidity < 50_000 {
                393_216 * (50_000 - humidity)
            } else {
                0
            },
            HumidityLabel::Medium => if 30_000 < humidity <= 50_000 {
                393_216 * (humidity - 30_000)
            } else if 50_000 < humidity < 70_000 {
                393_216 * (70_000 - humidity)
            } else {
                0
            },
            HumidityLabel::High => if 50_000 < humidity < 70_000 {
                393_216 * (humidity - 50_000)
            } else if 70_000 <= humidity < 100_000 {
                DEGREE_ONE as int
            } else {
                0
            },
        },
{
}

/// The fan speed sets need no rounding at the whole percents: there their
/// ramps meet a whole step, so that the degree is the exact linear
/// interpolation.
pub proof fn lemma_fan_speed_membership_exact(label: FanSpeedLabel, percent: int)
    ensures
        fan_speed_membership(label, 1_000 * percent) == match label {
            FanSpeedLabel::Off => if 0 < percent < 20 {
                393_216_000 * (20 - percent)
            } else {
                0
            },
            FanSpeedLabel::Low => if 0 < percent <= 25 {
                314_572_800 * percent
            } else if 25 < percent < 50 {
                314_572_800 * (50 - percent)
            } else {
                0
            },
            FanSpeedLabel::Medium => if 25 < percent <= 50 {
                314_572_800 * (percent - 25)
            } else if 50 < percent < 75 {
                314_572_800 * (75 - percent)
            } else {
                0
            },
            FanSpeedLabel::High => if 50 < percent < 100 {
                157_286_400 * (percent - 50)
            } else {
                0
            },
        },
{
}

/// Fuzzifies a temperature: Cold, Mild and Hot, in this order, each with its
/// degree. Temperatures outside the nominal range are evaluated like any
/// other.
pub fn fuzzify_temperature(temp: i32) -> (sets: Vec<FuzzySet<TemperatureLabel>>)
    ensures
        sets@ == spec_fuzzify_temperature(temp as int),
        forall|i: int| 0 <= i < sets@.len() ==> (#[trigger] sets@[i]).membership <= DEGREE_ONE,
{
    let sets: Vec<FuzzySet<TemperatureLabel>> = vec![
        FuzzySet {
            label: TemperatureLabel::Cold,
            membership: trapezoidal(temp, 0, 0, 15_000, 20_000),
        },
        FuzzySet {
            label: TemperatureLabel::Mild,
            membership: triangular(temp, 15_000, 22_500, 30_000),
        },
        FuzzySet {
            label: TemperatureLabel::Hot,
            membership: trapezoidal(temp, 25_000, 30_000, 50_000, 50_000),
        },
    ];
    assert(sets@ =~= spec_fuzzify_temperature(temp as int));
    sets
}

/// Fuzzifies a humidity: Low, Medium and High, in this order, each with its
/// degree. Humidities outside the nominal range are evaluated like any other.
pub fn fuzzify_humidity(humidity: i32) -> (sets: Vec<FuzzySet<HumidityLabel>>)
    ensures
        sets@ == spec_fuzzify_humidity(humidity as int),
        forall|i: int| 0 <= i < sets@.len() ==> (#[trigger] sets@[i]).membership <= DEGREE_ONE,
{
    let sets: Vec<FuzzySet<HumidityLabel>> = vec![
        FuzzySet {
            label: HumidityLabel::Low,
            membership: trapezoidal(humidity, 0, 0, 30_000, 50_000),
        },
        FuzzySet {
            label: HumidityLabel::Medium,
            membership: triangular(humidity, 30_000, 50_000, 70_000),
        },
        FuzzySet {
            label: HumidityLabel::High,
            membership: trapezoidal(humidity, 50_000, 70_000, 100_000, 100_000),
        },
    ];
    assert(sets@ =~= spec_fuzzify_humidity(humidity as int));
    sets
}

/// The fan speed sets: Off, Low, Medium and High, in this order.
pub fn fan_speed_sets() -> (sets: Vec<FanSpeedSet>)
    ensures
        sets@ == spec_fan_speed_sets(),
{
    let sets: Vec<FanSpeedSet> = vec![
        FanSpeedSet { label: FanSpeedLabel::Off, a: 0, b: 0, c: 20_000 },
        FanSpeedSet { label: FanSpeedLabel::Low, a: 0, b: 25_000, c: 50_000 },
        FanSpeedSet { label: FanSpeedLabel::Medium, a: 25_000, b: 50_000, c: 75_000 },
        FanSpeedSet { label: FanSpeedLabel::High, a: 50_000, b: 100_000, c: 100_000 },
    ];
    assert(sets@ =~= spec_fan_speed_sets());
    sets
}

} // verus!
