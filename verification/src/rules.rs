//! The rule base: which fan speed follows from which temperature and
//! humidity.

use crate::variables::{FanSpeedLabel, HumidityLabel, TemperatureLabel};
use vstd::prelude::*;

verus! {

/// IF the temperature is `temp_condition` AND the humidity is
/// `humidity_condition` THEN the fan speed is `fan_speed_output`.
#[derive(Clone, Copy, Debug, PartialEq, Eq, Structural)]
pub struct FuzzyRule {
    pub temp_condition: TemperatureLabel,
    pub humidity_condition: HumidityLabel,
    pub fan_speed_output: FanSpeedLabel,
}

/// The fan speed that the rule base prescribes for a temperature set and a
/// humidity set.
pub open spec fn rule_output(temperature: TemperatureLabel, humidity: HumidityLabel)
    -> FanSpeedLabel {
    match (temperature, humidity) {
        (TemperatureLabel::Cold, HumidityLabel::Low) => FanSpeedLabel::Off,
        (TemperatureLabel::Cold, HumidityLabel::Medium) => FanSpeedLabel::Off,
        (TemperatureLabel::Cold, HumidityLabel::High) => FanSpeedLabel::Low,
        (TemperatureLabel::Mild, HumidityLabel::Low) => FanSpeedLabel::Low,
        (TemperatureLabel::Mild, HumidityLabel::Medium) => FanSpeedLabel::Medium,
        (TemperatureLabel::Mild, HumidityLabel::High) => FanSpeedLabel::Medium,
        (TemperatureLabel::Hot, HumidityLabel::Low) => FanSpeedLabel::Medium,
        (TemperatureLabel::Hot, HumidityLabel::Medium) => FanSpeedLabel::High,
        (TemperatureLabel::Hot, HumidityLabel::High) => FanSpeedLabel::High,
    }
}

/// The rule that the rule base holds for a temperature set and a humidity
/// set.
pub open spec fn rule_for(temperature: TemperatureLabel, humidity: HumidityLabel) -> FuzzyRule {
    FuzzyRule {
        temp_condition: temperature,
        humidity_condition: humidity,
        fan_speed_output: rule_output(temperature, humidity),
    }
}

/// Where the rule for a temperature set and a humidity set stands in the
/// rule base: the temperatures from Cold to Hot, and for each of them the
/// humidities from Low to High.
pub open spec fn rule_position(temperature: TemperatureLabel, humidity: HumidityLabel) -> int {
    let row: int = match temperature {
        TemperatureLabel::Cold => 0,
        TemperatureLabel::Mild => 1,
        TemperatureLabel::Hot => 2,
    };
    let column: int = match humidity {
        HumidityLabel::Low => 0,
        HumidityLabel::Medium => 1,
        HumidityLabel::High => 2,
    };
    3 * row + column
}

/// The rule base, in its fixed order.
pub open spec fn spec_create_rules() -> Seq<FuzzyRule> {
    seq![
        rule_for(TemperatureLabel::Cold, HumidityLabel::Low),
        rule_for(TemperatureLabel::Cold, HumidityLabel::Medium),
        rule_for(TemperatureLabel::Cold, HumidityLabel::High),
        rule_for(TemperatureLabel::Mild, HumidityLabel::Low),
        rule_for(TemperatureLabel::Mild, HumidityLabel::Medium),
        rule_for(TemperatureLabel::Mild, HumidityLabel::High),
        rule_for(TemperatureLabel::Hot, HumidityLabel::Low),
        rule_for(TemperatureLabel::Hot, HumidityLabel::Medium),
        rule_for(TemperatureLabel::Hot, HumidityLabel::High),
    ]
}

/// The rule base covers every pairing of a temperature set with a humidity
/// set: the rule for the pair stands at the pair's position.
pub proof fn lemma_rule_base_covers(temperature: TemperatureLabel, humidity: HumidityLabel)
    ensures
        0 <= rule_position(temperature, humidity) < spec_create_rules().len(),
        spec_create_rules()[rule_position(temperature, humidity)] == rule_for(
            temperature,
            humidity,
        ),
{
}

/// The rule base holds nine rules and no pairing twice: a rule's conditions
/// fix its position.
pub proof fn lemma_rule_base_has_no_duplicates(i: int)
    requires
        0 <= i < spec_create_rules().len(),
    ensures
        spec_create_rules().len() == 9,
        rule_position(spec_create_rules()[i].temp_condition, spec_create_rules()[i].humidity_condition)
            == i,
{
}

/// Builds the rule base.
pub fn create_rules() -> (rules: Vec<FuzzyRule>)
    ensures
        rules@ == spec_create_rules(),
{
    let rules: Vec<FuzzyRule> = vec![
        FuzzyRule {
            temp_condition: TemperatureLabel::Cold,
            humidity_condition: HumidityLabel::Low,
            fan_speed_output: FanSpeedLabel::Off,
        },
        FuzzyRule {
            temp_condition: TemperatureLabel::Cold,
            humidity_condition: HumidityLabel::Medium,
            fan_speed_output: FanSpeedLabel::Off,
        },
        FuzzyRule {
            temp_condition: TemperatureLabel::Cold,
            humidity_condition: HumidityLabel::High,
            fan_speed_output: FanSpeedLabel::Low,
        },
        FuzzyRule {
            temp_condition: TemperatureLabel::Mild,
            humidity_condition: HumidityLabel::Low,
            fan_speed_output: FanSpeedLabel::Low,
        },
        FuzzyRule {
            temp_condition: TemperatureLabel::Mild,
            humidity_condition: HumidityLabel::Medium,
            fan_speed_output: FanSpeedLabel::Medium,
        },
        FuzzyRule {
            temp_condition: TemperatureLabel::Mild,
            humidity_condition: HumidityLabel::High,
            fan_speed_output: FanSpeedLabel::Medium,
        },
        FuzzyRule {
            temp_condition: TemperatureLabel::Hot,
            humidity_condition: HumidityLabel::Low,
            fan_speed_output: FanSpeedLabel::Medium,
        },
        FuzzyRule {
            temp_condition: TemperatureLabel::Hot,
            humidity_condition: HumidityLabel::Medium,
            fan_speed_output: FanSpeedLabel::High,
        },
        FuzzyRule {
            temp_condition: TemperatureLabel::Hot,
            humidity_condition: HumidityLabel::High,
            fan_speed_output: FanSpeedLabel::High,
        },
    ];
    assert(rules@ =~= spec_create_rules());
    rules
}

} // verus!
