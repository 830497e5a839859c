//! The controller: from a temperature and a humidity to a fan speed.

use crate::defuzzification::{
    defuzzify, lemma_defuzzify_in_range, lemma_defuzzify_nothing_fired, spec_defuzzify,
    FAN_SPEED_MAX,
};
use crate::inference::{
    apply_rules, degree_of, lemma_apply_rules_entries, lemma_nothing_fires, rule_strength,
    spec_apply_rules,
};
use crate::membership::DEGREE_ONE;
use crate::rules::{create_rules, spec_create_rules, FuzzyRule};
use crate::variables::{
    fuzzify_humidity, fuzzify_temperature, humidity_membership, lemma_humidity_membership_bounds,
    lemma_temperature_membership_bounds, spec_fuzzify_humidity, spec_fuzzify_temperature,
    temperature_membership, FanSpeedLabel, FuzzySet, HumidityLabel, TemperatureLabel,
};
use vstd::prelude::*;

verus! {

/// What fires at a temperature and a humidity under the rule base.
pub open spec fn spec_fire(temperature: int, humidity: int) -> Seq<(FanSpeedLabel, u64)> {
    spec_apply_rules(
        spec_fuzzify_temperature(temperature),
        spec_fuzzify_humidity(humidity),
        spec_create_rules(),
    )
}

/// The fan speed for a temperature and a humidity: both are fuzzified, the
/// rule base is fired on the result, and what fired is defuzzified.
pub open spec fn spec_compute(temperature: int, humidity: int) -> int {
    spec_defuzzify(spec_fire(temperature, humidity))
}

/// A fuzzified temperature gives each temperature set its own degree.
pub proof fn lemma_fuzzified_temperature(label: TemperatureLabel, temperature: int)
    ensures
        degree_of(spec_fuzzify_temperature(temperature), label) == temperature_membership(
            label,
            temperature,
        ),
{
    lemma_temperature_membership_bounds(TemperatureLabel::Cold, temperature);
    lemma_temperature_membership_bounds(TemperatureLabel::Mild, temperature);
    lemma_temperature_membership_bounds(TemperatureLabel::Hot, temperature);
    let sets = spec_fuzzify_temperature(temperature);
    let after_cold = sets.drop_first();
    let after_mild = after_cold.drop_first();
    assert(sets.first() == sets[0]);
    assert(after_cold.first() == sets[1]);
    assert(after_mild.first() == sets[2]);
    reveal_with_fuel(degree_of, 4);
}

/// A fuzzified humidity gives each humidity set its own degree.
pub proof fn lemma_fuzzified_humidity(label: HumidityLabel, humidity: int)
    ensures
        degree_of(spec_fuzzify_humidity(humidity), label) == humidity_membership(label, humidity),
{
    lemma_humidity_membership_bounds(HumidityLabel::Low, humidity);
    lemma_humidity_membership_bounds(HumidityLabel::Medium, humidity);
    lemma_humidity_membership_bounds(HumidityLabel::High, humidity);
    let sets = spec_fuzzify_humidity(humidity);
    let after_low = sets.drop_first();
    let after_medium = after_low.drop_first();
    assert(sets.first() == sets[0]);
    assert(after_low.first() == sets[1]);
    assert(after_medium.first() == sets[2]);
    reveal_with_fuel(degree_of, 4);
}

/// Under the built-in sets a rule is as strong as the weaker of its two
/// conditions holds of the crisp inputs.
pub proof fn lemma_rule_strength(rule: FuzzyRule, temperature: int, humidity: int)
    ensures
        rule_strength(
            spec_fuzzify_temperature(temperature),
            spec_fuzzify_humidity(humidity),
            rule,
        ) == vstd::math::min(
            temperature_membership(rule.temp_condition, temperature),
            humidity_membership(rule.humidity_condition, humidity),
        ),
{
    lemma_fuzzified_temperature(rule.temp_condition, temperature);
    lemma_fuzzified_humidity(rule.humidity_condition, humidity);
}

/// The fan speed lies in the fan speed range for every temperature and
/// humidity, inside their nominal ranges or not.
pub proof fn lemma_compute_in_range(temperature: int, humidity: int)
    ensures
        0 <= spec_compute(temperature, humidity) <= FAN_SPEED_MAX,
{
    lemma_defuzzify_in_range(spec_fire(temperature, humidity));
}

/// At most nine entries fire, each with a positive strength of at most full
/// membership.
pub proof fn lemma_fire_entries(temperature: int, humidity: int)
    ensures
        spec_fire(temperature, humidity).len() <= 9,
        forall|k: int|
            0 <= k < spec_fire(temperature, humidity).len() ==> 0 < (#[trigger] spec_fire(
                temperature,
                humidity,
            )[k]).1 <= DEGREE_ONE,
{
    let temp_sets = spec_fuzzify_temperature(temperature);
    let humidity_sets = spec_fuzzify_humidity(humidity);
    lemma_temperature_membership_bounds(TemperatureLabel::Cold, temperature);
    lemma_temperature_membership_bounds(TemperatureLabel::Mild, temperature);
    lemma_temperature_membership_bounds(TemperatureLabel::Hot, temperature);
    lemma_humidity_membership_bounds(HumidityLabel::Low, humidity);
    lemma_humidity_membership_bounds(HumidityLabel::Medium, humidity);
    lemma_humidity_membership_bounds(HumidityLabel::High, humidity);
    lemma_apply_rules_entries(temp_sets, humidity_sets, spec_create_rules(), DEGREE_ONE as int);
}

/// Where no rule fires the fan speed is zero.
pub proof fn lemma_compute_nothing_fired(temperature: int, humidity: int)
    requires
        spec_fire(temperature, humidity).len() == 0,
    ensures
        spec_compute(temperature, humidity) == 0,
{
    assert(spec_fire(temperature, humidity) =~= Seq::<(FanSpeedLabel, u64)>::empty());
    lemma_defuzzify_nothing_fired();
}

/// At and beyond the ends of the temperature range no temperature set has a
/// member, so that no rule fires and the fan speed is zero.
pub proof fn lemma_compute_outside_temperature_range(temperature: int, humidity: int)
    requires
        temperature <= 0 || temperature >= 50_000,
    ensures
        spec_fire(temperature, humidity).len() == 0,
        spec_compute(temperature, humidity) == 0,
{
    let rules = spec_create_rules();
    assert forall|i: int| 0 <= i < rules.len() implies rule_strength(
        spec_fuzzify_temperature(temperature),
        spec_fuzzify_humidity(humidity),
        #[trigger] rules[i],
    ) <= 0 by {
        lemma_rule_strength(rules[i], temperature, humidity);
        lemma_humidity_membership_bounds(rules[i].humidity_condition, humidity);
    }
    lemma_nothing_fires(
        spec_fuzzify_temperature(temperature),
        spec_fuzzify_humidity(humidity),
        rules,
    );
    lemma_compute_nothing_fired(temperature, humidity);
}

/// At and beyond the ends of the humidity range no humidity set has a member,
/// so that no rule fires and the fan speed is zero.
pub proof fn lemma_compute_outside_humidity_range(temperature: int, humidity: int)
    requires
        humidity <= 0 || humidity >= 100_000,
    ensures
        spec_fire(temperature, humidity).len() == 0,
        spec_compute(temperature, humidity) == 0,
{
    let rules = spec_create_rules();
    assert forall|i: int| 0 <= i < rules.len() implies rule_strength(
        spec_fuzzify_temperature(temperature),
        spec_fuzzify_humidity(humidity),
        #[trigger] rules[i],
    ) <= 0 by {
        lemma_rule_strength(rules[i], temperature, humidity);
        lemma_temperature_membership_bounds(rules[i].temp_condition, temperature);
    }
    lemma_nothing_fires(
        spec_fuzzify_temperature(temperature),
        spec_fuzzify_humidity(humidity),
        rules,
    );
    lemma_compute_nothing_fired(temperature, humidity);
}

/// A fuzzy controller for the fan. It holds the rule base, which never
/// changes.
pub struct FuzzyController {
    rules: Vec<FuzzyRule>,
}

impl View for FuzzyController {
    type V = Seq<FuzzyRule>;

    /// The rules that the controller holds.
    closed spec fn view(&self) -> Seq<FuzzyRule> {
        self.rules@
    }
}

impl FuzzyController {
    #[verifier::type_invariant]
    spec fn holds_rule_base(self) -> bool {
        self.rules@ == spec_create_rules()
    }

    /// A controller with the rule base.
    pub fn new() -> (controller: Self)
        ensures
            controller@ == spec_create_rules(),
    {
        FuzzyController { rules: create_rules() }
    }

    /// The rule base.
    pub fn rules(&self) -> (rules: &Vec<FuzzyRule>)
        ensures
            rules@ == self@,
            rules@ == spec_create_rules(),
    {
        proof {
            use_type_invariant(self);
        }
        &self.rules
    }

    /// Computes the fan speed for a temperature and a humidity. The result
    /// depends on these two alone.
    pub fn compute(&self, temperature: i32, humidity: i32) -> (fan_speed: i32)
        ensures
            fan_speed == spec_compute(temperature as int, humidity as int),
            0 <= fan_speed <= FAN_SPEED_MAX,
    {
        proof {
            use_type_invariant(self);
        }
        let temp_sets: Vec<FuzzySet<TemperatureLabel>> = fuzzify_temperature(temperature);
        let humidity_sets: Vec<FuzzySet<HumidityLabel>> = fuzzify_humidity(humidity);
        let output_memberships: Vec<(FanSpeedLabel, u64)> = apply_rules(
            temp_sets.as_slice(),
            humidity_sets.as_slice(),
            self.rules.as_slice(),
        );
        defuzzify(output_memberships)
    }
}

} // verus!
