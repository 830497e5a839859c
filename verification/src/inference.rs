//! Rule firing: how strongly each rule applies to a fuzzified temperature
//! and humidity.

use crate::rules::FuzzyRule;
use crate::variables::{FanSpeedLabel, FuzzySet, HumidityLabel, TemperatureLabel};
use vstd::prelude::*;

verus! {

/// The degree that `sets` gives for `label`: that of the first set with this
/// label, and no membership where there is none.
pub open spec fn degree_of<L>(sets: Seq<FuzzySet<L>>, label: L) -> int
    decreases sets.len(),
{
    if sets.len() == 0 {
        0
    } else if sets.first().label == label {
        sets.first().membership as int
    } else {
        degree_of(sets.drop_first(), label)
    }
}

/// Strength of a rule: the smaller of the degrees of its two conditions.
pub open spec fn rule_strength(
    temp_sets: Seq<FuzzySet<TemperatureLabel>>,
    humidity_sets: Seq<FuzzySet<HumidityLabel>>,
    rule: FuzzyRule,
) -> int {
    let temperature: int = degree_of(temp_sets, rule.temp_condition);
    let humidity: int = degree_of(humidity_sets, rule.humidity_condition);
    if temperature <= humidity {
        temperature
    } else {
        humidity
    }
}

/// The firing result: for each rule of positive strength, in the order of
/// `rules`, its output set and its strength. Rules of zero strength leave no
/// entry, and entries for the same output set are kept apart.
pub open spec fn spec_apply_rules(
    temp_sets: Seq<FuzzySet<TemperatureLabel>>,
    humidity_sets: Seq<FuzzySet<HumidityLabel>>,
    rules: Seq<FuzzyRule>,
) -> Seq<(FanSpeedLabel, u64)>
    decreases rules.len(),
{
    if rules.len() == 0 {
        Seq::empty()
    } else {
        let earlier = spec_apply_rules(temp_sets, humidity_sets, rules.drop_last());
        let strength: int = rule_strength(temp_sets, humidity_sets, rules.last());
        if strength > 0 {
            earlier.push((rules.last().fan_speed_output, strength as u64))
        } else {
            earlier
        }
    }
}

/// The degree that a list of sets gives for a label is zero or the
/// membership of one of its sets with that label, and so within any bound on
/// the memberships.
pub proof fn lemma_degree_of_bounds<L>(sets: Seq<FuzzySet<L>>, label: L, bound: int)
    requires
        0 <= bound,
        forall|i: int| 0 <= i < sets.len() ==> (#[trigger] sets[i]).membership <= bound,
    ensures
        0 <= degree_of(sets, label) <= bound,
        degree_of(sets, label) == 0 || exists|i: int|
            0 <= i < sets.len() && (#[trigger] sets[i]).label == label && sets[i].membership
                == degree_of(sets, label),
    decreases sets.len(),
{
    if sets.len() > 0 {
        assert(sets.first() == sets[0]);
        let rest = sets.drop_first();
        assert forall|i: int| 0 <= i < rest.len() implies (#[trigger] rest[i]).membership
            <= bound by {
            assert(rest[i] == sets[i + 1]);
        }
        lemma_degree_of_bounds(rest, label, bound);
        if sets.first().label != label && degree_of(sets, label) != 0 {
            let i: int = choose|i: int|
                0 <= i < rest.len() && (#[trigger] rest[i]).label == label && rest[i].membership
                    == degree_of(rest, label);
            assert(sets[i + 1] == rest[i]);
        }
    }
}

/// The rule that left the `k`-th entry of a firing result: its place in
/// `rules`.
pub open spec fn entry_source(
    temp_sets: Seq<FuzzySet<TemperatureLabel>>,
    humidity_sets: Seq<FuzzySet<HumidityLabel>>,
    rules: Seq<FuzzyRule>,
    k: int,
) -> int
    decreases rules.len(),
{
    if rules.len() == 0 {
        0
    } else if k < spec_apply_rules(temp_sets, humidity_sets, rules.drop_last()).len() {
        entry_source(temp_sets, humidity_sets, rules.drop_last(), k)
    } else {
        rules.len() - 1
    }
}

/// Every entry of a firing result comes from a rule of positive strength and
/// holds that rule's output set and strength.
pub proof fn lemma_entry_source(
    temp_sets: Seq<FuzzySet<TemperatureLabel>>,
    humidity_sets: Seq<FuzzySet<HumidityLabel>>,
    rules: Seq<FuzzyRule>,
    k: int,
)
    requires
        0 <= k < spec_apply_rules(temp_sets, humidity_sets, rules).len(),
    ensures
        0 <= entry_source(temp_sets, humidity_sets, rules, k) < rules.len(),
        rule_strength(
            temp_sets,
            humidity_sets,
            rules[entry_source(temp_sets, humidity_sets, rules, k)],
        ) > 0,
        spec_apply_rules(temp_sets, humidity_sets, rules)[k] == (
            rules[entry_source(temp_sets, humidity_sets, rules, k)].fan_speed_output,
            rule_strength(
                temp_sets,
                humidity_sets,
                rules[entry_source(temp_sets, humidity_sets, rules, k)],
            ) as u64,
        ),
    decreases rules.len(),
{
    if rules.len() > 0 {
        let earlier_rules = rules.drop_last();
        let earlier = spec_apply_rules(temp_sets, humidity_sets, earlier_rules);
        if k < earlier.len() {
            lemma_entry_source(temp_sets, humidity_sets, earlier_rules, k);
            let i: int = entry_source(temp_sets, humidity_sets, earlier_rules, k);
            assert(earlier_rules[i] == rules[i]);
        } else {
            assert(rules.last() == rules[rules.len() - 1]);
        }
    }
}

/// The entries of a firing result keep the order of the rules that left
/// them: a later entry comes from a later rule.
pub proof fn lemma_entries_keep_rule_order(
    temp_sets: Seq<FuzzySet<TemperatureLabel>>,
    humidity_sets: Seq<FuzzySet<HumidityLabel>>,
    rules: Seq<FuzzyRule>,
    k1: int,
    k2: int,
)
    requires
        0 <= k1 < k2 < spec_apply_rules(temp_sets, humidity_sets, rules).len(),
    ensures
        entry_source(temp_sets, humidity_sets, rules, k1) < entry_source(
            temp_sets,
            humidity_sets,
            rules,
            k2,
        ),
    decreases rules.len(),
{
    if rules.len() > 0 {
        let earlier_rules = rules.drop_last();
        let earlier = spec_apply_rules(temp_sets, humidity_sets, earlier_rules);
        if k2 < earlier.len() {
            lemma_entries_keep_rule_order(temp_sets, humidity_sets, earlier_rules, k1, k2);
        } else {
            lemma_entry_source(temp_sets, humidity_sets, earlier_rules, k1);
        }
    }
}

/// A firing result is no longer than the rules, every strength in it is
/// positive, and none exceeds a bound on the memberships.
pub proof fn lemma_apply_rules_entries(
    temp_sets: Seq<FuzzySet<TemperatureLabel>>,
    humidity_sets: Seq<FuzzySet<HumidityLabel>>,
    rules: Seq<FuzzyRule>,
    bound: int,
)
    requires
        0 <= bound,
        forall|i: int|
            0 <= i < temp_sets.len() ==> (#[trigger] temp_sets[i]).membership <= bound,
        forall|i: int|
            0 <= i < humidity_sets.len() ==> (#[trigger] humidity_sets[i]).membership <= bound,
    ensures
        spec_apply_rules(temp_sets, humidity_sets, rules).len() <= rules.len(),
        forall|k: int|
            0 <= k < spec_apply_rules(temp_sets, humidity_sets, rules).len() ==> 0 < (
            #[trigger] spec_apply_rules(temp_sets, humidity_sets, rules)[k]).1 <= bound,
    decreases rules.len(),
{
    if rules.len() > 0 {
        lemma_apply_rules_entries(temp_sets, humidity_sets, rules.drop_last(), bound);
        lemma_degree_of_bounds(temp_sets, rules.last().temp_condition, bound);
        lemma_degree_of_bounds(humidity_sets, rules.last().humidity_condition, bound);
        lemma_degree_of_bounds(temp_sets, rules.last().temp_condition, u64::MAX as int);
        lemma_degree_of_bounds(humidity_sets, rules.last().humidity_condition, u64::MAX as int);
        let earlier = spec_apply_rules(temp_sets, humidity_sets, rules.drop_last());
        let all = spec_apply_rules(temp_sets, humidity_sets, rules);
        assert forall|k: int| 0 <= k < all.len() implies 0 < (#[trigger] all[k]).1 <= bound by {
            if k < earlier.len() {
                assert(all[k] == earlier[k]);
            }
        }
    }
}

/// Where no rule has positive strength nothing fires.
pub proof fn lemma_nothing_fires(
    temp_sets: Seq<FuzzySet<TemperatureLabel>>,
    humidity_sets: Seq<FuzzySet<HumidityLabel>>,
    rules: Seq<FuzzyRule>,
)
    requires
        forall|i: int|
            0 <= i < rules.len() ==> rule_strength(temp_sets, humidity_sets, #[trigger] rules[i])
                <= 0,
    ensures
        spec_apply_rules(temp_sets, humidity_sets, rules) == Seq::<(FanSpeedLabel, u64)>::empty(),
    decreases rules.len(),
{
    if rules.len() > 0 {
        let earlier = rules.drop_last();
        assert forall|i: int| 0 <= i < earlier.len() implies rule_strength(
            temp_sets,
            humidity_sets,
            #[trigger] earlier[i],
        ) <= 0 by {
            assert(earlier[i] == rules[i]);
        }
        lemma_nothing_fires(temp_sets, humidity_sets, earlier);
        assert(rules.last() == rules[rules.len() - 1]);
    }
}

/// A rule of positive strength leaves an entry with its output set and its
/// strength.
pub proof fn lemma_strong_rule_fires(
    temp_sets: Seq<FuzzySet<TemperatureLabel>>,
    humidity_sets: Seq<FuzzySet<HumidityLabel>>,
    rules: Seq<FuzzyRule>,
    i: int,
)
    requires
        0 <= i < rules.len(),
        rule_strength(temp_sets, humidity_sets, rules[i]) > 0,
    ensures
        spec_apply_rules(temp_sets, humidity_sets, rules).contains(
            (
                rules[i].fan_speed_output,
                rule_strength(temp_sets, humidity_sets, rules[i]) as u64,
            ),
        ),
    decreases rules.len(),
{
    let all = spec_apply_rules(temp_sets, humidity_sets, rules);
    let earlier = spec_apply_rules(temp_sets, humidity_sets, rules.drop_last());
    let entry = (
        rules[i].fan_speed_output,
        rule_strength(temp_sets, humidity_sets, rules[i]) as u64,
    );
    if i == rules.len() - 1 {
        assert(all[all.len() - 1] == entry);
    } else {
        assert(rules.drop_last()[i] == rules[i]);
        lemma_strong_rule_fires(temp_sets, humidity_sets, rules.drop_last(), i);
        let k: int = choose|k: int| 0 <= k < earlier.len() && earlier[k] == entry;
        assert(all[k] == entry);
    }
}

/// Looks up the degree of a temperature set.
fn temperature_degree(sets: &[FuzzySet<TemperatureLabel>], label: TemperatureLabel) -> (degree:
    u64)
    ensures
        degree == degree_of(sets@, label),
{
    let mut i: usize = 0;
    assert(sets@.subrange(0, sets@.len() as int) =~= sets@);
    while i < sets.len()
        invariant
            i <= sets.len(),
            degree_of(sets@, label) == degree_of(sets@.subrange(i as int, sets@.len() as int), label),
        decreases sets.len() - i,
    {
        let ghost rest = sets@.subrange(i as int, sets@.len() as int);
        assert(rest.first() == sets@[i as int]);
        if sets[i].label == label {
            return sets[i].membership;
        }
        assert(rest.drop_first() =~= sets@.subrange(i + 1, sets@.len() as int));
        i += 1;
    }
    0
}

/// Looks up the degree of a humidity set.
fn humidity_degree(sets: &[FuzzySet<HumidityLabel>], label: HumidityLabel) -> (degree: u64)
    ensures
        degree == degree_of(sets@, label),
{
    let mut i: usize = 0;
    assert(sets@.subrange(0, sets@.len() as int) =~= sets@);
    while i < sets.len()
        invariant
            i <= sets.len(),
            degree_of(sets@, label) == degree_of(sets@.subrange(i as int, sets@.len() as int), label),
        decreases sets.len() - i,
    {
        let ghost rest = sets@.subrange(i as int, sets@.len() as int);
        assert(rest.first() == sets@[i as int]);
        if sets[i].label == label {
            return sets[i].membership;
        }
        assert(rest.drop_first() =~= sets@.subrange(i + 1, sets@.len() as int));
        i += 1;
    }
    0
}

/// Fires every rule against a fuzzified temperature and humidity. A rule's
/// strength is the smaller of the degrees of its two conditions, a condition
/// whose set is missing counting as zero. The result lists, in rule order,
/// the output set and strength of each rule whose strength is positive.
pub fn apply_rules(
    temp_sets: &[FuzzySet<TemperatureLabel>],
    humidity_sets: &[FuzzySet<HumidityLabel>],
    rules: &[FuzzyRule],
) -> (output_memberships: Vec<(FanSpeedLabel, u64)>)
    ensures
        output_memberships@ == spec_apply_rules(temp_sets@, humidity_sets@, rules@),
{
    let mut output_memberships: Vec<(FanSpeedLabel, u64)> = Vec::new();
    let mut i: usize = 0;
    while i < rules.len()
        invariant
            i <= rules.len(),
            output_memberships@ == spec_apply_rules(
                temp_sets@,
                humidity_sets@,
                rules@.take(i as int),
            ),
        decreases rules.len() - i,
    {
        let rule: &FuzzyRule = &rules[i];
        let temp_membership: u64 = temperature_degree(temp_sets, rule.temp_condition);
        let humidity_membership: u64 = humidity_degree(humidity_sets, rule.humidity_condition);
        let rule_strength: u64 = if temp_membership <= humidity_membership {
            temp_membership
        } else {
            humidity_membership
        };
        proof {
            let upto = rules@.take(i + 1);
            assert(upto.drop_last() =~= rules@.take(i as int));
            assert(upto.last() == rules@[i as int]);
        }
        if rule_strength > 0 {
            output_memberships.push((rule.fan_speed_output, rule_strength));
        }
        i += 1;
    }
    assert(rules@.take(rules@.len() as int) =~= rules@);
    output_memberships
}

} // verus!
