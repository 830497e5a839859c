//! Defuzzification: the center of area of the aggregated fan speed set,
//! summed over equally spaced sample points.

use crate::membership::{triangular, DEGREE_ONE};
use crate::variables::{
    fan_speed_membership, fan_speed_sets, lemma_fan_speed_membership_bounds, spec_fan_speed_sets,
    FanSpeedLabel, FanSpeedSet,
};
use vstd::prelude::*;

verus! {

/// Upper end of the fan speed range, which starts at zero.
pub const FAN_SPEED_MAX: i32 = 100_000;

/// Number of equal steps into which the fan speed range is cut. The range is
/// sampled at both ends of every step.
pub const RESOLUTION: u64 = 100;

/// The `i`-th sample point of the fan speed range.
pub open spec fn sample_point(i: int) -> int {
    i * FAN_SPEED_MAX as int / RESOLUTION as int
}

/// What one entry of a firing result contributes at fan speed `x`: the
/// membership of `x` in the entry's set, cut off at the entry's strength.
pub open spec fn implied_membership(entry: (FanSpeedLabel, u64), x: int) -> int {
    let set_membership: int = fan_speed_membership(entry.0, x);
    if entry.1 <= set_membership {
        entry.1 as int
    } else {
        set_membership
    }
}

/// Membership of fan speed `x` in the aggregated output set: the largest
/// contribution of any entry, and zero where there is no entry.
pub open spec fn aggregated_membership(firing: Seq<(FanSpeedLabel, u64)>, x: int) -> int
    decreases firing.len(),
{
    if firing.len() == 0 {
        0
    } else {
        let earlier: int = aggregated_membership(firing.drop_last(), x);
        let latest: int = implied_membership(firing.last(), x);
        if latest > earlier {
            latest
        } else {
            earlier
        }
    }
}

/// Sum of the aggregated memberships at the first `samples` sample points.
pub open spec fn total_membership(firing: Seq<(FanSpeedLabel, u64)>, samples: nat) -> int
    decreases samples,
{
    if samples == 0 {
        0
    } else {
        total_membership(firing, (samples - 1) as nat) + aggregated_membership(
            firing,
            sample_point(samples - 1),
        )
    }
}

/// Sum, over the first `samples` sample points, of the point times its
/// aggregated membership.
pub open spec fn total_moment(firing: Seq<(FanSpeedLabel, u64)>, samples: nat) -> int
    decreases samples,
{
    if samples == 0 {
        0
    } else {
        total_moment(firing, (samples - 1) as nat) + sample_point(samples - 1)
            * aggregated_membership(firing, sample_point(samples - 1))
    }
}

/// The crisp fan speed of a firing result: the moment of the aggregated set
/// divided by its total membership, rounded down, and zero where the total
/// membership is zero.
pub open spec fn spec_defuzzify(firing: Seq<(FanSpeedLabel, u64)>) -> int {
    let denominator: int = total_membership(firing, (RESOLUTION + 1) as nat);
    if denominator == 0 {
        0
    } else {
        total_moment(firing, (RESOLUTION + 1) as nat) / denominator
    }
}

/// An entry contributes no more than its strength and no more than the
/// membership in its set.
pub proof fn lemma_implied_membership_bounds(entry: (FanSpeedLabel, u64), x: int)
    ensures
        0 <= implied_membership(entry, x) <= entry.1,
        implied_membership(entry, x) <= fan_speed_membership(entry.0, x) <= DEGREE_ONE,
{
    lemma_fan_speed_membership_bounds(entry.0, x);
}

/// The aggregated membership is the maximum of the entries' contributions:
/// no entry contributes more, and some entry contributes as much unless the
/// aggregated membership is zero.
pub proof fn lemma_aggregated_is_maximum(firing: Seq<(FanSpeedLabel, u64)>, x: int)
    ensures
        0 <= aggregated_membership(firing, x) <= DEGREE_ONE,
        forall|k: int|
            0 <= k < firing.len() ==> implied_membership(#[trigger] firing[k], x)
                <= aggregated_membership(firing, x),
        aggregated_membership(firing, x) == 0 || exists|k: int|
            0 <= k < firing.len() && implied_membership(#[trigger] firing[k], x)
                == aggregated_membership(firing, x),
    decreases firing.len(),
{
    if firing.len() > 0 {
        let earlier = firing.drop_last();
        lemma_aggregated_is_maximum(earlier, x);
        lemma_implied_membership_bounds(firing.last(), x);
        let top: int = aggregated_membership(firing, x);
        assert forall|k: int| 0 <= k < firing.len() implies implied_membership(
            #[trigger] firing[k],
            x,
        ) <= top by {
            if k < earlier.len() {
                assert(firing[k] == earlier[k]);
            }
        }
        if top != 0 {
            if top == implied_membership(firing.last(), x) {
                assert(firing[firing.len() - 1] == firing.last());
            } else {
                let k: int = choose|k: int|
                    0 <= k < earlier.len() && implied_membership(#[trigger] earlier[k], x)
                        == aggregated_membership(earlier, x);
                assert(firing[k] == earlier[k]);
            }
        }
    }
}

/// An entry of zero strength changes nothing: to drop the rules that do not
/// fire and to keep them with strength zero gives the same aggregated set.
pub proof fn lemma_zero_strength_adds_nothing(
    firing: Seq<(FanSpeedLabel, u64)>,
    label: FanSpeedLabel,
    x: int,
)
    ensures
        aggregated_membership(firing.push((label, 0u64)), x) == aggregated_membership(firing, x),
{
    let extended = firing.push((label, 0u64));
    assert(extended.drop_last() =~= firing);
    lemma_fan_speed_membership_bounds(label, x);
    lemma_aggregated_is_maximum(firing, x);
}

/// The sample points run from zero to the upper end of the range in equal
/// steps.
pub proof fn lemma_sample_point_range(i: int)
    requires
        0 <= i <= RESOLUTION,
    ensures
        sample_point(i) == i * 1_000,
        0 <= sample_point(i) <= FAN_SPEED_MAX,
{
}

/// The moment of the aggregated set is at most the upper end of the range
/// times its total membership, and neither is negative.
pub proof fn lemma_totals_bounds(firing: Seq<(FanSpeedLabel, u64)>, samples: nat)
    requires
        samples <= RESOLUTION + 1,
    ensures
        0 <= total_membership(firing, samples) <= samples * DEGREE_ONE,
        0 <= total_moment(firing, samples) <= FAN_SPEED_MAX * total_membership(firing, samples),
    decreases samples,
{
    if samples > 0 {
        lemma_totals_bounds(firing, (samples - 1) as nat);
        let x: int = sample_point(samples - 1);
        lemma_sample_point_range(samples - 1);
        lemma_aggregated_is_maximum(firing, x);
        let m: int = aggregated_membership(firing, x);
        assert(0 <= x * m <= FAN_SPEED_MAX * m) by (nonlinear_arith)
            requires
                0 <= x <= FAN_SPEED_MAX,
                0 <= m,
        ;
    }
}

/// The crisp fan speed lies in the fan speed range, whatever fired.
pub proof fn lemma_defuzzify_in_range(firing: Seq<(FanSpeedLabel, u64)>)
    ensures
        0 <= spec_defuzzify(firing) <= FAN_SPEED_MAX,
{
    let samples: nat = (RESOLUTION + 1) as nat;
    lemma_totals_bounds(firing, samples);
    let denominator: int = total_membership(firing, samples);
    let numerator: int = total_moment(firing, samples);
    if denominator != 0 {
        let top: int = FAN_SPEED_MAX as int;
        assert(0 <= numerator / denominator <= top) by (nonlinear_arith)
            requires
                0 <= numerator <= top * denominator,
                0 < denominator,
        ;
    }
}

/// Where no rule fired the aggregated set is empty and the fan speed is
/// zero.
pub proof fn lemma_defuzzify_nothing_fired()
    ensures
        spec_defuzzify(Seq::<(FanSpeedLabel, u64)>::empty()) == 0,
{
    let firing = Seq::<(FanSpeedLabel, u64)>::empty();
    lemma_total_membership_of_nothing(firing, (RESOLUTION + 1) as nat);
}

proof fn lemma_total_membership_of_nothing(firing: Seq<(FanSpeedLabel, u64)>, samples: nat)
    requires
        firing.len() == 0,
    ensures
        total_membership(firing, samples) == 0,
    decreases samples,
{
    if samples > 0 {
        lemma_total_membership_of_nothing(firing, (samples - 1) as nat);
    }
}

/// Membership of `x` in the fan speed set `label`, looked up in the table of
/// fan speed sets.
fn output_membership(fan_sets: &Vec<FanSpeedSet>, label: FanSpeedLabel, x: i32) -> (degree: u64)
    requires
        fan_sets@ == spec_fan_speed_sets(),
    ensures
        degree == fan_speed_membership(label, x as int),
        degree <= DEGREE_ONE,
{
    let mut k: usize = 0;
    while k < fan_sets.len()
        invariant
            k <= fan_sets.len(),
            fan_sets@ == spec_fan_speed_sets(),
            forall|j: int| 0 <= j < k ==> (#[trigger] fan_sets@[j]).label != label,
        decreases fan_sets.len() - k,
    {
        if fan_sets[k].label == label {
            return triangular(x, fan_sets[k].a, fan_sets[k].b, fan_sets[k].c);
        }
        k += 1;
    }
    proof {
        assert(fan_sets@[0].label == FanSpeedLabel::Off);
        assert(fan_sets@[1].label == FanSpeedLabel::Low);
        assert(fan_sets@[2].label == FanSpeedLabel::Medium);
        assert(fan_sets@[3].label == FanSpeedLabel::High);
        assert(false);
    }
    0
}

/// Defuzzifies a firing result by the center of area. At each sample point
/// an entry contributes the membership in its set, cut off at its strength;
/// the aggregated membership is the largest contribution. The result is the
/// sum of point times aggregated membership, divided by the sum of the
/// aggregated memberships and rounded down; it is zero where that sum is
/// zero.
pub fn defuzzify(output_memberships: Vec<(FanSpeedLabel, u64)>) -> (fan_speed: i32)
    ensures
        fan_speed == spec_defuzzify(output_memberships@),
        0 <= fan_speed <= FAN_SPEED_MAX,
{
    let fan_sets: Vec<FanSpeedSet> = fan_speed_sets();
    let mut numerator: u64 = 0;
    let mut denominator: u64 = 0;
    let mut i: u64 = 0;
    while i <= RESOLUTION
        invariant
            i <= RESOLUTION + 1,
            fan_sets@ == spec_fan_speed_sets(),
            numerator == total_moment(output_memberships@, i as nat),
            denominator == total_membership(output_memberships@, i as nat),
        decreases RESOLUTION + 1 - i,
    {
        let x: i32 = i as i32 * FAN_SPEED_MAX / RESOLUTION as i32;
        let mut max_membership: u64 = 0;
        let mut j: usize = 0;
        while j < output_memberships.len()
            invariant
                j <= output_memberships.len(),
                fan_sets@ == spec_fan_speed_sets(),
                max_membership == aggregated_membership(
                    output_memberships@.take(j as int),
                    x as int,
                ),
            decreases output_memberships.len() - j,
        {
            let output_name: FanSpeedLabel = output_memberships[j].0;
            let rule_strength: u64 = output_memberships[j].1;
            let set_membership: u64 = output_membership(&fan_sets, output_name, x);
            let implied_membership: u64 = if rule_strength <= set_membership {
                rule_strength
            } else {
                set_membership
            };
            proof {
                let upto = output_memberships@.take(j + 1);
                assert(upto.drop_last() =~= output_memberships@.take(j as int));
                assert(upto.last() == output_memberships@[j as int]);
            }
            if implied_membership > max_membership {
                max_membership = implied_membership;
            }
            j += 1;
        }
        proof {
            assert(output_memberships@.take(output_memberships@.len() as int)
                =~= output_memberships@);
            lemma_sample_point_range(i as int);
            lemma_totals_bounds(output_memberships@, (i + 1) as nat);
            lemma_totals_bounds(output_memberships@, i as nat);
            lemma_aggregated_is_maximum(output_memberships@, x as int);
            assert(x as int * max_membership as int <= FAN_SPEED_MAX as int * DEGREE_ONE as int)
                by (nonlinear_arith)
                requires
                    0 <= x <= FAN_SPEED_MAX,
                    0 <= max_membership <= DEGREE_ONE,
            ;
        }
        numerator += x as u64 * max_membership;
        denominator += max_membership;
        i += 1;
    }
    proof {
        lemma_defuzzify_in_range(output_memberships@);
    }
    if denominator == 0 {
        0
    } else {
        (numerator / denominator) as i32
    }
}

} // verus!
