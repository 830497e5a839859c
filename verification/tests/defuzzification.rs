use fuzzy_fan::defuzzification::{defuzzify, FAN_SPEED_MAX, RESOLUTION};
use fuzzy_fan::{FanSpeedLabel, DEGREE_ONE};

/// Steps in one 60000th of full membership.
const STEP: u64 = 131_072;

#[test]
fn the_fan_speed_range_is_cut_into_a_hundred_steps() {
    assert_eq!(RESOLUTION, 100);
    assert_eq!(FAN_SPEED_MAX, 100_000);
}

#[test]
fn defuzzify_of_nothing_is_zero() {
    assert_eq!(defuzzify(Vec::new()), 0);
}

#[test]
fn defuzzify_one_full_set() {
    // Off sums to a moment of 522977280000000 over a membership of 74711040000
    assert_eq!(defuzzify(vec![(FanSpeedLabel::Off, DEGREE_ONE)]), 7_000);
    assert_eq!(defuzzify(vec![(FanSpeedLabel::Low, DEGREE_ONE)]), 25_000);
    assert_eq!(defuzzify(vec![(FanSpeedLabel::Medium, DEGREE_ONE)]), 50_000);
    assert_eq!(defuzzify(vec![(FanSpeedLabel::High, DEGREE_ONE)]), 83_000);
}

#[test]
fn defuzzify_cuts_a_set_off_at_its_strength() {
    assert_eq!(defuzzify(vec![(FanSpeedLabel::Off, 20_000 * STEP)]), 8_690);
    assert_eq!(defuzzify(vec![(FanSpeedLabel::Off, 1)]), 10_000);
    assert_eq!(defuzzify(vec![(FanSpeedLabel::High, 1)]), 75_000);
    assert_eq!(defuzzify(vec![(FanSpeedLabel::Low, 30_000 * STEP)]), 25_000);
}

#[test]
fn defuzzify_takes_a_strength_above_full_membership_as_full() {
    assert_eq!(defuzzify(vec![(FanSpeedLabel::Low, u64::MAX)]), 25_000);
}

#[test]
fn defuzzify_aggregates_by_the_largest_contribution() {
    assert_eq!(
        defuzzify(vec![(FanSpeedLabel::Low, 30_000 * STEP), (FanSpeedLabel::Low, 10_000 * STEP)]),
        25_000
    );
    assert_eq!(
        defuzzify(vec![
            (FanSpeedLabel::Medium, 15_000 * STEP),
            (FanSpeedLabel::Medium, 16_000 * STEP),
            (FanSpeedLabel::High, 15_000 * STEP),
            (FanSpeedLabel::High, 36_000 * STEP),
        ]),
        70_883
    );
    assert_eq!(
        defuzzify(vec![(FanSpeedLabel::Medium, 16_000 * STEP), (FanSpeedLabel::High, 36_000 * STEP)]),
        70_883
    );
    assert_eq!(
        defuzzify(vec![
            (FanSpeedLabel::Off, 30_000 * STEP),
            (FanSpeedLabel::Off, 30_000 * STEP),
            (FanSpeedLabel::Low, 20_000 * STEP),
            (FanSpeedLabel::Medium, 20_000 * STEP),
        ]),
        33_521
    );
}

#[test]
fn defuzzify_does_not_depend_on_the_order_of_the_entries() {
    let one = defuzzify(vec![(FanSpeedLabel::Off, DEGREE_ONE), (FanSpeedLabel::High, DEGREE_ONE)]);
    let other = defuzzify(vec![(FanSpeedLabel::High, DEGREE_ONE), (FanSpeedLabel::Off, DEGREE_ONE)]);
    assert_eq!(one, 61_764);
    assert_eq!(other, 61_764);
}

#[test]
fn defuzzify_ignores_entries_of_zero_strength() {
    assert_eq!(defuzzify(vec![(FanSpeedLabel::Low, 0)]), 0);
    assert_eq!(defuzzify(vec![(FanSpeedLabel::Off, 20_000 * STEP), (FanSpeedLabel::Low, 0)]), 8_690);
}

#[test]
fn defuzzify_stays_in_the_fan_speed_range() {
    let labels =
        [FanSpeedLabel::Off, FanSpeedLabel::Low, FanSpeedLabel::Medium, FanSpeedLabel::High];
    let strengths = [0u64, 1, DEGREE_ONE - 1, DEGREE_ONE, DEGREE_ONE + 1, u64::MAX];
    for first in labels.iter() {
        for second in labels.iter() {
            for s1 in strengths.iter() {
                for s2 in strengths.iter() {
                    let speed = defuzzify(vec![(*first, *s1), (*second, *s2)]);
                    assert!(0 <= speed && speed <= FAN_SPEED_MAX);
                }
            }
        }
    }
}
