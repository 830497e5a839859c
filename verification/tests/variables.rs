use fuzzy_fan::variables::{fan_speed_sets, fuzzify_humidity, fuzzify_temperature};
use fuzzy_fan::{
    FanSpeedLabel, FanSpeedSet, FuzzySet, HumidityLabel, TemperatureLabel, DEGREE_ONE,
};

/// Steps in one 60000th of full membership.
const STEP: u64 = 131_072;

fn temperature_degrees(temp: i32) -> (u64, u64, u64) {
    let sets = fuzzify_temperature(temp);
    assert_eq!(sets.len(), 3);
    assert_eq!(sets[0].label, TemperatureLabel::Cold);
    assert_eq!(sets[1].label, TemperatureLabel::Mild);
    assert_eq!(sets[2].label, TemperatureLabel::Hot);
    (sets[0].membership, sets[1].membership, sets[2].membership)
}

fn humidity_degrees(humidity: i32) -> (u64, u64, u64) {
    let sets = fuzzify_humidity(humidity);
    assert_eq!(sets.len(), 3);
    assert_eq!(sets[0].label, HumidityLabel::Low);
    assert_eq!(sets[1].label, HumidityLabel::Medium);
    assert_eq!(sets[2].label, HumidityLabel::High);
    (sets[0].membership, sets[1].membership, sets[2].membership)
}

#[test]
fn fuzzify_temperature_lists_cold_mild_hot() {
    assert_eq!(
        fuzzify_temperature(17_500),
        vec![
            FuzzySet { label: TemperatureLabel::Cold, membership: 30_000 * STEP },
            FuzzySet { label: TemperatureLabel::Mild, membership: 20_000 * STEP },
            FuzzySet { label: TemperatureLabel::Hot, membership: 0 },
        ]
    );
}

#[test]
fn fuzzify_temperature_across_the_range() {
    assert_eq!(temperature_degrees(1), (60_000 * STEP, 0, 0));
    assert_eq!(temperature_degrees(10_000), (60_000 * STEP, 0, 0));
    assert_eq!(temperature_degrees(15_000), (60_000 * STEP, 0, 0));
    assert_eq!(temperature_degrees(16_000), (48_000 * STEP, 8_000 * STEP, 0));
    assert_eq!(temperature_degrees(20_000), (0, 40_000 * STEP, 0));
    assert_eq!(temperature_degrees(22_500), (0, 60_000 * STEP, 0));
    assert_eq!(temperature_degrees(25_000), (0, 40_000 * STEP, 0));
    assert_eq!(temperature_degrees(26_000), (0, 32_000 * STEP, 12_000 * STEP));
    assert_eq!(temperature_degrees(27_500), (0, 20_000 * STEP, 30_000 * STEP));
    assert_eq!(temperature_degrees(30_000), (0, 0, 60_000 * STEP));
    assert_eq!(temperature_degrees(40_000), (0, 0, 60_000 * STEP));
    assert_eq!(temperature_degrees(49_999), (0, 0, 60_000 * STEP));
}

#[test]
fn fuzzify_temperature_at_the_ends_of_the_range_is_all_zero() {
    assert_eq!(temperature_degrees(0), (0, 0, 0));
    assert_eq!(temperature_degrees(50_000), (0, 0, 0));
}

#[test]
fn fuzzify_temperature_outside_the_range_is_all_zero() {
    assert_eq!(temperature_degrees(-1_000), (0, 0, 0));
    assert_eq!(temperature_degrees(75_000), (0, 0, 0));
    assert_eq!(temperature_degrees(i32::MIN), (0, 0, 0));
    assert_eq!(temperature_degrees(i32::MAX), (0, 0, 0));
}

#[test]
fn fuzzify_humidity_lists_low_medium_high() {
    assert_eq!(
        fuzzify_humidity(35_000),
        vec![
            FuzzySet { label: HumidityLabel::Low, membership: 45_000 * STEP },
            FuzzySet { label: HumidityLabel::Medium, membership: 15_000 * STEP },
            FuzzySet { label: HumidityLabel::High, membership: 0 },
        ]
    );
}

#[test]
fn fuzzify_humidity_across_the_range() {
    assert_eq!(humidity_degrees(1), (60_000 * STEP, 0, 0));
    assert_eq!(humidity_degrees(30_000), (60_000 * STEP, 0, 0));
    assert_eq!(humidity_degrees(40_000), (30_000 * STEP, 30_000 * STEP, 0));
    assert_eq!(humidity_degrees(50_000), (0, 60_000 * STEP, 0));
    assert_eq!(humidity_degrees(60_000), (0, 30_000 * STEP, 30_000 * STEP));
    assert_eq!(humidity_degrees(65_000), (0, 15_000 * STEP, 45_000 * STEP));
    assert_eq!(humidity_degrees(70_000), (0, 0, 60_000 * STEP));
    assert_eq!(humidity_degrees(99_999), (0, 0, 60_000 * STEP));
}

#[test]
fn fuzzify_humidity_at_the_ends_of_the_range_is_all_zero() {
    assert_eq!(humidity_degrees(0), (0, 0, 0));
    assert_eq!(humidity_degrees(100_000), (0, 0, 0));
}

#[test]
fn fuzzify_humidity_outside_the_range_is_all_zero() {
    assert_eq!(humidity_degrees(-1), (0, 0, 0));
    assert_eq!(humidity_degrees(250_000), (0, 0, 0));
    assert_eq!(humidity_degrees(i32::MIN), (0, 0, 0));
    assert_eq!(humidity_degrees(i32::MAX), (0, 0, 0));
}

#[test]
fn fuzzified_degrees_never_exceed_full_membership() {
    let mut value: i32 = -5_000;
    while value <= 105_000 {
        for set in fuzzify_temperature(value) {
            assert!(set.membership <= DEGREE_ONE, "temperature {}", value);
        }
        for set in fuzzify_humidity(value) {
            assert!(set.membership <= DEGREE_ONE, "humidity {}", value);
        }
        value += 7;
    }
}

#[test]
fn fuzzified_degrees_need_not_add_up_to_full_membership() {
    // 17.5 degrees: half Cold and a third Mild
    let (cold, mild, hot) = temperature_degrees(17_500);
    assert_eq!(cold + mild + hot, 50_000 * STEP);
}

#[test]
fn fan_speed_sets_lists_off_low_medium_high() {
    assert_eq!(
        fan_speed_sets(),
        vec![
            FanSpeedSet { label: FanSpeedLabel::Off, a: 0, b: 0, c: 20_000 },
            FanSpeedSet { label: FanSpeedLabel::Low, a: 0, b: 25_000, c: 50_000 },
            FanSpeedSet { label: FanSpeedLabel::Medium, a: 25_000, b: 50_000, c: 75_000 },
            FanSpeedSet { label: FanSpeedLabel::High, a: 50_000, b: 100_000, c: 100_000 },
        ]
    );
}
