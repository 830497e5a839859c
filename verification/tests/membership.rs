use fuzzy_fan::membership::{trapezoidal, triangular, DEGREE_ONE};

/// Steps in one 60000th of full membership.
const STEP: u64 = 131_072;

#[test]
fn full_membership_outnumbers_every_ramp_width() {
    assert_eq!(DEGREE_ONE, 7_864_320_000);
    assert_eq!(DEGREE_ONE, 60_000 * STEP);
    assert!(DEGREE_ONE > u32::MAX as u64);
}

#[test]
fn trapezoidal_is_zero_at_and_beyond_its_feet() {
    assert_eq!(trapezoidal(10_000, 10_000, 20_000, 30_000, 40_000), 0);
    assert_eq!(trapezoidal(40_000, 10_000, 20_000, 30_000, 40_000), 0);
    assert_eq!(trapezoidal(9_999, 10_000, 20_000, 30_000, 40_000), 0);
    assert_eq!(trapezoidal(40_001, 10_000, 20_000, 30_000, 40_000), 0);
    assert_eq!(trapezoidal(-7, 10_000, 20_000, 30_000, 40_000), 0);
    assert_eq!(trapezoidal(i32::MIN, 10_000, 20_000, 30_000, 40_000), 0);
    assert_eq!(trapezoidal(i32::MAX, 10_000, 20_000, 30_000, 40_000), 0);
}

#[test]
fn trapezoidal_is_full_on_its_plateau() {
    assert_eq!(trapezoidal(20_000, 10_000, 20_000, 30_000, 40_000), DEGREE_ONE);
    assert_eq!(trapezoidal(25_000, 10_000, 20_000, 30_000, 40_000), DEGREE_ONE);
    assert_eq!(trapezoidal(30_000, 10_000, 20_000, 30_000, 40_000), DEGREE_ONE);
}

#[test]
fn trapezoidal_ramps_are_linear() {
    assert_eq!(trapezoidal(12_500, 10_000, 20_000, 30_000, 40_000), 1_966_080_000);
    assert_eq!(trapezoidal(15_000, 10_000, 20_000, 30_000, 40_000), DEGREE_ONE / 2);
    assert_eq!(trapezoidal(19_999, 10_000, 20_000, 30_000, 40_000), 7_863_533_568);
    assert_eq!(trapezoidal(35_000, 10_000, 20_000, 30_000, 40_000), DEGREE_ONE / 2);
    assert_eq!(trapezoidal(37_500, 10_000, 20_000, 30_000, 40_000), 1_966_080_000);
    assert_eq!(trapezoidal(30_001, 10_000, 20_000, 30_000, 40_000), 7_863_533_568);
}

#[test]
fn trapezoidal_rounds_down_to_a_whole_step() {
    // a seventh of full membership is 1123474285.71 steps, six are 6740845714.29
    assert_eq!(trapezoidal(1, 0, 7, 7, 14), 1_123_474_285);
    assert_eq!(trapezoidal(6, 0, 7, 7, 14), 6_740_845_714);
    assert_eq!(trapezoidal(8, 0, 7, 7, 14), 6_740_845_714);
    assert_eq!(trapezoidal(13, 0, 7, 7, 14), 1_123_474_285);
}

#[test]
fn trapezoidal_rises_strictly_on_its_rising_edge() {
    let mut previous = trapezoidal(10_000, 10_000, 20_000, 30_000, 40_000);
    let mut x = 10_001;
    while x < 20_000 {
        let degree = trapezoidal(x, 10_000, 20_000, 30_000, 40_000);
        assert!(degree > previous, "at {}", x);
        previous = degree;
        x += 1;
    }
}

#[test]
fn trapezoidal_falls_strictly_on_its_falling_edge() {
    let mut previous = trapezoidal(30_000, 10_000, 20_000, 30_000, 40_000);
    let mut x = 30_001;
    while x < 40_000 {
        let degree = trapezoidal(x, 10_000, 20_000, 30_000, 40_000);
        assert!(degree < previous, "at {}", x);
        previous = degree;
        x += 1;
    }
}

#[test]
fn trapezoidal_rises_and_falls_strictly_on_wide_edges() {
    // edges of 120 units: a thousandth is worth 65536 steps
    assert_eq!(trapezoidal(1, 0, 120_000, 120_000, 120_000), 65_536);
    assert_eq!(trapezoidal(2, 0, 120_000, 120_000, 120_000), 131_072);
    assert_eq!(trapezoidal(3, 0, 120_000, 120_000, 120_000), 196_608);
    assert_eq!(trapezoidal(119_997, 0, 0, 0, 120_000), 196_608);
    assert_eq!(trapezoidal(119_998, 0, 0, 0, 120_000), 131_072);
    assert_eq!(trapezoidal(119_999, 0, 0, 0, 120_000), 65_536);
    assert_eq!(trapezoidal(1, 0, 120_001, 200_000, 300_000), 65_535);
    assert_eq!(trapezoidal(2, 0, 120_001, 200_000, 300_000), 131_070);
    assert_eq!(trapezoidal(3, 0, 120_001, 200_000, 300_000), 196_606);
}

#[test]
fn trapezoidal_rises_and_falls_strictly_on_the_widest_edges() {
    // the whole range of breakpoints: one unit is still worth more than a step
    assert_eq!(trapezoidal(i32::MIN, i32::MIN, i32::MAX, i32::MAX, i32::MAX), 0);
    assert_eq!(trapezoidal(i32::MIN + 1, i32::MIN, i32::MAX, i32::MAX, i32::MAX), 1);
    assert_eq!(trapezoidal(i32::MIN + 2, i32::MIN, i32::MAX, i32::MAX, i32::MAX), 3);
    assert_eq!(trapezoidal(i32::MAX - 1, i32::MIN, i32::MIN, i32::MIN, i32::MAX), 1);
    assert_eq!(trapezoidal(i32::MAX - 2, i32::MIN, i32::MIN, i32::MIN, i32::MAX), 3);
    let mut previous = 0;
    for step in 1..2_000 {
        let degree = trapezoidal(i32::MIN + step, i32::MIN, i32::MAX, i32::MAX, i32::MAX);
        assert!(degree > previous, "at step {}", step);
        previous = degree;
    }
}

#[test]
fn trapezoidal_without_a_rising_edge_excludes_its_foot() {
    // a == b: the set is open at the foot, full right above it
    assert_eq!(trapezoidal(0, 0, 0, 15_000, 20_000), 0);
    assert_eq!(trapezoidal(1, 0, 0, 15_000, 20_000), DEGREE_ONE);
    assert_eq!(trapezoidal(15_000, 0, 0, 15_000, 20_000), DEGREE_ONE);
    assert_eq!(trapezoidal(17_500, 0, 0, 15_000, 20_000), 30_000 * STEP);
    assert_eq!(trapezoidal(20_000, 0, 0, 15_000, 20_000), 0);
}

#[test]
fn trapezoidal_without_a_falling_edge_excludes_its_foot() {
    // c == d: the set is open at the foot, full right below it
    assert_eq!(trapezoidal(50_000, 25_000, 30_000, 50_000, 50_000), 0);
    assert_eq!(trapezoidal(49_999, 25_000, 30_000, 50_000, 50_000), DEGREE_ONE);
    assert_eq!(trapezoidal(30_000, 25_000, 30_000, 50_000, 50_000), DEGREE_ONE);
    assert_eq!(trapezoidal(27_500, 25_000, 30_000, 50_000, 50_000), 30_000 * STEP);
    assert_eq!(trapezoidal(25_000, 25_000, 30_000, 50_000, 50_000), 0);
}

#[test]
fn trapezoidal_takes_the_widest_breakpoints() {
    assert_eq!(trapezoidal(0, i32::MIN, i32::MAX, i32::MAX, i32::MAX), 3_932_160_000);
    assert_eq!(trapezoidal(0, i32::MIN, i32::MIN, i32::MIN, i32::MAX), 3_932_159_999);
    assert_eq!(trapezoidal(-1, i32::MIN, i32::MIN, i32::MIN, i32::MAX), 3_932_160_000);
    assert_eq!(trapezoidal(0, i32::MIN, -1, 1, i32::MAX), DEGREE_ONE);
}

#[test]
fn trapezoidal_stays_within_bounds_on_breakpoints_out_of_order() {
    let points = [-3i32, -1, 0, 1, 2, 3, 5, 8];
    for &x in points.iter() {
        for &a in points.iter() {
            for &b in points.iter() {
                for &c in points.iter() {
                    for &d in points.iter() {
                        assert!(trapezoidal(x, a, b, c, d) <= DEGREE_ONE);
                    }
                }
            }
        }
    }
}

#[test]
fn trapezoidal_is_positive_strictly_between_its_feet() {
    let points = [-3i32, -1, 0, 1, 2, 3, 5, 8, i32::MIN, i32::MAX];
    for &x in points.iter() {
        for &a in points.iter() {
            for &b in points.iter() {
                for &c in points.iter() {
                    for &d in points.iter() {
                        let degree = trapezoidal(x, a, b, c, d);
                        assert_eq!(degree > 0, a < x && x < d);
                    }
                }
            }
        }
    }
}

#[test]
fn triangular_is_zero_at_and_beyond_its_feet() {
    assert_eq!(triangular(15_000, 15_000, 22_500, 30_000), 0);
    assert_eq!(triangular(30_000, 15_000, 22_500, 30_000), 0);
    assert_eq!(triangular(14_999, 15_000, 22_500, 30_000), 0);
    assert_eq!(triangular(30_001, 15_000, 22_500, 30_000), 0);
    assert_eq!(triangular(i32::MIN, 15_000, 22_500, 30_000), 0);
    assert_eq!(triangular(i32::MAX, 15_000, 22_500, 30_000), 0);
}

#[test]
fn triangular_is_full_at_its_peak() {
    assert_eq!(triangular(22_500, 15_000, 22_500, 30_000), DEGREE_ONE);
    assert_eq!(triangular(50_000, 30_000, 50_000, 70_000), DEGREE_ONE);
}

#[test]
fn triangular_sides_are_linear() {
    assert_eq!(triangular(18_750, 15_000, 22_500, 30_000), DEGREE_ONE / 2);
    assert_eq!(triangular(25_000, 15_000, 22_500, 30_000), 5_242_880_000);
    assert_eq!(triangular(26_250, 15_000, 22_500, 30_000), DEGREE_ONE / 2);
    assert_eq!(triangular(22_499, 15_000, 22_500, 30_000), 7_863_271_424);
    assert_eq!(triangular(22_501, 15_000, 22_500, 30_000), 7_863_271_424);
}

#[test]
fn triangular_rounds_down_to_a_whole_step() {
    assert_eq!(triangular(1, 0, 7, 14), 1_123_474_285);
    assert_eq!(triangular(13, 0, 7, 14), 1_123_474_285);
    assert_eq!(triangular(2, 0, 3, 4), 5_242_880_000);
}

#[test]
fn triangular_rises_and_falls_strictly_on_the_widest_sides() {
    assert_eq!(triangular(i32::MIN + 1, i32::MIN, i32::MAX, i32::MAX), 1);
    assert_eq!(triangular(i32::MAX - 1, i32::MIN, i32::MIN, i32::MAX), 1);
    let mut previous = 0;
    for step in 1..2_000 {
        let rising = triangular(i32::MIN + step, i32::MIN, i32::MAX, i32::MAX);
        let falling = triangular(i32::MAX - step, i32::MIN, i32::MIN, i32::MAX);
        assert!(rising > previous, "at step {}", step);
        assert_eq!(falling, rising);
        previous = rising;
    }
}

#[test]
fn triangular_with_its_peak_on_a_foot_excludes_the_peak() {
    // a == b: the foot wins over the peak
    assert_eq!(triangular(0, 0, 0, 20_000), 0);
    assert_eq!(triangular(1, 0, 0, 20_000), 7_863_926_784);
    assert_eq!(triangular(10_000, 0, 0, 20_000), DEGREE_ONE / 2);
    // b == c
    assert_eq!(triangular(100_000, 50_000, 100_000, 100_000), 0);
    assert_eq!(triangular(99_999, 50_000, 100_000, 100_000), 7_864_162_713);
    assert_eq!(triangular(75_000, 50_000, 100_000, 100_000), DEGREE_ONE / 2);
}

#[test]
fn triangular_takes_the_widest_breakpoints() {
    assert_eq!(triangular(0, i32::MIN, i32::MAX, i32::MAX), 3_932_160_000);
    assert_eq!(triangular(0, i32::MIN, i32::MIN, i32::MAX), 3_932_159_999);
    assert_eq!(triangular(0, i32::MIN, 0, i32::MAX), DEGREE_ONE);
}

#[test]
fn triangular_stays_within_bounds_on_breakpoints_out_of_order() {
    let points = [-3i32, -1, 0, 1, 2, 3, 5, 8];
    for &x in points.iter() {
        for &a in points.iter() {
            for &b in points.iter() {
                for &c in points.iter() {
                    assert!(triangular(x, a, b, c) <= DEGREE_ONE);
                }
            }
        }
    }
}

#[test]
fn triangular_is_positive_strictly_between_its_feet() {
    let points = [-3i32, -1, 0, 1, 2, 3, 5, 8, i32::MIN, i32::MAX];
    for &x in points.iter() {
        for &a in points.iter() {
            for &b in points.iter() {
                for &c in points.iter() {
                    let degree = triangular(x, a, b, c);
                    assert_eq!(degree > 0, a < x && x < c);
                }
            }
        }
    }
}
