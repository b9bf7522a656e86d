use barter::statistic::algorithm::{integer_sqrt, WelfordOnline};
use barter::statistic::dispersion::{Dispersion, Range, BOUNDED_RUN, SAMPLE_BOUND};

/// Samples are given in hundredths: 1.1 is written 110.
const HUNDREDTHS: i64 = 100;

/// Samples are given in units of 1e-10, so that rounding a result down to a
/// whole unit moves it by less than 1e-10.
const UNIT: i64 = 10_000_000_000;

#[test]
fn dispersion() {
    let mut dispersion = Dispersion::default();

    // Dataset  = [1.1, 1.2, 1.3, 1.4]
    // Means    = [1.1, 1.15, 1.2, 1.25]
    // Inputs, in units of 1e-10: (prev_mean, new_mean, new_value, value_count)
    let inputs: Vec<(i64, i64, i64, usize)> = vec![
        (0, 11 * UNIT / 10, 11 * UNIT / 10, 1),
        (11 * UNIT / 10, 115 * UNIT / 100, 12 * UNIT / 10, 2),
        (115 * UNIT / 100, 12 * UNIT / 10, 13 * UNIT / 10, 3),
        (12 * UNIT / 10, 125 * UNIT / 100, 14 * UNIT / 10, 4),
    ];

    // Expected Outputs:
    // Recurrence_M = [0.0, 0.005, 0.02, 0.05]
    // Variance     = [0.0, 0.0025, 1/150, 0.0125]
    // Std. Dev     = [0.0, 0.05, 6.sqrt()/30, 5.sqrt()/20]
    let square = UNIT as i128 * UNIT as i128;
    let outputs: Vec<Dispersion> = vec![
        Dispersion {
            range: Range { activated: true, highest: 11 * UNIT / 10, lowest: 11 * UNIT / 10 },
            recurrence_relation_m: 0,
            variance: 0,
            standard_deviation: 0,
        },
        Dispersion {
            range: Range { activated: true, highest: 12 * UNIT / 10, lowest: 11 * UNIT / 10 },
            recurrence_relation_m: 5 * square / 1000,
            variance: 25 * square / 10000,
            standard_deviation: (5 * UNIT / 100) as u64,
        },
        Dispersion {
            range: Range { activated: true, highest: 13 * UNIT / 10, lowest: 11 * UNIT / 10 },
            recurrence_relation_m: 2 * square / 100,
            variance: square / 150,
            standard_deviation: (6.0_f64.sqrt() / 30.0 * UNIT as f64) as u64,
        },
        Dispersion {
            range: Range { activated: true, highest: 14 * UNIT / 10, lowest: 11 * UNIT / 10 },
            recurrence_relation_m: 5 * square / 100,
            variance: 125 * square / 10000,
            standard_deviation: (5.0_f64.sqrt() / 20.0 * UNIT as f64) as u64,
        },
    ];

    for (input, out) in inputs.into_iter().zip(outputs.into_iter()) {
        dispersion.update(input.0, input.1, input.2, input.3);

        // Range
        assert_eq!(dispersion.range.activated, out.range.activated);
        assert_eq!(dispersion.range.highest, out.range.highest);
        assert_eq!(dispersion.range.lowest, out.range.lowest);

        // Exact in whole units
        assert_eq!(dispersion.recurrence_relation_m, out.recurrence_relation_m);
        assert_eq!(dispersion.variance, out.variance);
        assert_eq!(dispersion.standard_deviation, out.standard_deviation);

        // Within 1e-10 of the real-valued results
        let recurrence_diff =
            dispersion.recurrence_relation_m as f64 / square as f64 - out.recurrence_relation_m as f64 / square as f64;
        assert!(recurrence_diff.abs() < 1e-10);
        let variance_diff = dispersion.variance as f64 / square as f64 - out.variance as f64 / square as f64;
        assert!(variance_diff.abs() < 1e-10);
        let standard_dev_diff =
            dispersion.standard_deviation as f64 / UNIT as f64 - out.standard_deviation as f64 / UNIT as f64;
        assert!(standard_dev_diff.abs() < 1e-10);
    }
}

#[test]
fn dispersion_against_real_values() {
    let mut dispersion = Dispersion::default();
    let inputs: Vec<(f64, f64, f64, usize)> =
        vec![(0.0, 1.1, 1.1, 1), (1.1, 1.15, 1.2, 2), (1.15, 1.2, 1.3, 3), (1.2, 1.25, 1.4, 4)];
    let expected: Vec<(f64, f64, f64)> = vec![
        (0.0, 0.0, 0.0),
        (0.005, 0.0025, 0.05),
        (0.02, 1.0 / 150.0, 6.0_f64.sqrt() / 30.0),
        (0.05, 0.0125, 5.0_f64.sqrt() / 20.0),
    ];
    let unit = UNIT as f64;
    for (input, out) in inputs.into_iter().zip(expected.into_iter()) {
        let updated = dispersion.try_update(
            (input.0 * unit).round() as i64,
            (input.1 * unit).round() as i64,
            (input.2 * unit).round() as i64,
            input.3,
        );
        assert!(updated);
        assert!((dispersion.recurrence_relation_m as f64 / (unit * unit) - out.0).abs() < 1e-10);
        assert!((dispersion.variance as f64 / (unit * unit) - out.1).abs() < 1e-10);
        assert!((dispersion.standard_deviation as f64 / unit - out.2).abs() < 1e-10);
    }
}

#[test]
fn range() {
    // [0.1, 1.01, 1.02, 1.03, 1.04, 1.05, 1.06, 1.07, 9999.0] in hundredths
    let dataset = [10, 101, 102, 103, 104, 105, 106, 107, 9999 * HUNDREDTHS];
    let mut actual_range = Range::default();

    for &value in &dataset {
        actual_range.update(value);
    }

    let expected_range = Range { activated: true, highest: 9999 * HUNDREDTHS, lowest: 10 };

    assert_eq!(actual_range, expected_range);
    // 9998.9
    assert_eq!(actual_range.calculate(), (9998 * HUNDREDTHS + 90) as i128);
}

#[test]
fn range_is_activated_by_its_first_update_and_stays_so() {
    let mut range = Range::default();
    assert!(!range.activated);
    for value in [5, -3, 5, 0, i64::MAX, i64::MIN] {
        range.update(value);
        assert!(range.activated);
        assert!(range.lowest <= value && value <= range.highest);
    }
    assert_eq!(range, Range { activated: true, highest: i64::MAX, lowest: i64::MIN });
    assert_eq!(range.calculate(), i64::MAX as i128 - i64::MIN as i128);
}

#[test]
fn range_never_narrows() {
    let mut range = Range::default();
    range.update(10);
    range.update(20);
    range.update(15);
    assert_eq!(range, Range { activated: true, highest: 20, lowest: 10 });
}

#[test]
fn range_init_is_not_activated() {
    let mut range = Range::init(7);
    assert_eq!(range, Range { activated: false, highest: 7, lowest: 7 });
    range.update(3);
    assert_eq!(range, Range { activated: true, highest: 3, lowest: 3 });
    assert_eq!(range.calculate(), 0);
}

#[test]
fn dispersion_default_is_all_zero() {
    assert_eq!(
        Dispersion::default(),
        Dispersion {
            range: Range { activated: false, highest: 0, lowest: 0 },
            recurrence_relation_m: 0,
            variance: 0,
            standard_deviation: 0,
        }
    );
}

#[test]
fn online_variance_equals_closed_form() {
    // Every prefix of this dataset has a whole mean.
    let dataset: [i64; 6] = [1, 3, 5, 7, 9, 11];
    let mut dispersion = Dispersion::default();
    let mut sum = 0;
    let mut prev_mean = 0;
    for (index, &value) in dataset.iter().enumerate() {
        sum += value;
        let count = index + 1;
        assert_eq!(sum % count as i64, 0);
        let new_mean = sum / count as i64;
        assert!(dispersion.try_update(prev_mean, new_mean, value, count));
        let closed_form: i128 =
            dataset[..count].iter().map(|x| ((x - new_mean) * (x - new_mean)) as i128).sum();
        assert_eq!(dispersion.recurrence_relation_m, closed_form);
        assert_eq!(dispersion.variance, closed_form / count as i128);
        prev_mean = new_mean;
    }
    // Sum of squared deviations from 6 is 70; 70 / 6 = 11; sqrt(11) = 3.
    assert_eq!(dispersion.recurrence_relation_m, 70);
    assert_eq!(dispersion.variance, 11);
    assert_eq!(dispersion.standard_deviation, 3);
}

#[test]
fn update_refuses_a_count_of_zero() {
    let mut dispersion = Dispersion::default();
    assert!(!dispersion.try_update(0, 1, 1, 0));
    assert_eq!(dispersion, Dispersion::default());
}

#[test]
fn update_refuses_what_cannot_be_held() {
    let mut dispersion = Dispersion::default();
    // (MAX - MIN) * (MAX - MIN) is just under 2^128.
    assert!(!dispersion.try_update(i64::MIN, i64::MIN, i64::MAX, 1));
    assert_eq!(dispersion, Dispersion::default());

    dispersion.recurrence_relation_m = i128::MAX;
    assert!(!dispersion.try_update(0, 0, 1, 1));
    assert_eq!(dispersion.recurrence_relation_m, i128::MAX);
    assert!(!dispersion.range.activated);
}

#[test]
fn mismatched_means_can_drive_the_accumulator_down() {
    let mut dispersion = Dispersion::default();
    // (5 - 0) * (5 - 10) = -25; -25 / 2 rounds down to -13; no root below zero.
    assert!(dispersion.try_update(0, 10, 5, 2));
    assert_eq!(dispersion.recurrence_relation_m, -25);
    assert_eq!(dispersion.variance, -13);
    assert_eq!(dispersion.standard_deviation, 0);
}

#[test]
fn recurrence_relation() {
    assert_eq!(WelfordOnline::checked_recurrence_relation_m(0, 110, 120, 115), Some(50));
    assert_eq!(WelfordOnline::checked_recurrence_relation_m(50, 115, 130, 120), Some(200));
    assert_eq!(WelfordOnline::checked_recurrence_relation_m(200, 120, 140, 125), Some(500));
    assert_eq!(WelfordOnline::checked_recurrence_relation_m(i128::MAX, 0, 1, 0), None);
    assert_eq!(WelfordOnline::checked_recurrence_relation_m(i128::MIN, 0, 1, 0), Some(i128::MIN + 1));
    assert_eq!(WelfordOnline::checked_recurrence_relation_m(0, i64::MIN, i64::MAX, i64::MIN), None);
}

#[test]
fn population_variance_rounds_down() {
    assert_eq!(WelfordOnline::calculate_population_variance(200, 3), 66);
    assert_eq!(WelfordOnline::calculate_population_variance(500, 4), 125);
    assert_eq!(WelfordOnline::calculate_population_variance(0, 1), 0);
    assert_eq!(WelfordOnline::calculate_population_variance(-25, 2), -13);
    assert_eq!(WelfordOnline::calculate_population_variance(i128::MIN, 1), i128::MIN);
}

#[test]
fn integer_square_roots() {
    assert_eq!(integer_sqrt(0), 0);
    assert_eq!(integer_sqrt(1), 1);
    assert_eq!(integer_sqrt(3), 1);
    assert_eq!(integer_sqrt(4), 2);
    assert_eq!(integer_sqrt(66), 8);
    assert_eq!(integer_sqrt(125), 11);
    assert_eq!(integer_sqrt(99), 9);
    assert_eq!(integer_sqrt(100), 10);
    assert_eq!(integer_sqrt(u64::MAX as u128 * u64::MAX as u128), u64::MAX);
    assert_eq!(integer_sqrt(u64::MAX as u128 * u64::MAX as u128 - 1), u64::MAX - 1);
    assert_eq!(integer_sqrt(u128::MAX), u64::MAX);
}

#[test]
fn rounded_means_add_a_drift_to_the_accumulator() {
    // No prefix of this dataset but the first has a whole mean; the means
    // supplied are rounded down.
    let dataset: [i64; 5] = [1, 2, 4, 8, 16];
    let mut dispersion = Dispersion::default();
    let mut sum: i64 = 0;
    let mut prev_sum: i64 = 0;
    let mut prev_mean: i64 = 0;
    let mut drift: i128 = 0;
    for (index, &value) in dataset.iter().enumerate() {
        sum += value;
        let count = index as i64 + 1;
        let new_mean = sum.div_euclid(count);
        dispersion.update(prev_mean, new_mean, value, count as usize);

        let residual = sum - count * new_mean;
        let prev_residual = prev_sum - (count - 1) * prev_mean;
        drift += ((new_mean - prev_mean) * (residual + prev_residual)) as i128;
        let about_new_mean: i128 = dataset[..count as usize]
            .iter()
            .map(|x| ((x - new_mean) * (x - new_mean)) as i128)
            .sum();
        assert_eq!(dispersion.recurrence_relation_m, about_new_mean + drift);
        assert_eq!(dispersion.variance, (about_new_mean + drift).div_euclid(count as i128));

        // count * (squared deviations) = count * (sum of squares) - sum^2 + residual^2
        let squares: i128 = dataset[..count as usize].iter().map(|x| (x * x) as i128).sum();
        assert_eq!(
            count as i128 * about_new_mean,
            count as i128 * squares - (sum * sum) as i128 + (residual * residual) as i128
        );
        prev_sum = sum;
        prev_mean = new_mean;
    }
    // Means 1, 1, 2, 3, 6: the products are 0, 1, 6, 30, 130.
    assert_eq!(dispersion.recurrence_relation_m, 167);
    assert_eq!(dispersion.variance, 33);
    assert_eq!(dispersion.standard_deviation, 5);
}

#[test]
fn a_bounded_run_is_always_accepted() {
    // Each update adds the largest product the bound allows.
    let mut dispersion = Dispersion::default();
    for count in 1..=BOUNDED_RUN {
        assert!(dispersion.try_update(-SAMPLE_BOUND, -SAMPLE_BOUND, SAMPLE_BOUND, count));
    }
    let largest = 4 * SAMPLE_BOUND as i128 * SAMPLE_BOUND as i128;
    assert_eq!(dispersion.recurrence_relation_m, largest * BOUNDED_RUN as i128);
    assert_eq!(dispersion.variance, largest);
    assert_eq!(dispersion.standard_deviation, 2 * SAMPLE_BOUND as u64);
    assert_eq!(dispersion.range, Range { activated: true, highest: SAMPLE_BOUND, lowest: SAMPLE_BOUND });
}
