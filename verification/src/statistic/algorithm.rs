use vstd::prelude::*;

verus! {

/// Sum of the samples.
pub open spec fn sum(samples: Seq<i64>) -> int
    decreases samples.len(),
{
    if samples.len() == 0 {
        0
    } else {
        sum(samples.drop_last()) + samples.last()
    }
}

/// Sum of the squared distances of the samples from `centre`.
pub open spec fn squared_deviations(samples: Seq<i64>, centre: int) -> int
    decreases samples.len(),
{
    if samples.len() == 0 {
        0
    } else {
        squared_deviations(samples.drop_last(), centre) + (samples.last() - centre) * (
        samples.last() - centre)
    }
}

/// Whether `mean` is the mean of the samples, exactly.
pub open spec fn is_mean(samples: Seq<i64>, mean: int) -> bool {
    samples.len() * mean == sum(samples)
}

/// Moving the centre from `a` to `b` changes the sum of squared deviations by
/// `(a - b) * (2 * sum - n * (a + b))`.
pub proof fn lemma_squared_deviations_shift(samples: Seq<i64>, a: int, b: int)
    ensures
        squared_deviations(samples, b) == squared_deviations(samples, a) + (a - b) * (2 * sum(
            samples,
        ) - samples.len() * (a + b)),
    decreases samples.len(),
{
    if samples.len() == 0 {
        assert((a - b) * (2 * 0 - 0 * (a + b)) == 0) by (nonlinear_arith);
    } else {
        let rest = samples.drop_last();
        let x = samples.last() as int;
        let n = rest.len() as int;
        let t = sum(rest);
        lemma_squared_deviations_shift(rest, a, b);
        assert((x - b) * (x - b) + (a - b) * (2 * t - n * (a + b)) == (x - a) * (x - a) + (a - b)
            * (2 * (t + x) - (n + 1) * (a + b))) by (nonlinear_arith);
    }
}

/// How far `mean` is from the mean of the samples, times their number: the
/// sum of the samples less their number times `mean`. It is zero exactly
/// where `mean` is their mean.
pub open spec fn residual(samples: Seq<i64>, mean: int) -> int {
    sum(samples) - samples.len() * mean
}

/// The sum of squared deviations from any centre, times the number of
/// samples, is that number times the sum of the squares, less the square of
/// the sum, plus the square of the centre's residual. With the true mean as
/// centre the residual is zero, and what is left is the population variance
/// in closed form, times the square of the number of samples.
pub proof fn lemma_closed_form(samples: Seq<i64>, centre: int)
    ensures
        samples.len() * squared_deviations(samples, centre) == samples.len() * squared_deviations(
            samples,
            0,
        ) - sum(samples) * sum(samples) + residual(samples, centre) * residual(samples, centre),
{
    let n = samples.len() as int;
    let t = sum(samples);
    let q = squared_deviations(samples, 0);
    let r = residual(samples, centre);
    lemma_squared_deviations_shift(samples, 0, centre);
    assert(n * (q + (0 - centre) * (2 * t - n * (0 + centre))) == n * q - t * t + r * r)
        by (nonlinear_arith)
        requires
            r == t - n * centre,
    ;
}

/// Welford's step for any pair of means: adding the product of the new
/// sample's distances from the old and the new mean to the sum of squared
/// deviations from the old mean overshoots the sum of squared deviations
/// from the new mean by the distance between the means times the sum of
/// their residuals.
pub proof fn lemma_welford_step_rounded(samples: Seq<i64>, prev_mean: int, new_mean: int)
    requires
        samples.len() > 0,
    ensures
        WelfordOnline::recurrence_relation_m(
            squared_deviations(samples.drop_last(), prev_mean),
            prev_mean,
            samples.last() as int,
            new_mean,
        ) == squared_deviations(samples, new_mean) + (new_mean - prev_mean) * (residual(
            samples,
            new_mean,
        ) + residual(samples.drop_last(), prev_mean)),
{
    let rest = samples.drop_last();
    let x = samples.last() as int;
    let n = samples.len() as int;
    let t = sum(rest);
    let r = residual(samples, new_mean);
    let r_prev = residual(rest, prev_mean);
    let d = new_mean - prev_mean;
    lemma_squared_deviations_shift(rest, prev_mean, new_mean);
    assert(squared_deviations(rest, new_mean) == squared_deviations(rest, prev_mean) + (prev_mean
        - new_mean) * (2 * t - (n - 1) * (prev_mean + new_mean)));
    assert(x - new_mean == r - r_prev + (n - 1) * d && x - prev_mean == r - r_prev + n * d)
        by (nonlinear_arith)
        requires
            r == t + x - n * new_mean,
            r_prev == t - (n - 1) * prev_mean,
            d == new_mean - prev_mean,
    ;
    assert((x - prev_mean) * (x - new_mean) == (prev_mean - new_mean) * (2 * t - (n - 1) * (
    prev_mean + new_mean)) + (x - new_mean) * (x - new_mean) + d * (r + r_prev))
        by (nonlinear_arith)
        requires
            r_prev == t - (n - 1) * prev_mean,
            x - new_mean == r - r_prev + (n - 1) * d,
            x - prev_mean == r - r_prev + n * d,
            d == new_mean - prev_mean,
    ;
}

/// Welford's step: where both means are exact, adding the product of the new
/// sample's distances from the old and the new mean to the old sum of squared
/// deviations gives the new sum of squared deviations. For the first sample
/// the old mean does not matter.
pub proof fn lemma_welford_step(samples: Seq<i64>, prev_mean: int, new_mean: int)
    requires
        samples.len() > 0,
        is_mean(samples, new_mean),
        samples.len() > 1 ==> is_mean(samples.drop_last(), prev_mean),
    ensures
        squared_deviations(samples, new_mean) == WelfordOnline::recurrence_relation_m(
            squared_deviations(samples.drop_last(), prev_mean),
            prev_mean,
            samples.last() as int,
            new_mean,
        ),
{
    let rest = samples.drop_last();
    if samples.len() == 1 {
        assert(sum(rest) == 0);
    }
    assert(residual(samples, new_mean) == 0);
    assert(residual(rest, prev_mean) == 0) by (nonlinear_arith)
        requires
            residual(rest, prev_mean) == sum(rest) - rest.len() * prev_mean,
            rest.len() == 0 ==> sum(rest) == 0,
            rest.len() > 0 ==> rest.len() * prev_mean == sum(rest),
    ;
    lemma_welford_step_rounded(samples, prev_mean, new_mean);
    assert((new_mean - prev_mean) * (0 + 0) == 0) by (nonlinear_arith);
}

/// Whether `root` is the square root of `value`, rounded down.
pub open spec fn is_sqrt_floor(value: int, root: int) -> bool {
    0 <= root && root * root <= value < (root + 1) * (root + 1)
}

/// The square root of `value`, rounded down; 0 where `value` is negative.
pub open spec fn sqrt_floor(value: int) -> int {
    if value <= 0 {
        0
    } else {
        choose|root: int| is_sqrt_floor(value, root)
    }
}

/// A number has at most one rounded-down square root.
pub proof fn lemma_sqrt_floor_unique(value: int, a: int, b: int)
    requires
        is_sqrt_floor(value, a),
        is_sqrt_floor(value, b),
    ensures
        a == b,
{
    if a < b {
        assert((a + 1) * (a + 1) <= b * b) by (nonlinear_arith)
            requires
                0 <= a,
                a + 1 <= b,
        ;
    } else if b < a {
        assert((b + 1) * (b + 1) <= a * a) by (nonlinear_arith)
            requires
                0 <= b,
                b + 1 <= a,
        ;
    }
}

/// Whoever exhibits a rounded-down square root of `value` has found
/// `sqrt_floor(value)`.
pub proof fn lemma_sqrt_floor_is(value: int, root: int)
    requires
        is_sqrt_floor(value, root),
    ensures
        sqrt_floor(value) == root,
{
    if value <= 0 {
        assert(root * root >= 0) by (nonlinear_arith);
        if root > 0 {
            assert(root * root > 0) by (nonlinear_arith)
                requires
                    root > 0,
            ;
        }
    } else {
        lemma_sqrt_floor_unique(value, root, choose|r: int| is_sqrt_floor(value, r));
    }
}

/// Computes the square root of `value`, rounded down, by bisection.
pub fn integer_sqrt(value: u128) -> (root: u64)
    ensures
        is_sqrt_floor(value as int, root as int),
        root == sqrt_floor(value as int),
{
    let mut low: u128 = 0;
    let mut high: u128 = 0x1_0000_0000_0000_0000;
    assert(low * low <= value);
    assert(value < high * high) by (nonlinear_arith)
        requires
            high == 0x1_0000_0000_0000_0000,
            value <= u128::MAX,
    ;
    while high - low > 1
        invariant
            low < high <= 0x1_0000_0000_0000_0000,
            low * low <= value < high * high,
        decreases high - low,
    {
        let mid: u128 = low + (high - low) / 2;
        assert(mid * mid <= u128::MAX) by (nonlinear_arith)
            requires
                0 <= mid < 0x1_0000_0000_0000_0000,
        ;
        if mid * mid <= value {
            low = mid;
        } else {
            high = mid;
        }
    }
    proof {
        lemma_sqrt_floor_is(value as int, low as int);
    }
    low as u64
}

/// Welford's online algorithm: the sum of squared deviations from the mean
/// is carried from sample to sample, without keeping the samples.
pub struct WelfordOnline;

impl WelfordOnline {
    /// The accumulator after a new sample: the old accumulator plus the
    /// product of the sample's distances from the old and the new mean.
    pub open spec fn recurrence_relation_m(
        prev_m: int,
        prev_mean: int,
        new_value: int,
        new_mean: int,
    ) -> int {
        prev_m + (new_value - prev_mean) * (new_value - new_mean)
    }

    /// Whether the product of the two distances and the new accumulator can
    /// both be held in an `i128`.
    pub open spec fn recurrence_fits(
        prev_m: int,
        prev_mean: int,
        new_value: int,
        new_mean: int,
    ) -> bool {
        &&& i128::MIN <= (new_value - prev_mean) * (new_value - new_mean) <= i128::MAX
        &&& i128::MIN <= Self::recurrence_relation_m(prev_m, prev_mean, new_value, new_mean)
            <= i128::MAX
    }

    /// The population variance, rounded down: accumulator over sample count.
    pub open spec fn population_variance(recurrence_relation_m: int, count: int) -> int {
        recurrence_relation_m / count
    }

    /// Computes the next accumulator, or `None` where it cannot be held.
    pub fn checked_recurrence_relation_m(
        prev_m: i128,
        prev_mean: i64,
        new_value: i64,
        new_mean: i64,
    ) -> (m: Option<i128>)
        ensures
            m == if Self::recurrence_fits(
                prev_m as int,
                prev_mean as int,
                new_value as int,
                new_mean as int,
            ) {
                Some(
                    Self::recurrence_relation_m(
                        prev_m as int,
                        prev_mean as int,
                        new_value as int,
                        new_mean as int,
                    ) as i128,
                )
            } else {
                None
            },
    {
        let from_prev: i128 = new_value as i128 - prev_mean as i128;
        let from_new: i128 = new_value as i128 - new_mean as i128;
        match from_prev.checked_mul(from_new) {
            Some(product) => prev_m.checked_add(product),
            None => None,
        }
    }

    /// Computes the next accumulator.
    pub fn calculate_recurrence_relation_m(
        prev_m: i128,
        prev_mean: i64,
        new_value: i64,
        new_mean: i64,
    ) -> (m: i128)
        requires
            Self::recurrence_fits(
                prev_m as int,
                prev_mean as int,
                new_value as int,
                new_mean as int,
            ),
        ensures
            m == Self::recurrence_relation_m(
                prev_m as int,
                prev_mean as int,
                new_value as int,
                new_mean as int,
            ),
    {
        let from_prev: i128 = new_value as i128 - prev_mean as i128;
        let from_new: i128 = new_value as i128 - new_mean as i128;
        prev_m + from_prev * from_new
    }

    /// Computes the population variance of `count` samples from their
    /// accumulator, rounded down.
    pub fn calculate_population_variance(recurrence_relation_m: i128, count: usize) -> (variance: i128)
        requires
            count > 0,
        ensures
            variance == Self::population_variance(recurrence_relation_m as int, count as int),
    {
        let divisor: i128 = count as i128;
        proof {
            let quotient = recurrence_relation_m as int / divisor as int;
            assert(i128::MIN <= quotient <= i128::MAX) by (nonlinear_arith)
                requires
                    quotient == recurrence_relation_m as int / divisor as int,
                    divisor >= 1,
                    i128::MIN <= recurrence_relation_m <= i128::MAX,
            ;
        }
        match recurrence_relation_m.checked_div_euclid(divisor) {
            Some(variance) => variance,
            None => 0,
        }
    }
}

} // verus!
