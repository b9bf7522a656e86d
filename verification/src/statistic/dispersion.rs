use crate::statistic::algorithm::{integer_sqrt, is_mean, lemma_welford_step};
use crate::statistic::algorithm::{lemma_welford_step_rounded, residual};
use crate::statistic::algorithm::{sqrt_floor, squared_deviations, WelfordOnline};
use vstd::prelude::*;

verus! {

/// Spread of a stream of samples: its range, the running sum of squared
/// deviations from the mean, and the population variance and standard
/// deviation that follow from it.
#[derive(Debug, Clone, Copy, PartialOrd, PartialEq, Eq, Structural)]
pub struct Dispersion {
    pub range: Range,
    pub recurrence_relation_m: i128,
    pub variance: i128,
    pub standard_deviation: u64,
}

impl Default for Dispersion {
    fn default() -> (dispersion: Self)
        ensures
            dispersion == (Dispersion {
                range: Range { activated: false, highest: 0, lowest: 0 },
                recurrence_relation_m: 0,
                variance: 0,
                standard_deviation: 0,
            }),
    {
        Self {
            range: Range::default(),
            recurrence_relation_m: 0,
            variance: 0,
            standard_deviation: 0,
        }
    }
}

impl Dispersion {
    /// Whether [`Dispersion::update`] can take these arguments: the count
    /// includes the new sample, and the new accumulator can be held.
    pub open spec fn accepts(
        &self,
        prev_mean: i64,
        new_mean: i64,
        new_value: i64,
        value_count: usize,
    ) -> bool {
        &&& value_count > 0
        &&& WelfordOnline::recurrence_fits(
            self.recurrence_relation_m as int,
            prev_mean as int,
            new_value as int,
            new_mean as int,
        )
    }

    /// Whether `next` is this dispersion after one more sample.
    pub open spec fn steps_to(
        &self,
        next: Dispersion,
        prev_mean: i64,
        new_mean: i64,
        new_value: i64,
        value_count: usize,
    ) -> bool {
        &&& next.range == self.range.updated(new_value)
        &&& next.recurrence_relation_m == WelfordOnline::recurrence_relation_m(
            self.recurrence_relation_m as int,
            prev_mean as int,
            new_value as int,
            new_mean as int,
        )
        &&& next.variance == WelfordOnline::population_variance(
            next.recurrence_relation_m as int,
            value_count as int,
        )
        &&& next.standard_deviation == sqrt_floor(next.variance as int)
    }

    /// Takes in one more sample. The caller supplies the mean of the samples
    /// before it, the mean including it, and the count including it.
    pub fn update(&mut self, prev_mean: i64, new_mean: i64, new_value: i64, value_count: usize)
        requires
            old(self).accepts(prev_mean, new_mean, new_value, value_count),
        ensures
            old(self).steps_to(*final(self), prev_mean, new_mean, new_value, value_count),
    {
        self.range.update(new_value);
        self.recurrence_relation_m = WelfordOnline::calculate_recurrence_relation_m(
            self.recurrence_relation_m,
            prev_mean,
            new_value,
            new_mean,
        );
        self.variance = WelfordOnline::calculate_population_variance(
            self.recurrence_relation_m,
            value_count,
        );
        // A mis-sequenced call can leave a negative variance, which has no root.
        self.standard_deviation = if self.variance > 0 {
            integer_sqrt(self.variance as u128)
        } else {
            0
        };
    }

    /// Takes in one more sample if [`Dispersion::update`] can take it, and
    /// says whether it did. Otherwise nothing changes.
    pub fn try_update(
        &mut self,
        prev_mean: i64,
        new_mean: i64,
        new_value: i64,
        value_count: usize,
    ) -> (updated: bool)
        ensures
            updated == old(self).accepts(prev_mean, new_mean, new_value, value_count),
            updated ==> old(self).steps_to(
                *final(self),
                prev_mean,
                new_mean,
                new_value,
                value_count,
            ),
            !updated ==> *final(self) == *old(self),
    {
        if value_count == 0 {
            return false;
        }
        let fits = WelfordOnline::checked_recurrence_relation_m(
            self.recurrence_relation_m,
            prev_mean,
            new_value,
            new_mean,
        );
        match fits {
            Some(_) => {
                self.update(prev_mean, new_mean, new_value, value_count);
                true
            },
            None => false,
        }
    }
}

/// Whether `states` is what a dispersion goes through while it takes in
/// `samples` one by one: `states[k]` becomes `states[k + 1]` by an update with
/// sample `k`, the means supplied with it, and the count `k + 1`.
pub open spec fn is_history(
    states: Seq<Dispersion>,
    samples: Seq<i64>,
    prev_means: Seq<i64>,
    new_means: Seq<i64>,
) -> bool {
    &&& states.len() == samples.len() + 1
    &&& prev_means.len() == samples.len()
    &&& new_means.len() == samples.len()
    &&& samples.len() <= usize::MAX
    &&& forall|k: int|
        0 <= k < samples.len() ==> (#[trigger] states[k]).steps_to(
            states[k + 1],
            prev_means[k],
            new_means[k],
            samples[k],
            (k + 1) as usize,
        )
}

/// Whether the means supplied with each sample are the true ones: the new
/// mean is exactly the mean of the samples so far, and from the second
/// sample on the previous mean is the new mean of the sample before.
pub open spec fn means_are_exact(samples: Seq<i64>, prev_means: Seq<i64>, new_means: Seq<i64>) -> bool {
    &&& prev_means.len() == samples.len()
    &&& new_means.len() == samples.len()
    &&& forall|k: int|
        0 <= k < samples.len() ==> is_mean(samples.take(k + 1), #[trigger] new_means[k] as int)
    &&& forall|k: int| 0 < k < samples.len() ==> #[trigger] prev_means[k] == new_means[k - 1]
}

/// The variance computed online equals the population variance in closed
/// form. Where a dispersion that starts with an accumulator of zero takes in
/// samples together with their exact means, then after `count` of them its
/// accumulator is the sum of the squared deviations of those samples from
/// their mean, and its variance is that sum over `count`, rounded down.
pub proof fn lemma_online_variance_is_population_variance(
    states: Seq<Dispersion>,
    samples: Seq<i64>,
    prev_means: Seq<i64>,
    new_means: Seq<i64>,
    count: int,
)
    requires
        is_history(states, samples, prev_means, new_means),
        means_are_exact(samples, prev_means, new_means),
        states[0].recurrence_relation_m == 0,
        0 < count <= samples.len(),
    ensures
        states[count].recurrence_relation_m == squared_deviations(
            samples.take(count),
            new_means[count - 1] as int,
        ),
        states[count].variance == squared_deviations(
            samples.take(count),
            new_means[count - 1] as int,
        ) / count,
        states[count].standard_deviation == sqrt_floor(states[count].variance as int),
    decreases count,
{
    let k = count - 1;
    let taken = samples.take(count);
    assert(states[k].steps_to(
        states[k + 1],
        prev_means[k],
        new_means[k],
        samples[k],
        (k + 1) as usize,
    ));
    assert(taken.drop_last() =~= samples.take(k));
    if k > 0 {
        lemma_online_variance_is_population_variance(states, samples, prev_means, new_means, k);
        assert(is_mean(samples.take(k - 1 + 1), new_means[k - 1] as int));
    } else {
        assert(squared_deviations(samples.take(0), prev_means[k] as int) == 0);
    }
    lemma_welford_step(taken, prev_means[k] as int, new_means[k] as int);
}

/// Whether, from the second sample on, the previous mean supplied with a
/// sample is the new mean that was supplied with the sample before it.
pub open spec fn means_follow(prev_means: Seq<i64>, new_means: Seq<i64>) -> bool {
    &&& prev_means.len() == new_means.len()
    &&& forall|k: int| 0 < k < prev_means.len() ==> #[trigger] prev_means[k] == new_means[k - 1]
}

/// What means that are not exact add to the accumulator over the first
/// `count` samples: for each sample, the distance between the two means
/// supplied with it, times the sum of their residuals.
pub open spec fn rounding_drift(
    samples: Seq<i64>,
    prev_means: Seq<i64>,
    new_means: Seq<i64>,
    count: int,
) -> int
    decreases count,
{
    if count <= 0 {
        0
    } else {
        let k = count - 1;
        rounding_drift(samples, prev_means, new_means, k) + (new_means[k] - prev_means[k]) * (
        residual(samples.take(k + 1), new_means[k] as int) + residual(
            samples.take(k),
            prev_means[k] as int,
        ))
    }
}

/// The accumulator computed online, whatever means are supplied. Where a
/// dispersion that starts with an accumulator of zero takes in samples, each
/// with the new mean of the sample before as its previous mean, then after
/// `count` of them its accumulator is the sum of the squared deviations of
/// those samples from the last mean supplied, plus the rounding drift, and
/// its variance is that over `count`, rounded down.
pub proof fn lemma_online_accumulator(
    states: Seq<Dispersion>,
    samples: Seq<i64>,
    prev_means: Seq<i64>,
    new_means: Seq<i64>,
    count: int,
)
    requires
        is_history(states, samples, prev_means, new_means),
        means_follow(prev_means, new_means),
        states[0].recurrence_relation_m == 0,
        0 < count <= samples.len(),
    ensures
        states[count].recurrence_relation_m == squared_deviations(
            samples.take(count),
            new_means[count - 1] as int,
        ) + rounding_drift(samples, prev_means, new_means, count),
        states[count].variance == (squared_deviations(
            samples.take(count),
            new_means[count - 1] as int,
        ) + rounding_drift(samples, prev_means, new_means, count)) / count,
    decreases count,
{
    let k = count - 1;
    let taken = samples.take(count);
    assert(states[k].steps_to(
        states[k + 1],
        prev_means[k],
        new_means[k],
        samples[k],
        (k + 1) as usize,
    ));
    assert(taken.drop_last() =~= samples.take(k));
    if k > 0 {
        lemma_online_accumulator(states, samples, prev_means, new_means, k);
        assert(prev_means[k] == new_means[k - 1]);
    } else {
        assert(squared_deviations(samples.take(0), prev_means[k] as int) == 0);
        assert(rounding_drift(samples, prev_means, new_means, 0) == 0);
    }
    lemma_welford_step_rounded(taken, prev_means[k] as int, new_means[k] as int);
}

/// The rounding drift is small where the means are close. If, for each of
/// the first `count` samples, the two means supplied with it lie within
/// `step` of each other and their residuals within `slack` of zero, the drift
/// lies within `2 * step * slack * count` of zero. Means rounded to a whole
/// number have residuals within the number of samples.
pub proof fn lemma_rounding_drift_bound(
    samples: Seq<i64>,
    prev_means: Seq<i64>,
    new_means: Seq<i64>,
    count: int,
    step: int,
    slack: int,
)
    requires
        0 <= count <= samples.len(),
        prev_means.len() == samples.len(),
        new_means.len() == samples.len(),
        0 <= step,
        0 <= slack,
        forall|k: int|
            0 <= k < count ==> -step <= #[trigger] new_means[k] - prev_means[k] <= step,
        forall|k: int|
            0 <= k < count ==> -slack <= residual(
                samples.take(k + 1),
                #[trigger] new_means[k] as int,
            ) <= slack,
        forall|k: int|
            0 <= k < count ==> -slack <= residual(samples.take(k), #[trigger] prev_means[k] as int)
                <= slack,
    ensures
        -2 * step * slack * count <= rounding_drift(samples, prev_means, new_means, count) <= 2
            * step * slack * count,
    decreases count,
{
    if count > 0 {
        let k = count - 1;
        lemma_rounding_drift_bound(samples, prev_means, new_means, k, step, slack);
        let d = new_means[k] - prev_means[k];
        let r = residual(samples.take(k + 1), new_means[k] as int) + residual(
            samples.take(k),
            prev_means[k] as int,
        );
        let before = rounding_drift(samples, prev_means, new_means, k);
        assert(-2 * step * slack <= d * r <= 2 * step * slack) by (nonlinear_arith)
            requires
                -step <= d <= step,
                -2 * slack <= r <= 2 * slack,
                0 <= step,
                0 <= slack,
        ;
        assert(-2 * step * slack * count <= before + d * r <= 2 * step * slack * count)
            by (nonlinear_arith)
            requires
                -2 * step * slack * (count - 1) <= before <= 2 * step * slack * (count - 1),
                -2 * step * slack <= d * r <= 2 * step * slack,
        ;
    } else {
        assert(2 * step * slack * 0 == 0) by (nonlinear_arith);
        assert(-2 * step * slack * 0 == 0) by (nonlinear_arith);
    }
}

/// Samples and means of at most this magnitude make any run of up to
/// [`BOUNDED_RUN`] updates acceptable.
pub const SAMPLE_BOUND: i64 = 0x40_0000_0000_0000;

/// The length of run that [`SAMPLE_BOUND`] is chosen for.
pub const BOUNDED_RUN: usize = 100_000;

/// How far from zero the accumulator can be after `count` samples that lie,
/// with their means, within `bound` of zero: each sample adds a product of
/// two distances of at most twice `bound`.
pub open spec fn accumulator_limit(bound: int, count: int) -> int {
    4 * (bound * bound) * count
}

/// An update is accepted where the sample and both means lie within `bound`
/// of zero, the accumulator within the limit for the samples taken in so
/// far, and the limit for one more sample can be held. The new accumulator is
/// then within that larger limit.
pub proof fn lemma_accepts_within_bound(
    dispersion: Dispersion,
    prev_mean: i64,
    new_mean: i64,
    new_value: i64,
    value_count: usize,
    bound: int,
)
    requires
        value_count > 0,
        -bound <= prev_mean <= bound,
        -bound <= new_mean <= bound,
        -bound <= new_value <= bound,
        -accumulator_limit(bound, value_count - 1) <= dispersion.recurrence_relation_m
            <= accumulator_limit(bound, value_count - 1),
        accumulator_limit(bound, value_count as int) <= i128::MAX,
    ensures
        dispersion.accepts(prev_mean, new_mean, new_value, value_count),
        -accumulator_limit(bound, value_count as int) <= WelfordOnline::recurrence_relation_m(
            dispersion.recurrence_relation_m as int,
            prev_mean as int,
            new_value as int,
            new_mean as int,
        ) <= accumulator_limit(bound, value_count as int),
{
    let from_prev = new_value - prev_mean;
    let from_new = new_value - new_mean;
    let square = bound * bound;
    let n = value_count as int;
    assert(-4 * square <= from_prev * from_new <= 4 * square) by (nonlinear_arith)
        requires
            square == bound * bound,
            -2 * bound <= from_prev <= 2 * bound,
            -2 * bound <= from_new <= 2 * bound,
    ;
    assert(4 * square * n == 4 * square * (n - 1) + 4 * square && 0 <= 4 * square * (n - 1))
        by (nonlinear_arith)
        requires
            square == bound * bound,
            n >= 1,
    ;
}

/// Up to [`BOUNDED_RUN`] samples within [`SAMPLE_BOUND`], with means within
/// it too, never overfill the accumulator: every update of such a run, from
/// an accumulator of zero, is accepted.
pub proof fn lemma_bounded_run_is_accepted(
    states: Seq<Dispersion>,
    samples: Seq<i64>,
    prev_means: Seq<i64>,
    new_means: Seq<i64>,
    k: int,
)
    requires
        is_history(states, samples, prev_means, new_means),
        states[0].recurrence_relation_m == 0,
        samples.len() <= BOUNDED_RUN,
        forall|i: int|
            0 <= i < samples.len() ==> -SAMPLE_BOUND <= #[trigger] samples[i] <= SAMPLE_BOUND,
        forall|i: int|
            0 <= i < samples.len() ==> -SAMPLE_BOUND <= #[trigger] prev_means[i] <= SAMPLE_BOUND,
        forall|i: int|
            0 <= i < samples.len() ==> -SAMPLE_BOUND <= #[trigger] new_means[i] <= SAMPLE_BOUND,
        0 <= k < samples.len(),
    ensures
        states[k].accepts(prev_means[k], new_means[k], samples[k], (k + 1) as usize),
        -accumulator_limit(SAMPLE_BOUND as int, k) <= states[k].recurrence_relation_m
            <= accumulator_limit(SAMPLE_BOUND as int, k),
    decreases k,
{
    let bound = SAMPLE_BOUND as int;
    assert(accumulator_limit(bound, k + 1) <= i128::MAX) by (nonlinear_arith)
        requires
            accumulator_limit(bound, k + 1) == 4 * (bound * bound) * (k + 1),
            bound == 0x40_0000_0000_0000,
            0 <= k < 100_000,
    ;
    if k > 0 {
        let j = k - 1;
        lemma_bounded_run_is_accepted(states, samples, prev_means, new_means, j);
        lemma_accepts_within_bound(
            states[j],
            prev_means[j],
            new_means[j],
            samples[j],
            (j + 1) as usize,
            bound,
        );
        assert(states[j].steps_to(
            states[j + 1],
            prev_means[j],
            new_means[j],
            samples[j],
            (j + 1) as usize,
        ));
    } else {
        assert(accumulator_limit(bound, 0) == 0) by (nonlinear_arith)
            requires
                accumulator_limit(bound, 0) == 4 * (bound * bound) * 0,
        ;
    }
    lemma_accepts_within_bound(
        states[k],
        prev_means[k],
        new_means[k],
        samples[k],
        (k + 1) as usize,
        bound,
    );
}

/// Highest and lowest sample seen so far. Until the first sample arrives the
/// range is not activated and its bounds mean nothing.
#[derive(Debug, Clone, Copy, PartialOrd, PartialEq, Eq, Structural)]
pub struct Range {
    pub activated: bool,
    pub highest: i64,
    pub lowest: i64,
}

impl Default for Range {
    fn default() -> (range: Self)
        ensures
            range == (Range { activated: false, highest: 0, lowest: 0 }),
    {
        Self { activated: false, highest: 0, lowest: 0 }
    }
}

impl Range {
    /// The range after one more sample: the first sample activates it and
    /// becomes both bounds, a later one moves a bound only outwards.
    pub open spec fn updated(self, new_value: i64) -> Range {
        if self.activated {
            Range {
                activated: true,
                highest: if new_value > self.highest {
                    new_value
                } else {
                    self.highest
                },
                lowest: if new_value < self.lowest {
                    new_value
                } else {
                    self.lowest
                },
            }
        } else {
            Range { activated: true, highest: new_value, lowest: new_value }
        }
    }

    /// The range after taking in `samples` one by one.
    pub open spec fn after(self, samples: Seq<i64>) -> Range
        decreases samples.len(),
    {
        if samples.len() == 0 {
            self
        } else {
            self.after(samples.drop_last()).updated(samples.last())
        }
    }

    /// A range whose bounds both start at `first_value`. It is not yet
    /// activated: the first update still sets both bounds.
    pub fn init(first_value: i64) -> (range: Self)
        ensures
            range == (Range { activated: false, highest: first_value, lowest: first_value }),
    {
        Self { activated: false, highest: first_value, lowest: first_value }
    }

    /// Takes in one more sample.
    pub fn update(&mut self, new_value: i64)
        ensures
            *final(self) == old(self).updated(new_value),
    {
        match self.activated {
            true => {
                if new_value > self.highest {
                    self.highest = new_value;
                }
                if new_value < self.lowest {
                    self.lowest = new_value;
                }
            },
            false => {
                self.activated = true;
                self.highest = new_value;
                self.lowest = new_value;
            },
        }
    }

    /// The width of the range: highest minus lowest.
    pub fn calculate(&self) -> (width: i128)
        ensures
            width == self.highest - self.lowest,
    {
        self.highest as i128 - self.lowest as i128
    }
}

/// An update activates the range, leaves the new sample within the bounds,
/// and never narrows an activated range.
pub proof fn lemma_update_widens(range: Range, new_value: i64)
    ensures
        range.updated(new_value).activated,
        range.updated(new_value).lowest <= new_value <= range.updated(new_value).highest,
        range.activated ==> range.updated(new_value).lowest <= range.lowest,
        range.activated ==> range.updated(new_value).highest >= range.highest,
{
}

/// After any non-empty run of updates the range is activated. If it was not
/// activated before, its bounds are then the highest and the lowest of the
/// samples; if it was, it has not narrowed and holds every sample.
pub proof fn lemma_range_after(start: Range, samples: Seq<i64>)
    requires
        samples.len() > 0,
    ensures
        start.after(samples).activated,
        start.after(samples).lowest <= start.after(samples).highest,
        forall|i: int|
            0 <= i < samples.len() ==> start.after(samples).lowest <= #[trigger] samples[i]
                <= start.after(samples).highest,
        start.activated ==> start.after(samples).lowest <= start.lowest,
        start.activated ==> start.after(samples).highest >= start.highest,
        !start.activated ==> exists|i: int|
            0 <= i < samples.len() && #[trigger] samples[i] == start.after(samples).highest,
        !start.activated ==> exists|i: int|
            0 <= i < samples.len() && #[trigger] samples[i] == start.after(samples).lowest,
    decreases samples.len(),
{
    let rest = samples.drop_last();
    let last = samples.len() - 1;
    if rest.len() > 0 {
        lemma_range_after(start, rest);
        let before = start.after(rest);
        let after = start.after(samples);
        assert forall|i: int| 0 <= i < samples.len() implies after.lowest <= #[trigger] samples[i]
            <= after.highest by {
            if i < last {
                assert(samples[i] == rest[i]);
            }
        }
        if !start.activated {
            let high = choose|i: int| 0 <= i < rest.len() && #[trigger] rest[i] == before.highest;
            let low = choose|i: int| 0 <= i < rest.len() && #[trigger] rest[i] == before.lowest;
            assert(samples[high] == rest[high]);
            assert(samples[low] == rest[low]);
            assert(samples[last] == samples.last());
        }
    } else {
        assert(start.after(rest) == start);
        assert(samples[last] == samples.last());
    }
}

} // verus!
