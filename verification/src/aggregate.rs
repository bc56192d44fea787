use vstd::prelude::*;

use crate::numeric::Scalar;

verus! {

/// The running mean that Welford's method reaches after folding in the
/// observations of `s` from left to right: each step moves the previous
/// mean by the deviation of the newest observation, divided by the new
/// count.
pub open spec fn welford_mean<T: Scalar>(s: Seq<T>) -> T
    decreases s.len(),
{
    if s.len() == 0 {
        T::spec_zero()
    } else {
        let prev = welford_mean(s.drop_last());
        let delta = s.last().spec_minus(prev);
        prev.spec_plus(delta.spec_divided_by(T::spec_from_count(s.len() as usize)))
    }
}

/// The running sum of squared deviations (`m2`) that Welford's method
/// reaches after folding in the observations of `s` from left to right.
/// Each step adds the newest observation's deviation from the previous mean
/// times its deviation from the updated mean — the updated mean, not the
/// old one, which is what makes the method numerically stable.
pub open spec fn welford_m2<T: Scalar>(s: Seq<T>) -> T
    decreases s.len(),
{
    if s.len() == 0 {
        T::spec_zero()
    } else {
        let prev_mean = welford_mean(s.drop_last());
        let delta = s.last().spec_minus(prev_mean);
        let delta2 = s.last().spec_minus(welford_mean(s));
        welford_m2(s.drop_last()).spec_plus(delta.spec_times(delta2))
    }
}

/// Running moments of a stream of observations, maintained by Welford's
/// online method: the number of observations folded in so far, their running
/// mean, and the running sum of squared deviations from that mean (`m2`).
///
/// The ghost field `observations` records the stream itself, oldest first,
/// so that the contracts can say how each operation relates to the
/// observations folded in; no observation is stored at run time.
pub struct ExistingAggregate<T> {
    /// How many observations have been folded in so far.
    pub count: usize,
    /// The running mean of the observations folded in so far.
    pub mean: T,
    /// The running sum of squared deviations from the running mean.
    pub m2: T,
    /// The observations folded in so far, oldest first.
    pub observations: Ghost<Seq<T>>,
}

impl<T: Scalar> ExistingAggregate<T> {
    /// The count is exactly the number of observations folded in so far,
    /// and the mean and `m2` fields hold exactly what Welford's method
    /// computes for that stream. `new` establishes this and `update`
    /// preserves it.
    pub open spec fn well_formed(self) -> bool {
        &&& self.count == self.observations@.len()
        &&& self.mean == welford_mean(self.observations@)
        &&& self.m2 == welford_m2(self.observations@)
    }

    /// An empty aggregate: no observations, zero mean, zero `m2`.
    pub fn new() -> (r: ExistingAggregate<T>)
        ensures
            r.count == 0,
            r.observations@ == Seq::<T>::empty(),
            r.mean == T::spec_zero(),
            r.m2 == T::spec_zero(),
            r.well_formed(),
    {
        ExistingAggregate {
            count: 0,
            mean: T::zero(),
            m2: T::zero(),
            observations: Ghost(Seq::empty()),
        }
    }

    /// Folds one observation into the aggregate and returns the same
    /// aggregate, so that updates can be chained.
    ///
    /// The count rises by exactly one, the observation is appended to the
    /// history, and mean and `m2` move by exactly one step of Welford's
    /// update rule at the chosen width: the mean by the deviation over the
    /// new count, and `m2` by the deviation from the old mean times the
    /// deviation from the updated mean.
    pub fn update(&mut self, new_value: T) -> (r: &mut ExistingAggregate<T>)
        requires
            old(self).count < usize::MAX,
        ensures
            r.count == old(self).count + 1,
            r.observations@ == old(self).observations@.push(new_value),
            r.mean == old(self).mean.spec_plus(
                new_value.spec_minus(old(self).mean).spec_divided_by(
                    T::spec_from_count((old(self).count + 1) as usize),
                ),
            ),
            r.m2 == old(self).m2.spec_plus(
                new_value.spec_minus(old(self).mean).spec_times(
                    new_value.spec_minus(r.mean),
                ),
            ),
            old(self).well_formed() ==> r.well_formed(),
            *final(self) == *final(r),
    {
        self.count = self.count + 1;
        let delta = new_value.minus(self.mean);
        self.mean = self.mean.plus(delta.divided_by(T::from_count(self.count)));
        let delta2 = new_value.minus(self.mean);
        self.m2 = self.m2.plus(delta.times(delta2));
        self.observations = Ghost(self.observations@.push(new_value));
        proof {
            assert(self.observations@.drop_last() =~= old(self).observations@);
        }
        self
    }

    /// Reads the moments accumulated so far, without changing the aggregate.
    ///
    /// Fewer than two observations is an expected, recoverable outcome:
    /// sample variance is undefined there, and the result is `None` exactly
    /// then. Otherwise the triple holds the running mean, the population
    /// variance `m2 / count`, and the sample variance `m2 / (count - 1)`.
    pub fn finalize(&self) -> (r: Option<(T, T, T)>)
        ensures
            r is Some <==> self.count >= 2,
            self.count >= 2 ==> r == Some(
                (
                    self.mean,
                    self.m2.spec_divided_by(T::spec_from_count(self.count)),
                    self.m2.spec_divided_by(T::spec_from_count((self.count - 1) as usize)),
                ),
            ),
    {
        if self.count < 2 {
            None
        } else {
            let mean = self.mean;
            let variance = self.m2.divided_by(T::from_count(self.count));
            let sample_variance = self.m2.divided_by(T::from_count(self.count - 1));
            Some((mean, variance, sample_variance))
        }
    }
}

/// Folds every element of `data`, in order, into a fresh aggregate and
/// finalizes it: `None` exactly when `data` holds fewer than two elements,
/// and otherwise exactly what updating a fresh aggregate with each element
/// left to right and finalizing it returns.
pub fn mean_and_variance<T: Scalar>(data: &[T]) -> (r: Option<(T, T, T)>)
    ensures
        r is Some <==> data@.len() >= 2,
        data@.len() >= 2 ==> r == Some(
            (
                welford_mean(data@),
                welford_m2(data@).spec_divided_by(T::spec_from_count(data@.len() as usize)),
                welford_m2(data@).spec_divided_by(
                    T::spec_from_count((data@.len() - 1) as usize),
                ),
            ),
        ),
{
    let mut exag = ExistingAggregate::<T>::new();
    proof {
        assert(exag.observations@ =~= data@.take(0));
    }
    let mut i: usize = 0;
    while i < data.len()
        invariant
            i <= data@.len(),
            exag.count == i,
            exag.observations@ == data@.take(i as int),
            exag.well_formed(),
        decreases data@.len() - i,
    {
        exag.update(data[i]);
        proof {
            assert(exag.observations@ =~= data@.take(i + 1));
        }
        i = i + 1;
    }
    proof {
        assert(exag.observations@ =~= data@);
    }
    exag.finalize()
}

} // verus!
