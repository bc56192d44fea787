use vstd::prelude::*;

use crate::numeric::Scalar;

verus! {

/// The sum of the first `n` elements of `s`, accumulated left to right.
pub open spec fn prefix_sum<T: Scalar>(s: Seq<T>, n: int) -> T
    decreases n,
{
    if n <= 0 {
        T::spec_zero()
    } else {
        prefix_sum(s, n - 1).spec_plus(s[n - 1])
    }
}

/// The running sum carried by the rolling-mean slide at position `i`: the
/// left-to-right sum of the first full window for the first filled
/// position, and from then on the previous running sum minus the element
/// leaving the window plus the element entering it. The recurrence, not a
/// from-scratch recomputation, is the quantity the algorithm divides.
pub open spec fn window_sum<T: Scalar>(s: Seq<T>, w: int, i: int) -> T
    decreases i - w + 1,
{
    if i <= w - 1 {
        prefix_sum(s, w)
    } else {
        window_sum(s, w, i - 1).spec_minus(s[i - w]).spec_plus(s[i])
    }
}

/// The mean over every contiguous window of `window_size` elements of
/// `data`, one output per input position.
///
/// The first `window_size - 1` positions have no full window ending at them
/// and hold `None`; every later position `i` holds `Some` mean of the window
/// `[i - window_size + 1, i]`, computed as the running window sum divided by
/// the window size. The sum is carried along and updated by one subtraction
/// and one addition per step, rather than recomputed, so each output costs
/// the same regardless of the window size; the slight rounding drift this
/// can accumulate over long inputs is an accepted trade-off, and the
/// contract pins that order of operations.
///
/// A window smaller than 2 or larger than the input is a caller bug, not a
/// runtime condition, and is excluded up front rather than reported as a
/// recoverable value.
pub fn rolling_mean<T: Scalar>(data: &[T], window_size: usize) -> (r: Vec<Option<T>>)
    requires
        2 <= window_size,
        window_size <= data@.len(),
    ensures
        r@.len() == data@.len(),
        forall|i: int| 0 <= i < window_size - 1 ==> r@[i] is None,
        forall|i: int| window_size - 1 <= i < data@.len() ==> #[trigger] r@[i] == Some(
            window_sum(data@, window_size as int, i).spec_divided_by(
                T::spec_from_count(window_size),
            ),
        ),
{
    let mut means_vec: Vec<Option<T>> = Vec::new();
    let mut j: usize = 0;
    while j < window_size - 1
        invariant
            2 <= window_size,
            j <= window_size - 1,
            means_vec@.len() == j,
            forall|k: int| 0 <= k < j ==> means_vec@[k] is None,
        decreases window_size - 1 - j,
    {
        means_vec.push(None);
        j = j + 1;
    }
    let mut sum = T::zero();
    let mut k: usize = 0;
    while k < window_size
        invariant
            k <= window_size,
            window_size <= data@.len(),
            sum == prefix_sum(data@, k as int),
        decreases window_size - k,
    {
        sum = sum.plus(data[k]);
        k = k + 1;
    }
    let window_count = T::from_count(window_size);
    means_vec.push(Some(sum.divided_by(window_count)));
    let mut i: usize = window_size;
    while i < data.len()
        invariant
            2 <= window_size,
            window_size <= i,
            i <= data@.len(),
            means_vec@.len() == i,
            window_count == T::spec_from_count(window_size),
            sum == window_sum(data@, window_size as int, i - 1),
            forall|k: int| 0 <= k < window_size - 1 ==> means_vec@[k] is None,
            forall|k: int| window_size - 1 <= k < i ==> #[trigger] means_vec@[k] == Some(
                window_sum(data@, window_size as int, k).spec_divided_by(
                    T::spec_from_count(window_size),
                ),
            ),
        decreases data@.len() - i,
    {
        sum = sum.minus(data[i - window_size]).plus(data[i]);
        means_vec.push(Some(sum.divided_by(window_count)));
        i = i + 1;
    }
    means_vec
}

} // verus!
