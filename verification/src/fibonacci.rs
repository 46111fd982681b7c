use vstd::prelude::*;

use crate::errors::SphereKitError;

verus! {

/// The denominator used for the latitude progression of an `n`-point
/// Fibonacci sphere: `n - 1` spreads the points from pole to pole, while a
/// single requested point divides by one so that it lands exactly on a pole.
/// The `n == 1` case is a deliberate singularity-avoidance policy, not an
/// approximation error: it must never divide by zero.
pub open spec fn fibonacci_denominator(n: usize) -> usize {
    if n > 1 {
        (n - 1) as usize
    } else {
        1usize
    }
}

/// Generates `n` near-uniform points on the unit sphere with the Fibonacci
/// spiral. The point at spiral index `i` is produced by the caller's `sample`
/// capability from the pair `(i, fibonacci_denominator(n))`; a sampler for
/// geographic output returns the point as (longitude, latitude).
///
/// Fails with `FibonacciError` exactly when `n == 0`; for every `n > 0` it
/// returns exactly `n` points, the `i`-th one a value of `sample(i, d)`.
pub fn fibonacci_sphere<C, F: Fn(usize, usize) -> (C, C)>(n: usize, sample: F) -> (result:
    Result<Vec<(C, C)>, SphereKitError<C>>)
    requires
        forall|i: usize, d: usize| #[trigger] call_requires(sample, (i, d)),
    ensures
        n == 0 ==> (result matches Err(SphereKitError::FibonacciError(m))
            && m@ == "Cannot generate zero points in fibonacci sphere"@),
        n > 0 ==> (result matches Ok(points) && points@.len() == n && forall|i: int|
            0 <= i < n ==> call_ensures(
                sample,
                (i as usize, fibonacci_denominator(n)),
                #[trigger] points@[i],
            )),
{
    if n == 0 {
        return Err(
            SphereKitError::FibonacciError(
                String::from_str("Cannot generate zero points in fibonacci sphere"),
            ),
        );
    }
    let denominator: usize = if n > 1 {
        n - 1
    } else {
        1
    };
    let mut points: Vec<(C, C)> = Vec::new();
    let mut i: usize = 0;
    while i < n
        invariant
            i <= n,
            denominator == fibonacci_denominator(n),
            points@.len() == i,
            forall|j: int|
                0 <= j < i ==> call_ensures(
                    sample,
                    (j as usize, fibonacci_denominator(n)),
                    #[trigger] points@[j],
                ),
            forall|k: usize, d: usize| #[trigger] call_requires(sample, (k, d)),
        decreases n - i,
    {
        let p = sample(i, denominator);
        points.push(p);
        i += 1;
    }
    Ok(points)
}

} // verus!
