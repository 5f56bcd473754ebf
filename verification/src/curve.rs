//! The points of an engine's torque curve, paired from the engine speeds and
//! the torques that come as two separate lists.

use vstd::prelude::*;

verus! {

/// The smaller of two lengths.
pub open spec fn min_len(a: int, b: int) -> int {
    if a <= b {
        a
    } else {
        b
    }
}

/// The number of curve points is the length of the shorter list: no more
/// than either list holds, and all of one of them.
pub proof fn lemma_min_len_is_the_shorter(a: int, b: int)
    ensures
        a <= b ==> min_len(a, b) == a,
        b < a ==> min_len(a, b) == b,
        min_len(a, b) <= a,
        min_len(a, b) <= b,
        min_len(a, b) == a || min_len(a, b) == b,
{
}

/// Pairs the `k`-th speed with the `k`-th torque, for as many points as the
/// shorter list has; the extra entries of the longer list are left out.
pub fn pair_curve_points<A: Copy, B: Copy>(rpms: &Vec<A>, torques: &Vec<B>) -> (points: Vec<(A, B)>)
    ensures
        points.len() == min_len(rpms.len() as int, torques.len() as int),
        points.len() == (if rpms.len() <= torques.len() { rpms.len() } else { torques.len() }),
        points.len() <= rpms.len(),
        points.len() <= torques.len(),
        points.len() == rpms.len() || points.len() == torques.len(),
        forall|k: int| 0 <= k < points.len() ==> #[trigger] points@[k] == (rpms@[k], torques@[k]),
{
    let n: usize = if rpms.len() <= torques.len() {
        rpms.len()
    } else {
        torques.len()
    };
    let mut points: Vec<(A, B)> = Vec::new();
    let mut k: usize = 0;
    while k < n
        invariant
            n == min_len(rpms.len() as int, torques.len() as int),
            k <= n,
            points.len() == k,
            forall|j: int| 0 <= j < k ==> #[trigger] points@[j] == (rpms@[j], torques@[j]),
        decreases n - k,
    {
        points.push((rpms[k], torques[k]));
        k = k + 1;
    }
    points
}

} // verus!
