//! A rejection-sampling spatial point process with a minimum separation.
//!
//! Candidate points are drawn from a caller-supplied stream and accepted
//! only where they fall inside the region and keep more than the minimum
//! separation from every point accepted before, so that no two discs of
//! the given radius can overlap.  A global retry budget bounds the work:
//! running out of budget is a normal outcome that simply yields fewer
//! points than requested.  Distances are compared squared, so there is no
//! rounding anywhere near the threshold.

use vstd::prelude::*;

verus! {

/// The squared Euclidean distance between two grid points.
pub open spec fn spec_distance_sq(a: (u32, u32), b: (u32, u32)) -> int {
    let dx = if a.0 >= b.0 {
        a.0 - b.0
    } else {
        b.0 - a.0
    };
    let dy = if a.1 >= b.1 {
        a.1 - b.1
    } else {
        b.1 - a.1
    };
    dx * dx + dy * dy
}

/// The squared Euclidean distance between two grid points.
pub fn distance_sq(a: (u32, u32), b: (u32, u32)) -> (r: u32)
    requires
        a.0 <= 46340,
        a.1 <= 46340,
        b.0 <= 46340,
        b.1 <= 46340,
    ensures
        r == spec_distance_sq(a, b),
{
    let dx: u32 = if a.0 > b.0 {
        a.0 - b.0
    } else {
        b.0 - a.0
    };
    let dy: u32 = if a.1 > b.1 {
        a.1 - b.1
    } else {
        b.1 - a.1
    };
    proof {
        lemma_square_bounded(dx as int, 46340);
        lemma_square_bounded(dy as int, 46340);
    }
    dx * dx + dy * dy
}

/// The square of a bounded value is bounded by the square of the bound.
proof fn lemma_square_bounded(v: int, bound: int)
    requires
        0 <= v <= bound,
    ensures
        0 <= v * v <= bound * bound,
{
    vstd::arithmetic::mul::lemma_mul_upper_bound(v, bound, v, bound);
    vstd::arithmetic::mul::lemma_mul_nonnegative(v, v);
}

/// Whether `p` lies inside the `width` by `height` region.
pub open spec fn spec_in_bounds(p: (u32, u32), width: u32, height: u32) -> bool {
    p.0 < width && p.1 < height
}

/// Whether `p` keeps more than `dist_sq` of squared distance from every
/// point of `samples`.
pub open spec fn spec_far_from_all(samples: Seq<(u32, u32)>, p: (u32, u32), dist_sq: int) -> bool {
    forall|i: int| 0 <= i < samples.len() ==> spec_distance_sq(#[trigger] samples[i], p) > dist_sq
}

/// Whether the process accepts candidate `p` given the points accepted so
/// far.
pub open spec fn spec_accepts(
    samples: Seq<(u32, u32)>,
    p: (u32, u32),
    width: u32,
    height: u32,
    dist_sq: int,
) -> bool {
    spec_in_bounds(p, width, height) && spec_far_from_all(samples, p, dist_sq)
}

/// What the process has produced when it stops: the accepted points in
/// acceptance order, and the retry budget left.
pub struct PoissonOutcome {
    /// The accepted points, first the seed point, then in acceptance order.
    pub samples: Seq<(u32, u32)>,
    /// The retry budget that remained when the process stopped.
    pub retries: int,
}

/// The state of the process after it has worked through the candidate
/// stream `draws` from position `i`, starting from the given accepted
/// points and retry budget: each candidate in turn is either accepted or
/// charged to the budget, until the stream or the budget runs out or
/// `count` points are accepted.
pub open spec fn spec_process(
    draws: Seq<(u32, u32)>,
    i: int,
    samples: Seq<(u32, u32)>,
    retries: int,
    width: u32,
    height: u32,
    dist_sq: int,
    count: int,
) -> PoissonOutcome
    decreases draws.len() - i,
{
    if i < 0 || i >= draws.len() || samples.len() >= count || retries <= 0 {
        PoissonOutcome { samples, retries }
    } else if spec_accepts(samples, draws[i], width, height, dist_sq) {
        spec_process(draws, i + 1, samples.push(draws[i]), retries, width, height, dist_sq, count)
    } else {
        spec_process(draws, i + 1, samples, retries - 1, width, height, dist_sq, count)
    }
}

/// The seed point of the process: the centre cell of the region.
pub open spec fn spec_center(width: u32, height: u32) -> (u32, u32) {
    ((((width - 1) as int / 2) as u32), (((height - 1) as int / 2) as u32))
}

/// The whole run of the process on the candidate stream `draws`: seeded
/// with the centre point, with squared separation `(2 * radius)^2` and the
/// full retry budget.
pub open spec fn spec_poisson(
    draws: Seq<(u32, u32)>,
    width: u32,
    height: u32,
    count: u32,
    radius: u32,
    max_retries: u32,
) -> PoissonOutcome {
    spec_process(
        draws,
        0,
        seq![spec_center(width, height)],
        max_retries as int,
        width,
        height,
        4 * radius * radius,
        count as int,
    )
}

/// Whether every point of `samples` lies inside the region.
pub open spec fn spec_all_in_bounds(samples: Seq<(u32, u32)>, width: u32, height: u32) -> bool {
    forall|i: int| 0 <= i < samples.len() ==> spec_in_bounds(#[trigger] samples[i], width, height)
}

/// Whether every pair of distinct points of `samples` keeps more than
/// `dist_sq` of squared distance.
pub open spec fn spec_pairwise_separated(samples: Seq<(u32, u32)>, dist_sq: int) -> bool {
    forall|i: int, j: int|
        0 <= i < j < samples.len() ==> spec_distance_sq(
            #[trigger] samples[i],
            #[trigger] samples[j],
        ) > dist_sq
}

/// Whether `p` keeps more than `dist_sq` of squared distance from every
/// point of `samples`.
fn all_far(samples: &Vec<(u32, u32)>, p: (u32, u32), dist_sq: u128) -> (r: bool)
    ensures
        r == spec_far_from_all(samples@, p, dist_sq as int),
{
    let n = samples.len();
    let mut i: usize = 0;
    while i < n
        invariant
            n == samples@.len(),
            0 <= i <= n,
            forall|j: int|
                0 <= j < i ==> spec_distance_sq(#[trigger] samples@[j], p) > dist_sq,
        decreases n - i,
    {
        let s = samples[i];
        let dx: u32 = if s.0 > p.0 {
            s.0 - p.0
        } else {
            p.0 - s.0
        };
        let dy: u32 = if s.1 > p.1 {
            s.1 - p.1
        } else {
            p.1 - s.1
        };
        proof {
            lemma_square_bounded(dx as int, u32::MAX as int);
            lemma_square_bounded(dy as int, u32::MAX as int);
        }
        let d: u128 = (dx as u128) * (dx as u128) + (dy as u128) * (dy as u128);
        if d <= dist_sq {
            return false;
        }
        i = i + 1;
    }
    true
}

/// Place up to `count` points in the `width` by `height` region, no two
/// closer than twice `radius`, reading candidates from `draws`.
///
/// The first point is always the centre of the region.  Each candidate is
/// accepted where it lies in the region and keeps more than `(2 *
/// radius)^2` of squared distance from every accepted point; otherwise it
/// consumes one unit of the retry budget.  The process stops once `count`
/// points are accepted, the budget is spent, or the candidates run out.
/// Given at least `count - 1 + max_retries` candidates, stopping short of
/// `count` points can only mean the budget is spent, which is a normal
/// outcome: the result is simply fewer points than requested.
pub fn poisson_discrete(
    draws: &Vec<(u32, u32)>,
    width: u32,
    height: u32,
    count: u32,
    radius: u32,
    max_retries: u32,
) -> (samples: Vec<(u32, u32)>)
    requires
        width > 0,
        height > 0,
        count > 0,
        radius > 0,
    ensures
        samples@ == spec_poisson(draws@, width, height, count, radius, max_retries).samples,
        1 <= samples@.len() <= count,
        samples@[0] == spec_center(width, height),
        spec_all_in_bounds(samples@, width, height),
        spec_pairwise_separated(samples@, 4 * radius * radius),
        draws@.len() >= count - 1 + max_retries ==> samples@.len() == count || spec_poisson(
            draws@,
            width,
            height,
            count,
            radius,
            max_retries,
        ).retries == 0,
{
    let twice_radius: u128 = 2 * (radius as u128);
    proof {
        lemma_square_bounded(twice_radius as int, 2 * (u32::MAX as int));
    }
    let dist_sq: u128 = twice_radius * twice_radius;
    proof {
        assert(dist_sq == 4 * radius * radius) by (nonlinear_arith)
            requires
                dist_sq == (2 * (radius as int)) * (2 * (radius as int)),
        {
        }
    }
    let center: (u32, u32) = ((width - 1) / 2, (height - 1) / 2);
    let mut samples: Vec<(u32, u32)> = Vec::new();
    samples.push(center);
    proof {
        assert(samples@ =~= seq![spec_center(width, height)]);
    }
    let mut retries: u32 = max_retries;
    let mut i: usize = 0;
    loop
        invariant
            width > 0,
            height > 0,
            count > 0,
            dist_sq == 4 * radius * radius,
            0 <= i <= draws@.len(),
            1 <= samples@.len() <= count,
            samples@[0] == spec_center(width, height),
            retries <= max_retries,
            spec_all_in_bounds(samples@, width, height),
            spec_pairwise_separated(samples@, dist_sq as int),
            i == (samples@.len() - 1) + (max_retries - retries),
            spec_process(
                draws@,
                i as int,
                samples@,
                retries as int,
                width,
                height,
                dist_sq as int,
                count as int,
            ) == spec_poisson(draws@, width, height, count, radius, max_retries),
        ensures
            samples@ == spec_poisson(draws@, width, height, count, radius, max_retries).samples,
            retries == spec_poisson(draws@, width, height, count, radius, max_retries).retries,
            i >= draws@.len() || samples@.len() >= count || retries == 0,
        decreases draws@.len() - i,
    {
        if i >= draws.len() || samples.len() >= count as usize || retries == 0 {
            break;
        }
        let p: (u32, u32) = draws[i];
        if p.0 < width && p.1 < height && all_far(&samples, p, dist_sq) {
            samples.push(p);
        } else {
            retries = retries - 1;
        }
        i = i + 1;
    }
    samples
}

} // verus!
