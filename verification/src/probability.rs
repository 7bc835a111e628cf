//! A validated discrete probability distribution over values of any copy
//! type.
//!
//! Probabilities are fixed-point integers: a weight of [`WEIGHT_ONE`]
//! stands for one on the natural unit scale.  Construction checks the two
//! distribution invariants — every weight lies in `[0, WEIGHT_ONE]`, and
//! the weights sum to one within [`WEIGHT_TOLERANCE`] — and rejects a
//! malformed table instead of silently clamping it, which would bias the
//! distribution.

use vstd::prelude::*;

verus! {

/// The fixed-point representation of probability one.
pub const WEIGHT_ONE: u32 = 1_000_000;

/// The absolute tolerance on the sum of all weights: the sum must differ
/// from [`WEIGHT_ONE`] by less than this.
pub const WEIGHT_TOLERANCE: u32 = 10_000;

/// Why a distribution was rejected at construction.
#[derive(Clone, Copy, Debug, PartialEq, Eq, Structural)]
pub enum ProbabilityTableError {
    /// Some weight exceeds [`WEIGHT_ONE`].
    WeightOutOfRange,
    /// All weights are in range but their sum is not one within
    /// [`WEIGHT_TOLERANCE`].
    WeightsDoNotSumToOne,
}

/// The sum of the first `n` weights of a distribution.
pub open spec fn spec_prefix_sum<T>(s: Seq<(u32, T)>, n: int) -> int
    decreases n,
{
    if n <= 0 {
        0
    } else {
        spec_prefix_sum(s, n - 1) + s[n - 1].0
    }
}

/// The sum of all weights of a distribution.
pub open spec fn spec_sum_weights<T>(s: Seq<(u32, T)>) -> int {
    spec_prefix_sum(s, s.len() as int)
}

/// Whether a distribution is valid: every weight lies in
/// `[0, WEIGHT_ONE]` and the sum of all weights is one within
/// [`WEIGHT_TOLERANCE`].
pub open spec fn spec_valid_distribution<T>(s: Seq<(u32, T)>) -> bool {
    &&& forall|i: int| 0 <= i < s.len() ==> (#[trigger] s[i]).0 <= WEIGHT_ONE
    &&& WEIGHT_ONE - WEIGHT_TOLERANCE < spec_sum_weights(s) < WEIGHT_ONE + WEIGHT_TOLERANCE
}

/// The bracket that a draw of `x` selects, walking from `i` with `acc`
/// already accumulated: the first bracket whose cumulative weight reaches
/// `x`, or the last bracket where none does.
pub open spec fn spec_pick_from<T>(s: Seq<(u32, T)>, x: int, i: int, acc: int) -> int
    decreases s.len() - i,
{
    if i + 1 >= s.len() {
        i
    } else if acc + s[i].0 >= x {
        i
    } else {
        spec_pick_from(s, x, i + 1, acc + s[i].0)
    }
}

/// The bracket that a draw of `x` selects from the whole distribution.
pub open spec fn spec_pick_index<T>(s: Seq<(u32, T)>, x: int) -> int {
    spec_pick_from(s, x, 0, 0)
}

/// The picked bracket is the first whose cumulative weight reaches the
/// draw: every earlier bracket falls short of `x`, and the picked one
/// reaches it unless the draw overshoots even the last bracket.
pub proof fn lemma_pick_index_is_first<T>(s: Seq<(u32, T)>, x: int)
    requires
        s.len() > 0,
    ensures
        0 <= spec_pick_index(s, x) < s.len(),
        forall|j: int| 0 <= j < spec_pick_index(s, x) ==> #[trigger] spec_prefix_sum(s, j + 1) < x,
        spec_pick_index(s, x) < s.len() - 1 ==> spec_prefix_sum(s, spec_pick_index(s, x) + 1)
            >= x,
{
    lemma_pick_from_is_first(s, x, 0, 0);
}

/// The walk from position `i` stays at or after `i`, stops at the first
/// bracket from `i` whose cumulative weight reaches `x`, and reaches `x`
/// wherever it stops short of the last bracket.
proof fn lemma_pick_from_is_first<T>(s: Seq<(u32, T)>, x: int, i: int, acc: int)
    requires
        0 <= i < s.len(),
        acc == spec_prefix_sum(s, i),
    ensures
        i <= spec_pick_from(s, x, i, acc) < s.len(),
        forall|j: int| i <= j < spec_pick_from(s, x, i, acc) ==> #[trigger] spec_prefix_sum(s, j + 1) < x,
        spec_pick_from(s, x, i, acc) < s.len() - 1 ==> spec_prefix_sum(
            s,
            spec_pick_from(s, x, i, acc) + 1,
        ) >= x,
    decreases s.len() - i,
{
    if i + 1 >= s.len() {
    } else if acc + s[i].0 >= x {
    } else {
        lemma_pick_from_is_first(s, x, i + 1, acc + s[i].0);
    }
}

/// Prefix sums of a distribution grow with the prefix.
pub proof fn lemma_prefix_sum_monotone<T>(s: Seq<(u32, T)>, m: int, n: int)
    requires
        0 <= m <= n <= s.len(),
    ensures
        spec_prefix_sum(s, m) <= spec_prefix_sum(s, n),
    decreases n - m,
{
    if m < n {
        lemma_prefix_sum_monotone(s, m, n - 1);
    }
}

/// Prefix sums of a distribution are never negative.
pub proof fn lemma_prefix_sum_nonnegative<T>(s: Seq<(u32, T)>, n: int)
    requires
        0 <= n <= s.len(),
    ensures
        spec_prefix_sum(s, n) >= 0,
    decreases n,
{
    if n > 0 {
        lemma_prefix_sum_nonnegative(s, n - 1);
    }
}

/// An ordered list of `(weight, value)` pairs whose weights form a valid
/// discrete probability distribution.
pub struct ProbabilityTable<T> {
    distribution: Vec<(u32, T)>,
}

impl<T> View for ProbabilityTable<T> {
    type V = Seq<(u32, T)>;

    closed spec fn view(&self) -> Seq<(u32, T)> {
        self.distribution@
    }
}

impl<T> ProbabilityTable<T> {
    /// Every table that exists holds a valid distribution.
    #[verifier::type_invariant]
    closed spec fn type_inv(self) -> bool {
        spec_valid_distribution(self.distribution@)
    }
}

impl<T: Copy> ProbabilityTable<T> {
    /// Build a table from a distribution, rejecting one whose weights are
    /// out of range or do not sum to one within the tolerance.
    pub fn new(distribution: Vec<(u32, T)>) -> (r: Result<
        ProbabilityTable<T>,
        ProbabilityTableError,
    >)
        ensures
            match r {
                Ok(table) => spec_valid_distribution(distribution@) && table@ == distribution@,
                Err(e) => {
                    &&& !spec_valid_distribution(distribution@)
                    &&& e == ProbabilityTableError::WeightOutOfRange <==> exists|i: int|
                        0 <= i < distribution@.len() && (#[trigger] distribution@[i]).0
                            > WEIGHT_ONE
                },
            },
    {
        let n = distribution.len();
        let mut i: usize = 0;
        while i < n
            invariant
                n == distribution@.len(),
                0 <= i <= n,
                forall|j: int| 0 <= j < i ==> (#[trigger] distribution@[j]).0 <= WEIGHT_ONE,
            decreases n - i,
        {
            if distribution[i].0 > WEIGHT_ONE {
                return Err(ProbabilityTableError::WeightOutOfRange);
            }
            i = i + 1;
        }
        let mut sum: u32 = 0;
        let mut k: usize = 0;
        while k < n
            invariant
                n == distribution@.len(),
                0 <= k <= n,
                forall|j: int| 0 <= j < n ==> (#[trigger] distribution@[j]).0 <= WEIGHT_ONE,
                sum == spec_prefix_sum(distribution@, k as int),
                sum < WEIGHT_ONE + WEIGHT_TOLERANCE,
            decreases n - k,
        {
            let next: u64 = (sum as u64) + (distribution[k].0 as u64);
            if next >= (WEIGHT_ONE + WEIGHT_TOLERANCE) as u64 {
                proof {
                    lemma_prefix_sum_monotone(distribution@, k as int + 1, n as int);
                }
                return Err(ProbabilityTableError::WeightsDoNotSumToOne);
            }
            sum = sum + distribution[k].0;
            k = k + 1;
        }
        if sum <= WEIGHT_ONE - WEIGHT_TOLERANCE {
            return Err(ProbabilityTableError::WeightsDoNotSumToOne);
        }
        Ok(ProbabilityTable { distribution })
    }

    /// The value of the first bracket whose cumulative weight reaches `x`,
    /// or of the last bracket where the draw overshoots the total weight.
    ///
    /// The table never draws randomness itself: the caller supplies the
    /// uniform draw `x`.
    pub fn pick(&self, x: u32) -> (r: T)
        requires
            x <= WEIGHT_ONE,
        ensures
            r == self@[spec_pick_index(self@, x as int)].1,
    {
        proof {
            use_type_invariant(self);
            if self.distribution@.len() == 0 {
                assert(spec_sum_weights(self.distribution@) == 0);
            }
        }
        let n = self.distribution.len();
        let mut idx: usize = 0;
        let mut acc: u32 = 0;
        loop
            invariant
                n == self.distribution@.len(),
                n >= 1,
                0 <= idx < n,
                x <= WEIGHT_ONE,
                spec_valid_distribution(self.distribution@),
                acc == spec_prefix_sum(self.distribution@, idx as int),
                spec_pick_index(self@, x as int) == spec_pick_from(
                    self@,
                    x as int,
                    idx as int,
                    acc as int,
                ),
            ensures
                idx == spec_pick_index(self@, x as int),
            decreases n - idx,
        {
            proof {
                lemma_prefix_sum_nonnegative(self.distribution@, idx as int);
                lemma_prefix_sum_monotone(self.distribution@, idx as int + 1, n as int);
            }
            let w: u32 = self.distribution[idx].0;
            if idx + 1 == n || acc + w >= x {
                break;
            }
            acc = acc + w;
            idx = idx + 1;
        }
        self.distribution[idx].1
    }
}

} // verus!
