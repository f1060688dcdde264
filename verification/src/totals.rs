//! The integer totals of a partitioning scheme: how many subsets it has,
//! how many sites they cover, and what its branch lengths cost.

use vstd::prelude::*;
use vstd::seq_lib::{to_multiset_contains, to_multiset_len, to_multiset_remove};
use crate::criterion::ModelSelectionCriterion;
use crate::error::InvalidInput;
use crate::policy::BranchLengthPolicy;
use crate::range::fit_i64;

verus! {

/// The sum of the site counts of all subsets.
pub open spec fn sum_sites(site_counts: Seq<usize>) -> int
    decreases site_counts.len(),
{
    if site_counts.len() == 0 {
        0
    } else {
        sum_sites(site_counts.drop_last()) + site_counts.last()
    }
}

/// Whether the three per-subset sequences have one common length.
pub open spec fn lengths_agree(param_counts: int, log_likelihoods: int, site_counts: int) -> bool {
    param_counts == log_likelihoods && param_counts == site_counts
}

/// What is known of a scheme without looking at a real number. A count is
/// `None` when it is outside the range of `i64`.
#[derive(Clone, Copy, Debug, PartialEq, Eq)]
pub struct SchemeTotals {
    /// The number of subsets.
    pub subsets: usize,
    /// The free parameters charged for branch lengths under the policy.
    pub branch_length_params: Option<i64>,
    /// The number of sites over all subsets.
    pub total_sites: Option<i64>,
}

/// A validated request to score a scheme.
#[derive(Clone, Copy, Debug, PartialEq, Eq)]
pub struct ScorePlan {
    /// The integer totals of the scheme.
    pub totals: SchemeTotals,
    /// The criterion to score it with.
    pub criterion: ModelSelectionCriterion,
}

/// The totals of a scheme given by the lengths of its sequences of
/// parameter counts and log-likelihoods, its site counts, the number of
/// taxa and the name of its policy. Unequal lengths are reported before an
/// unknown policy.
pub open spec fn aggregate_of(
    param_counts: int,
    log_likelihoods: int,
    site_counts: Seq<usize>,
    num_taxa: int,
    policy: Seq<char>,
) -> Result<SchemeTotals, InvalidInput> {
    if !lengths_agree(param_counts, log_likelihoods, site_counts.len() as int) {
        Err(InvalidInput::LengthMismatch)
    } else {
        match BranchLengthPolicy::from_name(policy) {
            None => Err(InvalidInput::UnknownPolicy),
            Some(policy) => Ok(
                SchemeTotals {
                    subsets: param_counts as usize,
                    branch_length_params: fit_i64(policy.extra_params(param_counts, num_taxa)),
                    total_sites: fit_i64(sum_sites(site_counts)),
                },
            ),
        }
    }
}

/// The plan for scoring a scheme: its totals and the criterion. Whatever
/// is wrong with the scheme is reported before an unknown criterion.
pub open spec fn score_plan_of(
    param_counts: int,
    log_likelihoods: int,
    site_counts: Seq<usize>,
    num_taxa: int,
    policy: Seq<char>,
    criterion: Seq<char>,
) -> Result<ScorePlan, InvalidInput> {
    match aggregate_of(param_counts, log_likelihoods, site_counts, num_taxa, policy) {
        Err(rejection) => Err(rejection),
        Ok(totals) => match ModelSelectionCriterion::from_name(criterion) {
            None => Err(InvalidInput::UnknownCriterion),
            Some(criterion) => Ok(ScorePlan { totals, criterion }),
        },
    }
}

/// Adding one more subset adds its sites to the sum.
proof fn lemma_sum_sites_push(site_counts: Seq<usize>, sites: usize)
    ensures
        sum_sites(site_counts.push(sites)) == sum_sites(site_counts) + sites,
{
    assert(site_counts.push(sites).drop_last() =~= site_counts);
}

/// Taking one subset out takes its sites from the sum.
proof fn lemma_sum_sites_remove(site_counts: Seq<usize>, at: int)
    requires
        0 <= at < site_counts.len(),
    ensures
        sum_sites(site_counts) == sum_sites(site_counts.remove(at)) + site_counts[at],
    decreases site_counts.len(),
{
    if at == site_counts.len() - 1 {
        assert(site_counts.remove(at) =~= site_counts.drop_last());
    } else {
        lemma_sum_sites_remove(site_counts.drop_last(), at);
        assert(site_counts.remove(at).drop_last() =~= site_counts.drop_last().remove(at));
    }
}

/// The sum of the site counts does not depend on the order of the subsets.
pub proof fn lemma_sum_sites_permutation(a: Seq<usize>, b: Seq<usize>)
    requires
        a.to_multiset() == b.to_multiset(),
    ensures
        a.len() == b.len(),
        sum_sites(a) == sum_sites(b),
    decreases a.len(),
{
    to_multiset_len(a);
    to_multiset_len(b);
    if a.len() > 0 {
        let last = a.last();
        assert(a.contains(last)) by {
            assert(a[a.len() - 1] == last);
        }
        to_multiset_contains(a, last);
        to_multiset_contains(b, last);
        let at = choose|at: int| 0 <= at < b.len() && b[at] == last;
        to_multiset_remove(a, a.len() - 1);
        to_multiset_remove(b, at);
        assert(a.drop_last() =~= a.remove(a.len() - 1));
        lemma_sum_sites_permutation(a.drop_last(), b.remove(at));
        lemma_sum_sites_remove(b, at);
    } else {
        assert(b =~= Seq::<usize>::empty());
    }
}

/// Listing the subsets of a scheme in another order changes none of its
/// totals.
pub proof fn lemma_aggregate_permutation(
    param_counts: int,
    log_likelihoods: int,
    a: Seq<usize>,
    b: Seq<usize>,
    num_taxa: int,
    policy: Seq<char>,
)
    requires
        a.to_multiset() == b.to_multiset(),
    ensures
        aggregate_of(param_counts, log_likelihoods, a, num_taxa, policy) == aggregate_of(
            param_counts,
            log_likelihoods,
            b,
            num_taxa,
            policy,
        ),
{
    lemma_sum_sites_permutation(a, b);
}

/// The number of subsets, or a rejection when the three sequences differ
/// in length.
pub fn check_lengths(param_counts: usize, log_likelihoods: usize, site_counts: usize) -> (subsets:
    Result<usize, InvalidInput>)
    ensures
        subsets == (if lengths_agree(
            param_counts as int,
            log_likelihoods as int,
            site_counts as int,
        ) {
            Ok::<usize, InvalidInput>(param_counts)
        } else {
            Err(InvalidInput::LengthMismatch)
        }),
{
    if param_counts != log_likelihoods || param_counts != site_counts {
        Err(InvalidInput::LengthMismatch)
    } else {
        Ok(param_counts)
    }
}

/// The number of sites over all subsets, or `None` when it is outside the
/// range of `i64`.
pub fn total_sites(site_counts: &[usize]) -> (total: Option<i64>)
    ensures
        total == fit_i64(sum_sites(site_counts@)),
{
    let mut sum: u128 = 0;
    let mut i: usize = 0;
    while i < site_counts.len()
        invariant
            i <= site_counts@.len(),
            sum == sum_sites(site_counts@.take(i as int)),
            sum <= i * usize::MAX,
        decreases site_counts@.len() - i,
    {
        proof {
            lemma_sum_sites_push(site_counts@.take(i as int), site_counts@[i as int]);
            assert(site_counts@.take(i as int).push(site_counts@[i as int]) =~= site_counts@.take(
                i as int + 1,
            ));
            assert((i + 1) * usize::MAX == i * usize::MAX + usize::MAX) by (nonlinear_arith);
            assert(i * usize::MAX + usize::MAX <= usize::MAX * usize::MAX) by (nonlinear_arith)
                requires
                    i < usize::MAX,
            ;
            assert(usize::MAX * usize::MAX <= u128::MAX) by (nonlinear_arith)
                requires
                    usize::MAX <= 0xFFFF_FFFF_FFFF_FFFF,
            ;
        }
        sum = sum + site_counts[i] as u128;
        i += 1;
    }
    assert(site_counts@.take(i as int) =~= site_counts@);
    if sum <= i64::MAX as u128 {
        Some(sum as i64)
    } else {
        None
    }
}

/// The integer totals of a scheme, from the lengths of its sequences of
/// parameter counts and log-likelihoods, its site counts, the number of
/// taxa and the name of its branch-length policy.
///
/// Sequences of unequal length are rejected, whichever of the three
/// differs; then a policy name that is not known. Nothing is counted
/// before both have passed.
pub fn aggregate(
    param_counts: usize,
    log_likelihoods: usize,
    site_counts: &[usize],
    num_taxa: usize,
    policy: &str,
) -> (totals: Result<SchemeTotals, InvalidInput>)
    ensures
        totals == aggregate_of(
            param_counts as int,
            log_likelihoods as int,
            site_counts@,
            num_taxa as int,
            policy@,
        ),
        !lengths_agree(param_counts as int, log_likelihoods as int, site_counts@.len() as int)
            ==> totals == Err::<SchemeTotals, InvalidInput>(InvalidInput::LengthMismatch),
{
    let subsets = match check_lengths(param_counts, log_likelihoods, site_counts.len()) {
        Ok(subsets) => subsets,
        Err(rejection) => { return Err(rejection); },
    };
    let policy = match BranchLengthPolicy::parse(policy) {
        Ok(policy) => policy,
        Err(rejection) => { return Err(rejection); },
    };
    Ok(
        SchemeTotals {
            subsets,
            branch_length_params: policy.branch_length_params(subsets, num_taxa),
            total_sites: total_sites(site_counts),
        },
    )
}

/// The plan for scoring a scheme: what [`aggregate`] finds, and the
/// criterion that `criterion` names.
///
/// A scheme that [`aggregate`] rejects is rejected for the same reason;
/// then a criterion name that is not known.
pub fn prepare_score(
    param_counts: usize,
    log_likelihoods: usize,
    site_counts: &[usize],
    num_taxa: usize,
    policy: &str,
    criterion: &str,
) -> (plan: Result<ScorePlan, InvalidInput>)
    ensures
        plan == score_plan_of(
            param_counts as int,
            log_likelihoods as int,
            site_counts@,
            num_taxa as int,
            policy@,
            criterion@,
        ),
        !lengths_agree(param_counts as int, log_likelihoods as int, site_counts@.len() as int)
            ==> plan == Err::<ScorePlan, InvalidInput>(InvalidInput::LengthMismatch),
{
    let totals = match aggregate(param_counts, log_likelihoods, site_counts, num_taxa, policy) {
        Ok(totals) => totals,
        Err(rejection) => { return Err(rejection); },
    };
    let criterion = match ModelSelectionCriterion::parse(criterion) {
        Ok(criterion) => criterion,
        Err(rejection) => { return Err(rejection); },
    };
    Ok(ScorePlan { totals, criterion })
}

} // verus!
