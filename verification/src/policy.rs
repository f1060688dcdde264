//! How branch lengths are shared between the subsets of a scheme, and how
//! many free parameters that sharing costs.

use vstd::prelude::*;
use crate::error::InvalidInput;
use crate::range::fit_i64;
use crate::text::is_word;

verus! {

/// Whether the subsets of a scheme share one set of branch lengths.
#[derive(Clone, Copy, Debug, PartialEq, Eq, Structural)]
pub enum BranchLengthPolicy {
    /// One set of branch lengths, scaled by a rate multiplier per subset.
    Linked,
    /// Every subset estimates its own branch lengths.
    Unlinked,
}

/// The number of branch lengths of an unrooted tree on `num_taxa` taxa.
pub open spec fn branch_lengths(num_taxa: int) -> int {
    2 * num_taxa - 3
}

impl BranchLengthPolicy {
    /// The policy that a name selects. Names are case-sensitive.
    pub open spec fn from_name(name: Seq<char>) -> Option<BranchLengthPolicy> {
        if name == "linked"@ {
            Some(BranchLengthPolicy::Linked)
        } else if name == "unlinked"@ {
            Some(BranchLengthPolicy::Unlinked)
        } else {
            None
        }
    }

    /// The free parameters charged for branch lengths, on top of the
    /// parameters of the subsets' models: linked, the branch lengths once
    /// and a rate multiplier for every subset but one; unlinked, the branch
    /// lengths once per subset.
    pub open spec fn extra_params(self, subsets: int, num_taxa: int) -> int {
        match self {
            BranchLengthPolicy::Linked => (subsets - 1) + branch_lengths(num_taxa),
            BranchLengthPolicy::Unlinked => subsets * branch_lengths(num_taxa),
        }
    }

    /// Reads a policy name: `linked` or `unlinked`, exactly so written.
    /// Any other name is rejected.
    pub fn parse(name: &str) -> (parsed: Result<BranchLengthPolicy, InvalidInput>)
        ensures
            parsed == match BranchLengthPolicy::from_name(name@) {
                Some(policy) => Ok::<BranchLengthPolicy, InvalidInput>(policy),
                None => Err(InvalidInput::UnknownPolicy),
            },
    {
        if is_word(name, "linked") {
            Ok(BranchLengthPolicy::Linked)
        } else if is_word(name, "unlinked") {
            Ok(BranchLengthPolicy::Unlinked)
        } else {
            Err(InvalidInput::UnknownPolicy)
        }
    }

    /// The free parameters charged for branch lengths in a scheme of
    /// `subsets` subsets over `num_taxa` taxa, or `None` when that number
    /// is outside the range of `i64`.
    pub fn branch_length_params(self, subsets: usize, num_taxa: usize) -> (count: Option<i64>)
        ensures
            count == fit_i64(self.extra_params(subsets as int, num_taxa as int)),
    {
        let lengths: i128 = 2 * (num_taxa as i128) - 3;
        let exact: i128 = match self {
            BranchLengthPolicy::Linked => (subsets as i128 - 1) + lengths,
            BranchLengthPolicy::Unlinked => {
                if lengths > i64::MAX as i128 {
                    if subsets == 0 {
                        return Some(0);
                    }
                    assert(subsets * lengths >= lengths) by (nonlinear_arith)
                        requires
                            subsets >= 1,
                            lengths >= 0,
                    ;
                    return None;
                }
                assert(-3 * 0xFFFF_FFFF_FFFF_FFFF <= subsets * lengths
                    <= 0xFFFF_FFFF_FFFF_FFFF * 0x7FFF_FFFF_FFFF_FFFF) by (nonlinear_arith)
                    requires
                        0 <= subsets <= 0xFFFF_FFFF_FFFF_FFFF,
                        -3 <= lengths <= 0x7FFF_FFFF_FFFF_FFFF,
                ;
                (subsets as i128) * lengths
            },
        };
        if i64::MIN as i128 <= exact && exact <= i64::MAX as i128 {
            Some(exact as i64)
        } else {
            None
        }
    }
}

/// With a single subset the two policies charge the same: the rate
/// multipliers vanish and the branch lengths are counted once either way.
pub proof fn lemma_single_subset_policies_agree(num_taxa: int)
    ensures
        BranchLengthPolicy::Linked.extra_params(1, num_taxa)
            == BranchLengthPolicy::Unlinked.extra_params(1, num_taxa),
{
}

} // verus!
