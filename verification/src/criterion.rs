//! The information criteria a scheme can be scored with, and the sample
//! size that the small-sample correction works on.

use vstd::prelude::*;
use crate::error::InvalidInput;
use crate::text::{ascii_lowered, is_word_ignoring_ascii_case, lemma_same_ignoring_ascii_case, same_ignoring_ascii_case};

verus! {

/// A penalised-likelihood score; the lower, the better supported.
#[derive(Clone, Copy, Debug, PartialEq, Eq, Structural)]
pub enum ModelSelectionCriterion {
    /// Akaike's criterion, `-2 lnL + 2 K`.
    Aic,
    /// Akaike's criterion corrected for a small sample,
    /// `-2 lnL + 2 K n / (n - K - 1)`.
    Aicc,
    /// The Bayesian criterion, `-2 lnL + K ln n`.
    Bic,
}

impl ModelSelectionCriterion {
    /// The criterion that a name selects. The name is brought to lower case
    /// first, so `BIC`, `Bic` and `bic` select the same.
    pub open spec fn from_name(name: Seq<char>) -> Option<ModelSelectionCriterion> {
        let lowered = ascii_lowered(name);
        if lowered == "aic"@ {
            Some(ModelSelectionCriterion::Aic)
        } else if lowered == "aicc"@ {
            Some(ModelSelectionCriterion::Aicc)
        } else if lowered == "bic"@ {
            Some(ModelSelectionCriterion::Bic)
        } else {
            None
        }
    }

    /// Reads a criterion name: `aic`, `aicc` or `bic`, in any mix of upper
    /// and lower case. Any other name is rejected.
    pub fn parse(name: &str) -> (parsed: Result<ModelSelectionCriterion, InvalidInput>)
        ensures
            parsed == match ModelSelectionCriterion::from_name(name@) {
                Some(criterion) => Ok::<ModelSelectionCriterion, InvalidInput>(criterion),
                None => Err(InvalidInput::UnknownCriterion),
            },
    {
        proof {
            lemma_words_are_lower_case();
            lemma_same_ignoring_ascii_case(name@, "aic"@);
            lemma_same_ignoring_ascii_case(name@, "aicc"@);
            lemma_same_ignoring_ascii_case(name@, "bic"@);
        }
        if is_word_ignoring_ascii_case(name, "aic") {
            Ok(ModelSelectionCriterion::Aic)
        } else if is_word_ignoring_ascii_case(name, "aicc") {
            Ok(ModelSelectionCriterion::Aicc)
        } else if is_word_ignoring_ascii_case(name, "bic") {
            Ok(ModelSelectionCriterion::Bic)
        } else {
            Err(InvalidInput::UnknownCriterion)
        }
    }
}

/// The three criterion names are in lower case already.
proof fn lemma_words_are_lower_case()
    ensures
        ascii_lowered("aic"@) == "aic"@,
        ascii_lowered("aicc"@) == "aicc"@,
        ascii_lowered("bic"@) == "bic"@,
{
    reveal_strlit("aic");
    reveal_strlit("aicc");
    reveal_strlit("bic");
    assert(ascii_lowered("aic"@) =~= "aic"@);
    assert(ascii_lowered("aicc"@) =~= "aicc"@);
    assert(ascii_lowered("bic"@) =~= "bic"@);
}

/// Names that differ only in the case of ASCII letters select the same
/// criterion, or both none.
pub proof fn lemma_criterion_ignores_case(a: Seq<char>, b: Seq<char>)
    requires
        same_ignoring_ascii_case(a, b),
    ensures
        ModelSelectionCriterion::from_name(a) == ModelSelectionCriterion::from_name(b),
{
    lemma_same_ignoring_ascii_case(a, b);
}

/// The sample size that the corrected criterion works on: the number of
/// sites `n`, raised to `K + 2` where it is below that, `K` being the
/// number of free parameters.
pub open spec fn aicc_sample_size(total_sites: int, free_params: int) -> int {
    if total_sites < free_params + 2 {
        free_params + 2
    } else {
        total_sites
    }
}

/// The sample size for the corrected criterion. With it the denominator
/// `n - K - 1` of the correction is at least 1.
pub fn corrected_sample_size(total_sites: i64, free_params: i64) -> (n: i128)
    ensures
        n == aicc_sample_size(total_sites as int, free_params as int),
        n - free_params - 1 >= 1,
{
    let least: i128 = free_params as i128 + 2;
    if (total_sites as i128) < least {
        least
    } else {
        total_sites as i128
    }
}

/// A sample too small for its parameters scores as one of `K + 2` sites.
pub proof fn lemma_small_sample_scores_as_least(total_sites: int, free_params: int)
    requires
        total_sites < free_params + 2,
    ensures
        aicc_sample_size(total_sites, free_params) == aicc_sample_size(
            free_params + 2,
            free_params,
        ),
        aicc_sample_size(total_sites, free_params) == free_params + 2,
{
}

/// The correction never divides by zero or by a negative number.
pub proof fn lemma_correction_denominator_positive(total_sites: int, free_params: int)
    ensures
        aicc_sample_size(total_sites, free_params) - free_params - 1 >= 1,
{
}

} // verus!
