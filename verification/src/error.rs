//! The single kind of failure: input that cannot be scored.

use vstd::prelude::*;

verus! {

/// Why a request was rejected before any computation took place.
#[derive(Clone, Copy, Debug, PartialEq, Eq, Structural)]
pub enum InvalidInput {
    /// The per-subset sequences do not all have the same length.
    LengthMismatch,
    /// The branch-length policy is neither `linked` nor `unlinked`.
    UnknownPolicy,
    /// The criterion is none of `aic`, `aicc`, `bic`.
    UnknownCriterion,
}

impl InvalidInput {
    /// The text of the message that goes with each rejection.
    pub open spec fn message_text(self) -> Seq<char> {
        match self {
            InvalidInput::LengthMismatch => "parameter counts, log-likelihoods and site counts must have the same length"@,
            InvalidInput::UnknownPolicy => "unknown branch-length policy (expected 'linked' or 'unlinked')"@,
            InvalidInput::UnknownCriterion => "unknown model-selection criterion (expected 'aic', 'aicc' or 'bic')"@,
        }
    }

    /// A message for the caller that names what was wrong.
    pub fn message(&self) -> (text: &'static str)
        ensures
            text@ == self.message_text(),
    {
        match self {
            InvalidInput::LengthMismatch => "parameter counts, log-likelihoods and site counts must have the same length",
            InvalidInput::UnknownPolicy => "unknown branch-length policy (expected 'linked' or 'unlinked')",
            InvalidInput::UnknownCriterion => "unknown model-selection criterion (expected 'aic', 'aicc' or 'bic')",
        }
    }
}

} // verus!
