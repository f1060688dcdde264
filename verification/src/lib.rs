//! Validation and integer bookkeeping for scoring partitioning schemes of
//! phylogenetic alignments with an information criterion.

pub mod criterion;
pub mod error;
pub mod policy;
pub mod range;
pub mod text;
pub mod totals;
