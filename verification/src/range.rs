//! Counts that may be too large for the integers they are returned in.

use vstd::prelude::*;

verus! {

/// `Some(value)` when `value` is in the range of `i64`, else `None`.
pub open spec fn fit_i64(value: int) -> Option<i64> {
    if i64::MIN <= value <= i64::MAX {
        Some(value as i64)
    } else {
        None
    }
}

} // verus!
