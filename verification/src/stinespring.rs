//! Stinespring dilation capacity partition: 10/33 active, 23/33 dark.

use vstd::prelude::*;

verus! {

/// Completed dark capacity numerator (eta_D = 23/33).
pub const DARK_COMPLETED_NUM: u64 = 23;
/// Residual dark capacity numerator (c_res = 10/33).
pub const DARK_RESIDUAL_NUM: u64 = 10;
/// Common denominator of the capacity partition.
pub const CAPACITY_DENOM: u64 = 33;
/// Dark ledger dimension (boundary character block width).
pub const DARK_LEDGER_DIM: usize = 8;

/// Exact integer partition check: the completed and residual capacities
/// add up to the denominator.
pub fn partition_is_exact() -> (r: bool)
    ensures
        r == (DARK_COMPLETED_NUM + DARK_RESIDUAL_NUM == CAPACITY_DENOM),
        r,
{
    DARK_COMPLETED_NUM + DARK_RESIDUAL_NUM == CAPACITY_DENOM
}

} // verus!
