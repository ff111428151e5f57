//! Narrowing a number to the width that the ledger takes.

use sp_runtime::traits::SaturatedConversion;
use vstd::prelude::*;

verus! {

/// `value` where it fits 32 bits, and the greatest 32-bit number where it
/// does not.
pub open spec fn spec_saturated_u32(value: u128) -> u32 {
    if value <= u32::MAX {
        value as u32
    } else {
        u32::MAX
    }
}

/// `SaturatedConversion::saturated_into` of `sp_runtime`, from `u128` to
/// `u32`: the value converted where `u32::try_from` takes it, `u32::MAX`
/// where it does not.
#[verifier::external_body]
pub(crate) fn saturated_into_u32(value: u128) -> (narrowed: u32)
    ensures
        narrowed == spec_saturated_u32(value),
{
    value.saturated_into()
}

} // verus!
