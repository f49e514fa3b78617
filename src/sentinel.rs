//! The reserved doubles that the native library writes where a heat
//! capacity is not defined (two-phase states).
use vstd::prelude::*;

verus! {

/// The bit pattern of `-9999990.0`, the "isochoric heat capacity undefined" value.
pub const CV_UNDEFINED: u64 = 0xC163_12CE_C000_0000;

/// The bit pattern of `-9999980.0`, the "isobaric heat capacity undefined" value.
pub const CP_UNDEFINED: u64 = 0xC163_12CD_8000_0000;

/// Both reserved values are finite and non-zero, so a double equals one of
/// them exactly when its bit pattern does.
pub open spec fn is_sentinel(b: u64) -> bool {
    b == CV_UNDEFINED || b == CP_UNDEFINED
}

pub open spec fn heat_capacity_spec(b: u64) -> Option<u64> {
    if is_sentinel(b) {
        None
    } else {
        Some(b)
    }
}

/// A heat capacity as written by the native library: absent when it equals
/// either reserved value, present with the same value otherwise.
pub fn heat_capacity(b: u64) -> (r: Option<u64>)
    ensures
        r == heat_capacity_spec(b),
        r is None <==> is_sentinel(b),
        r matches Some(v) ==> v == b,
{
    if b == CV_UNDEFINED || b == CP_UNDEFINED {
        None
    } else {
        Some(b)
    }
}

/// Converting a value that the conversion already kept changes nothing.
pub proof fn lemma_heat_capacity_idempotent(b: u64)
    ensures
        heat_capacity_spec(b) matches Some(v) ==> heat_capacity_spec(v) == Some(v),
{
}

} // verus!
