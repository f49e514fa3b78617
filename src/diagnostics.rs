//! The two-step error protocol: a call signals failure by a code, and the
//! text of the failure is fetched by a second call under the same gate.
use libc::c_char;
use std::sync::MutexGuard;
use vstd::prelude::*;
use vstd::utf8::{decode_utf8, valid_utf8};

use crate::errors::RefpropError;
use crate::native::NativeInterface;
use crate::text::{decode_field, field_text, MESSAGE_WIDTH};

verus! {

/// `e` is the failure that a diagnostic field stands for: the calculation
/// failure carrying its text, or a decoding failure when the text is not UTF-8.
pub open spec fn message_error_spec(field: Seq<c_char>, e: RefpropError) -> bool {
    if valid_utf8(field_text(field)) {
        e matches RefpropError::CalculationError(m) && m@ == decode_utf8(field_text(field))
    } else {
        e is Utf8Error
    }
}

/// A failure of the native call or of the call gate, never a rejected argument.
pub open spec fn is_native_failure(e: RefpropError) -> bool {
    e is CalculationError || e is Utf8Error || e is MutexPoisoned
}

/// The failure that a diagnostic field stands for.
pub fn message_error(herr: &[c_char; MESSAGE_WIDTH]) -> (r: RefpropError)
    ensures
        message_error_spec(herr@, r),
{
    match decode_field(herr) {
        Ok(text) => RefpropError::CalculationError(text),
        Err(e) => e,
    }
}

/// Succeeds on a zero code, leaving the diagnostic buffer as it is. On any
/// other code, asks the native library for the text of the error, in the
/// same buffer and under the same guard, and fails with it.
pub fn check_refprop_error<N: NativeInterface>(
    native: &N,
    _guard: &MutexGuard<'_, ()>,
    ierr: i32,
    herr: &mut [c_char; MESSAGE_WIDTH],
) -> (r: Result<(), RefpropError>)
    ensures
        r is Ok <==> ierr == 0,
        ierr == 0 ==> *final(herr) == *old(herr),
        r matches Err(e) ==> message_error_spec(final(herr)@, e),
{
    if ierr == 0 {
        return Ok(());
    }
    native.error_message(herr);
    Err(message_error(herr))
}

} // verus!
