use std::sync::{Mutex, MutexGuard};
use vstd::prelude::*;

use crate::errors::RefpropError;

verus! {

#[verifier::external_type_specification]
#[verifier::external_body]
#[verifier::reject_recursive_types(T)]
pub struct ExMutex<T: ?Sized>(Mutex<T>);

#[verifier::external_type_specification]
#[verifier::external_body]
#[verifier::reject_recursive_types(T)]
pub struct ExMutexGuard<'a, T: ?Sized + 'a>(MutexGuard<'a, T>);

/// The process-wide gate that serialises every call into the native library.
pub struct CallGate {
    lock: Mutex<()>,
}

/// Relies on `Mutex::new`: builds an unlocked, unpoisoned mutex.
#[verifier::external_body]
fn new_mutex() -> (r: Mutex<()>) {
    Mutex::new(())
}

/// Relies on `Mutex::lock`: blocks until the calling thread holds the mutex;
/// `None` when a previous holder panicked while holding it.
#[verifier::external_body]
fn lock_mutex(m: &Mutex<()>) -> (r: Option<MutexGuard<'_, ()>>) {
    m.lock().ok()
}

impl CallGate {
    /// An open gate.
    pub fn new() -> (r: CallGate) {
        CallGate { lock: new_mutex() }
    }
}

/// Blocks until no other thread holds the call gate. Fails with `MutexPoisoned`
/// when a previous holder panicked while holding it: the native session may
/// then be inconsistent, and the failure is not transient.
///
/// A thread that already holds the call gate must not ask for it again: the
/// mutex behind it is not reentrant.
pub fn acquire_lock(gate: &CallGate) -> (r: Result<MutexGuard<'_, ()>, RefpropError>)
    ensures
        r matches Err(e) ==> e is MutexPoisoned,
{
    match lock_mutex(&gate.lock) {
        Some(g) => Ok(g),
        None => Err(RefpropError::MutexPoisoned),
    }
}

} // verus!
