//! The shared, lock-guarded transport handle.
//!
//! The transport is reached only through `Arc<Mutex<N>>`: whoever wants to
//! poll it or to issue a command has to take the lock first.  The lock is
//! `parking_lot`'s; Verus does not look inside it, so the few items here
//! state what is taken on trust about it.

use parking_lot::Mutex;
use std::sync::Arc;
use vstd::prelude::*;

verus! {

/// `parking_lot::RawMutex`, the lock word inside every `parking_lot::Mutex`.
/// Declared so that the type can be named; nothing is claimed of it.
#[verifier::external_type_specification]
#[verifier::external_body]
pub struct ExRawMutex(parking_lot::RawMutex);

/// `lock_api::Mutex`, of which `parking_lot::Mutex<T>` is the instance with
/// `parking_lot::RawMutex`.  Declared opaque: a value of it can be stored
/// and passed on, and verified code learns nothing of what it guards.
#[verifier::external_type_specification]
#[verifier::external_body]
#[verifier::reject_recursive_types(R)]
#[verifier::reject_recursive_types(T)]
pub struct ExMutex<R, T: ?Sized>(parking_lot::lock_api::Mutex<R, T>);

/// Calls `parking_lot::Mutex::new`, which puts `handle` behind a fresh,
/// unlocked mutex.  No claim is made of the result: what a mutex guards
/// changes under every holder of the lock, so no contract can speak of it.
#[verifier::external_body]
pub(crate) fn guard<N>(handle: N) -> (guarded: Mutex<N>) {
    Mutex::new(handle)
}

/// Calls `Arc::clone`: the result is a second pointer to the allocation that
/// `handle` points to, so both stand for the same value.
#[verifier::external_body]
pub(crate) fn share<T>(handle: &Arc<T>) -> (shared: Arc<T>)
    ensures
        shared == *handle,
{
    Arc::clone(handle)
}

} // verus!
