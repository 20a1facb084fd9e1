//! The exclusive lock around the executor.
//!
//! A composed module is shared by reference, but the executor it owns may
//! hold mutable host state, so every native call must take it exclusively.
//! The lock is `parking_lot`'s reader-writer lock, used here in write mode
//! only, for the duration of one call.

use vstd::prelude::*;
use crate::interface::UserFunctionExecutor;
use crate::values::CallerContext;
use crate::values::Error;
use crate::values::RuntimeValue;

verus! {

/// Declares `lock_api::RwLock`, the type `parking_lot::RwLock` names, so
/// that the lock can stand in a field.  What it guards is opaque here.
#[verifier::external_type_specification]
#[verifier::external_body]
#[verifier::reject_recursive_types(R)]
#[verifier::reject_recursive_types(T)]
pub struct ExRwLock<R, T: ?Sized>(parking_lot::lock_api::RwLock<R, T>);

/// Declares `parking_lot::RawRwLock`, the raw lock `parking_lot::RwLock`
/// instantiates `lock_api::RwLock` with.
#[verifier::external_type_specification]
#[verifier::external_body]
pub struct ExRawRwLock(parking_lot::RawRwLock);

/// Relies on `parking_lot::RwLock::new` (`lock_api::RwLock::new`): wraps
/// the executor in a fresh, unlocked lock.
#[verifier::external_body]
pub(crate) fn executor_lock_new<E: UserFunctionExecutor>(executor: E) -> parking_lot::RwLock<E> {
    parking_lot::RwLock::new(executor)
}

/// Relies on `parking_lot::RwLock::write` (`lock_api::RwLock::write`): the
/// guard it returns is exclusive for as long as it is held, so no two
/// executor calls through one lock overlap in time, and dereferencing it
/// reaches the executor inside the lock.  The body holds the guard for the
/// duration of exactly one `execute` step on the given name and context;
/// `execute`'s own contract then relates that step's outcome to `r`.  The
/// executor's state before the step is whatever earlier calls left behind,
/// so only its existence is promised.
#[verifier::external_body]
pub(crate) fn execute_with_lock<E: UserFunctionExecutor>(
    lock: &parking_lot::RwLock<E>,
    name: &str,
    context: CallerContext,
) -> (r: Result<Option<RuntimeValue>, Error>)
    ensures
        exists|pre: E, post: E| E::executed(pre, post, name@, context, r),
{
    lock.write().execute(name, context)
}

} // verus!
