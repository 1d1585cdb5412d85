use std::sync::{Mutex, MutexGuard};
use vstd::prelude::*;

verus! {

/// `std::sync::Mutex`, as a type whose inside the verifier does not see.
#[verifier::external_type_specification]
#[verifier::external_body]
#[verifier::reject_recursive_types(T)]
pub struct ExMutex<T: ?Sized>(Mutex<T>);

/// `std::sync::MutexGuard`, as a type whose inside the verifier does not see.
#[verifier::external_type_specification]
#[verifier::external_body]
#[verifier::reject_recursive_types(T)]
pub struct ExMutexGuard<'a, T: ?Sized + 'a>(MutexGuard<'a, T>);

/// `Mutex::new`, which makes an unlocked mutex around `t`. What a mutex holds
/// can change under any of its owners, so the contract claims nothing of it.
pub assume_specification<T>[ Mutex::<T>::new ](t: T) -> (mutex: Mutex<T>)
;

/// `Mutex::lock`: waits until the lock is free and takes it. `None` stands for
/// the error that `lock` returns once a holder of the lock has panicked. The
/// contract claims nothing: neither what is under the lock, nor that the call
/// comes back.
#[verifier::external_body]
pub(crate) fn acquire<'a, S>(mutex: &'a Mutex<S>) -> (guard: Option<MutexGuard<'a, S>>) {
    match mutex.lock() {
        Ok(guard) => Some(guard),
        Err(_) => None,
    }
}

/// `Mutex::try_lock`: takes the lock if it is free, and comes back at once
/// if it is not. `None` stands for both errors of `try_lock`: that the lock is
/// held, by this thread or another, and that a holder of it has panicked. std
/// names no panic for the call and says that it does not block, so the item
/// claims that it returns normally. It claims nothing of what is under the
/// lock.
#[verifier::external_body]
pub(crate) fn try_acquire<'a, S>(mutex: &'a Mutex<S>) -> (guard: Option<MutexGuard<'a, S>>)
    opens_invariants none
    no_unwind
{
    match mutex.try_lock() {
        Ok(guard) => Some(guard),
        Err(_) => None,
    }
}

/// `MutexGuard::deref`: the value under the lock, to read.
#[verifier::external_body]
pub(crate) fn guarded<'a, 'b, S>(guard: &'b MutexGuard<'a, S>) -> (state: &'b S) {
    &**guard
}

/// `MutexGuard::deref_mut`: the value under the lock, to change. It hands out
/// a reference and does nothing else, so it returns normally.
#[verifier::external_body]
pub(crate) fn guarded_mut<'a, 'b, S>(guard: &'b mut MutexGuard<'a, S>) -> (state: &'b mut S)
    opens_invariants none
    no_unwind
{
    &mut **guard
}

/// What a lock that was asked for gave, to read: the value under it, or
/// nothing where the lock was not to be had.
pub(crate) fn state_of<'a, 'b, S>(lock: &'b Option<MutexGuard<'a, S>>) -> (state: Option<&'b S>)
    ensures
        state is Some <==> lock is Some,
{
    match lock {
        Some(guard) => Some(guarded(guard)),
        None => None,
    }
}

/// What a lock that was asked for gave, to change: the value under it, or
/// nothing where the lock was not to be had.
pub(crate) fn state_of_mut<'a, 'b, S>(lock: &'b mut Option<MutexGuard<'a, S>>) -> (state: Option<
    &'b mut S,
>)
    ensures
        state is Some <==> *old(lock) is Some,
    opens_invariants none
    no_unwind
{
    match lock {
        Some(guard) => Some(guarded_mut(guard)),
        None => None,
    }
}

} // verus!
