//! The random number generators of the two providers, the locks that guard
//! them, and the calls that draw bytes from them.
use vstd::prelude::*;

verus! {

/// The ChaCha20 generator of the `rand_chacha` crate.
#[verifier::external_type_specification]
#[verifier::external_body]
pub struct ExChaCha20Rng(rand_chacha::ChaCha20Rng);

/// std's reader-writer lock.
#[verifier::external_type_specification]
#[verifier::external_body]
#[verifier::reject_recursive_types(T)]
pub struct ExRwLock<T: ?Sized>(std::sync::RwLock<T>);

/// The guard of a write lock on a `RwLock`.
#[verifier::external_type_specification]
#[verifier::external_body]
#[verifier::reject_recursive_types(T)]
pub struct ExRwLockWriteGuard<'a, T: ?Sized + 'a>(std::sync::RwLockWriteGuard<'a, T>);

/// std's mutex.
#[verifier::external_type_specification]
#[verifier::external_body]
#[verifier::reject_recursive_types(T)]
pub struct ExMutex<T: ?Sized>(std::sync::Mutex<T>);

/// The guard of a locked `Mutex`.
#[verifier::external_type_specification]
#[verifier::external_body]
#[verifier::reject_recursive_types(T)]
pub struct ExMutexGuard<'a, T: ?Sized + 'a>(std::sync::MutexGuard<'a, T>);

/// Calls `SeedableRng::try_from_rng` with `rand::rngs::SysRng`: a ChaCha20
/// generator seeded from the operating system, or an error when the
/// operating system yields no randomness. Which of the two comes back is not
/// a function of anything here, so nothing is claimed of it.
#[verifier::external_body]
pub(crate) fn chacha_try_from_system() -> Option<rand_chacha::ChaCha20Rng> {
    <rand_chacha::ChaCha20Rng as rand::SeedableRng>::try_from_rng(&mut rand::rngs::SysRng).ok()
}

/// Calls `std::sync::RwLock::new`.
#[verifier::external_body]
pub(crate) fn rwlock_new(rng: rand_chacha::ChaCha20Rng) -> std::sync::RwLock<
    rand_chacha::ChaCha20Rng,
> {
    std::sync::RwLock::new(rng)
}

/// Calls `std::sync::RwLock::write`, giving `None` where the lock is
/// poisoned; whether it is depends on the history of other threads, so
/// nothing is claimed.
#[verifier::external_body]
pub(crate) fn rwlock_write(lock: &std::sync::RwLock<rand_chacha::ChaCha20Rng>) -> Option<
    std::sync::RwLockWriteGuard<'_, rand_chacha::ChaCha20Rng>,
> {
    lock.write().ok()
}

/// Calls `std::sync::Mutex::new`.
#[verifier::external_body]
pub(crate) fn mutex_new(rng: rand_chacha::ChaCha20Rng) -> std::sync::Mutex<
    rand_chacha::ChaCha20Rng,
> {
    std::sync::Mutex::new(rng)
}

/// Calls `std::sync::Mutex::lock`, giving `None` where the mutex is
/// poisoned; whether it is depends on the history of other threads, so
/// nothing is claimed.
#[verifier::external_body]
pub(crate) fn mutex_lock(lock: &std::sync::Mutex<rand_chacha::ChaCha20Rng>) -> Option<
    std::sync::MutexGuard<'_, rand_chacha::ChaCha20Rng>,
> {
    lock.lock().ok()
}

/// Calls `TryRng::try_fill_bytes` on the locked ChaCha20 generator. The
/// generator's error type is `Infallible`, so the call always succeeds; it
/// overwrites the buffer in place and keeps its length. Which bytes it
/// writes is not claimed.
#[verifier::external_body]
pub(crate) fn fill_from_guard(
    guard: &mut std::sync::RwLockWriteGuard<'_, rand_chacha::ChaCha20Rng>,
    out: &mut [u8],
) -> (filled: bool)
    ensures
        filled,
        final(out)@.len() == old(out)@.len(),
{
    rand::TryRng::try_fill_bytes(&mut **guard, out).is_ok()
}

} // verus!
