//! The lock word that guards the shared mailbox.
//!
//! The lock is a single 32-bit integer that both sides of the channel
//! agree on. It has to be initialised with [`init`] before first use.

use vstd::prelude::*;

verus! {

/// Value of the lock word while nobody holds the lock.
pub const UNLOCKED: i32 = 1;

/// Value of the lock word while the lock is held.
pub const LOCKED: i32 = 0;

/// Puts the lock word into the unlocked state.
pub fn init(lock: &mut i32)
    ensures
        *final(lock) == UNLOCKED,
{
    *lock = UNLOCKED;
}

/// Takes the lock.
///
/// The caller owns the lock word exclusively, so a held lock could never be
/// released while this function waits for it: taking a lock that is not
/// free is a liveness bug of the caller.
pub fn lock(lock: &mut i32)
    requires
        *old(lock) == UNLOCKED,
    ensures
        *final(lock) == LOCKED,
{
    *lock = LOCKED;
}

/// Releases the lock.
pub fn unlock(lock: &mut i32)
    ensures
        *final(lock) == UNLOCKED,
{
    *lock = UNLOCKED;
}

} // verus!
