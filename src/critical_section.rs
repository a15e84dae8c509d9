//! Critical sections built from interrupt masking (single core) and from
//! interrupt masking plus a spin-lock keyed by core ID (multi core).
//!
//! The CPSR is passed in, and the multi-core lock word is passed in too: one
//! call makes one compare-and-swap attempt on it, and where another core
//! holds the lock the caller spins by calling again.

use vstd::prelude::*;
use crate::bits::with_bit;
use crate::cpsr::{Cpsr, I_BIT};

verus! {

/// Indicates the critical section was entered with interrupts on
pub const INT_ON: u8 = 0;

/// Indicates the critical section was entered with interrupts off
pub const INT_OFF: u8 = 1;

/// Critical section for a single core: interrupt masking alone.
pub struct SingleCoreCriticalSection;

impl SingleCoreCriticalSection {
    /// Masks interrupts and reports whether they were on before.
    pub fn acquire(cpsr: &mut Cpsr) -> (r: u8)
        ensures
            r == (if old(cpsr).spec_i() { INT_OFF } else { INT_ON }),
            final(cpsr).bits() == with_bit(old(cpsr).bits(), I_BIT, true),
            final(cpsr).spec_i(),
    {
        // the i bit means "masked"
        let was_active = !cpsr.i();
        *cpsr = cpsr.with_i(true);
        if was_active {
            INT_ON
        } else {
            INT_OFF
        }
    }

    /// Unmasks interrupts only where they were on when the matching
    /// `acquire` ran.
    pub fn release(cpsr: &mut Cpsr, was_active: u8)
        ensures
            final(cpsr).bits() == (if was_active == INT_ON {
                with_bit(old(cpsr).bits(), I_BIT, false)
            } else {
                old(cpsr).bits()
            }),
            was_active == INT_ON ==> !final(cpsr).spec_i(),
    {
        if was_active == INT_ON {
            *cpsr = cpsr.with_i(false);
        }
    }
}

/// Acquiring and then releasing leaves the interrupt mask as it was.
pub proof fn lemma_single_core_restores_mask(c: Cpsr)
    ensures
        ({
            let token = if c.spec_i() { INT_OFF } else { INT_ON };
            let masked = Cpsr { raw: with_bit(c.bits(), I_BIT, true) };
            let after = if token == INT_ON { with_bit(masked.bits(), I_BIT, false) } else { masked.bits() };
            &&& masked.spec_i()
            &&& (Cpsr { raw: after }).spec_i() == c.spec_i()
        }),
{
    crate::bits::lemma_with_bit(c.bits(), I_BIT, true);
    crate::bits::lemma_with_bit(with_bit(c.bits(), I_BIT, true), I_BIT, false);
}

/// The value of the spin-lock word when no core holds it.
pub const UNLOCKED: u32 = 0xFFFF_FFFF;

/// Indicates the critical section was entered with interrupts on, and the spin-lock unlocked
pub const INT_ON_UNLOCKED: u8 = 0;

/// Indicates the critical section was entered with interrupts off, and the spin-lock locked (by us)
pub const INT_OFF_LOCKED: u8 = 1;

/// Indicates the critical section was entered with interrupts off, and the spin-lock unlocked
pub const INT_OFF_UNLOCKED: u8 = 2;

/// The outcome of one attempt to enter the multi-core critical section.
#[derive(Debug, Clone, Copy, PartialEq, Eq, Structural)]
pub enum AcquireStep {
    /// Entered; the token is handed to the matching `release`
    Token(u8),
    /// Another core holds the lock: try again, passing on whether
    /// interrupts were on before the first attempt
    Spin(bool),
    /// Interrupts were on although this core already held the lock, which
    /// no correct nesting produces
    InvalidState,
}

/// The lock word after a compare-and-swap from `UNLOCKED` to `core`.
pub open spec fn lock_after_attempt(lock: u32, core: u32) -> u32 {
    if lock == UNLOCKED { core } else { lock }
}

/// What the attempt found: the lock newly taken (`Some(false)`), already
/// held by this core (`Some(true)`), or held by another (`None`).
pub open spec fn attempt_result(lock: u32, core: u32) -> Option<bool> {
    if lock == UNLOCKED {
        Some(false)
    } else if lock == core {
        Some(true)
    } else {
        None
    }
}

/// The token recorded for each reachable combination.
pub open spec fn token_for(was_active: bool, locked_already: bool) -> Option<u8> {
    if was_active && locked_already {
        None
    } else if was_active {
        Some(INT_ON_UNLOCKED)
    } else if locked_already {
        Some(INT_OFF_LOCKED)
    } else {
        Some(INT_OFF_UNLOCKED)
    }
}

/// The outcome of one lock attempt by `core` on `lock`.
pub open spec fn step_for(was_active: bool, lock: u32, core: u32) -> AcquireStep {
    match attempt_result(lock, core) {
        None => AcquireStep::Spin(was_active),
        Some(locked_already) => match token_for(was_active, locked_already) {
            Some(t) => AcquireStep::Token(t),
            None => AcquireStep::InvalidState,
        },
    }
}

/// Whether releasing with this token frees the lock.
pub open spec fn release_unlocks(token: u8) -> bool {
    token == INT_ON_UNLOCKED || token == INT_OFF_UNLOCKED
}

/// Whether releasing with this token unmasks interrupts.
pub open spec fn release_enables(token: u8) -> bool {
    token == INT_ON_UNLOCKED
}

/// Critical section for several cores: interrupt masking and a spin-lock
/// that holds the owning core's ID.
pub struct MultiCoreCriticalSection;

impl MultiCoreCriticalSection {
    /// Compare-and-swap of the lock word from `UNLOCKED` to `core_id`.
    fn try_lock(lock: &mut u32, core_id: u32)
        ensures
            *final(lock) == lock_after_attempt(*old(lock), core_id),
    {
        if *lock == UNLOCKED {
            *lock = core_id;
        }
    }

    /// Masks interrupts, then makes one attempt on the lock.
    pub fn acquire(cpsr: &mut Cpsr, lock: &mut u32, core_id: u32) -> (r: AcquireStep)
        requires
            core_id != UNLOCKED,
        ensures
            r == step_for(!old(cpsr).spec_i(), *old(lock), core_id),
            *final(lock) == lock_after_attempt(*old(lock), core_id),
            final(cpsr).bits() == with_bit(old(cpsr).bits(), I_BIT, true),
            final(cpsr).spec_i(),
    {
        // the i bit means "masked"
        let was_active = !cpsr.i();
        *cpsr = cpsr.with_i(true);
        Self::acquire_retry(lock, core_id, was_active)
    }

    /// One more attempt on the lock after `acquire` answered `Spin`.
    pub fn acquire_retry(lock: &mut u32, core_id: u32, was_active: bool) -> (r: AcquireStep)
        requires
            core_id != UNLOCKED,
        ensures
            r == step_for(was_active, *old(lock), core_id),
            *final(lock) == lock_after_attempt(*old(lock), core_id),
    {
        let observed = *lock;
        Self::try_lock(lock, core_id);
        Self::step(was_active, observed, core_id)
    }

    /// The outcome of an attempt whose compare-and-swap of the lock word,
    /// from `UNLOCKED` to `core_id`, found `observed` there.
    pub fn step(was_active: bool, observed: u32, core_id: u32) -> (r: AcquireStep)
        ensures
            r == step_for(was_active, observed, core_id),
    {
        let locked_already = if observed == UNLOCKED {
            false
        } else if observed == core_id {
            true
        } else {
            return AcquireStep::Spin(was_active);
        };
        if was_active && locked_already {
            AcquireStep::InvalidState
        } else if was_active {
            AcquireStep::Token(INT_ON_UNLOCKED)
        } else if locked_already {
            AcquireStep::Token(INT_OFF_LOCKED)
        } else {
            AcquireStep::Token(INT_OFF_UNLOCKED)
        }
    }

    /// Undoes what the matching `acquire` did: frees the lock where it was
    /// free before, and unmasks interrupts where they were on before.
    pub fn release(cpsr: &mut Cpsr, lock: &mut u32, was_active: u8)
        requires
            was_active == INT_ON_UNLOCKED || was_active == INT_OFF_LOCKED || was_active == INT_OFF_UNLOCKED,
        ensures
            *final(lock) == (if release_unlocks(was_active) { UNLOCKED } else { *old(lock) }),
            final(cpsr).bits() == (if release_enables(was_active) {
                with_bit(old(cpsr).bits(), I_BIT, false)
            } else {
                old(cpsr).bits()
            }),
    {
        if was_active == INT_OFF_UNLOCKED {
            *lock = UNLOCKED;
        } else if was_active == INT_ON_UNLOCKED {
            *lock = UNLOCKED;
            *cpsr = cpsr.with_i(false);
        }
    }
}

/// A core that enters twice in a row, starting with the lock free, does not
/// spin on the second entry; of the two matching releases exactly the outer
/// one frees the lock, at most one unmasks interrupts (exactly one where
/// they were on at the start), and afterwards the lock is free and the
/// interrupt mask is as it was at the start.
pub proof fn lemma_multi_core_nesting(c: Cpsr, core: u32)
    requires
        core != UNLOCKED,
    ensures
        ({
            let first = step_for(!c.spec_i(), UNLOCKED, core);
            let lock1 = lock_after_attempt(UNLOCKED, core);
            let second = step_for(false, lock1, core);
            let lock2 = lock_after_attempt(lock1, core);
            &&& first is Token && second is Token
            &&& lock1 == core && lock2 == core
            &&& second == AcquireStep::Token(INT_OFF_LOCKED)
            &&& !release_unlocks(second->Token_0) && release_unlocks(first->Token_0)
            &&& !release_enables(second->Token_0)
            &&& release_enables(first->Token_0) == !c.spec_i()
        }),
{
}

/// While one core holds the lock, another core's attempt spins and leaves
/// the lock with its owner; a core only enters once the lock word reads
/// free or its own ID.
pub proof fn lemma_multi_core_exclusion(was_active: bool, lock: u32, other: u32)
    requires
        lock != UNLOCKED,
        other != UNLOCKED,
        other != lock,
    ensures
        step_for(was_active, lock, other) == AcquireStep::Spin(was_active),
        lock_after_attempt(lock, other) == lock,
        forall|w: bool, l: u32, c: u32| (#[trigger] step_for(w, l, c)) is Token ==> l == UNLOCKED || l == c,
{
}

} // verus!
