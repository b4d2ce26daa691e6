//! A guard on one reader-writer slot, tagged at run time with the mode it is
//! held in. Every operation states in its contract which modes it accepts and
//! which mode results.

use crate::mode::LockModeKind;
use crate::rwlock::{
    read_guard_value, upgradable_guard_value, write_guard_value, write_guard_value_mut,
};
use async_lock::futures::{Read, UpgradableRead, Upgrade, Write};
use async_lock::{RwLock, RwLockReadGuard, RwLockUpgradableReadGuard, RwLockWriteGuard};
use vstd::pervasive::unreached;
use vstd::prelude::*;

verus! {

/// What is held on one slot: nothing, or one of the primitive's three guards.
/// Dropping the value releases the slot.
#[verifier::reject_recursive_types(T)]
pub enum SlotGuard<'a, T> {
    /// Nothing is held; the slot was not touched.
    Unlocked,
    /// A shared read lock.
    Read(RwLockReadGuard<'a, T>),
    /// The exclusive write lock.
    Write(RwLockWriteGuard<'a, T>),
    /// The upgradable read lock.
    Upgrade(RwLockUpgradableReadGuard<'a, T>),
}

/// An acquisition that has been started and may have to wait: the future to
/// await for the requested mode, or nothing to await for `Unlocked`.
#[verifier::reject_recursive_types(T)]
pub enum Pending<'a, T> {
    /// Nothing to wait for: the mode is `Unlocked`.
    Ready,
    /// Resolves to a read guard.
    Read(Read<'a, T>),
    /// Resolves to a write guard.
    Write(Write<'a, T>),
    /// Resolves to an upgradable read guard.
    Upgrade(UpgradableRead<'a, T>),
}

impl<'a, T> Pending<'a, T> {
    /// The mode that is being waited for.
    pub open spec fn mode(&self) -> LockModeKind {
        match self {
            Pending::Ready => LockModeKind::Unlocked,
            Pending::Read(_) => LockModeKind::Read,
            Pending::Write(_) => LockModeKind::Write,
            Pending::Upgrade(_) => LockModeKind::Upgrade,
        }
    }

    /// This is what starting to take `lock` makes: nothing to await where
    /// nothing is to be held, and else the future that `RwLock::read`,
    /// `write` or `upgradable_read` makes of `lock`.
    pub open spec fn waits_on(self, lock: &RwLock<T>) -> bool {
        match self {
            Pending::Ready => true,
            Pending::Read(future) => call_ensures(RwLock::<T>::read, (lock,), future),
            Pending::Write(future) => call_ensures(RwLock::<T>::write, (lock,), future),
            Pending::Upgrade(future) => call_ensures(
                RwLock::<T>::upgradable_read,
                (lock,),
                future,
            ),
        }
    }
}

impl<'a, T> SlotGuard<'a, T> {
    /// The mode the slot is held in.
    pub open spec fn mode(&self) -> LockModeKind {
        match self {
            SlotGuard::Unlocked => LockModeKind::Unlocked,
            SlotGuard::Read(_) => LockModeKind::Read,
            SlotGuard::Write(_) => LockModeKind::Write,
            SlotGuard::Upgrade(_) => LockModeKind::Upgrade,
        }
    }

    /// `attempt` is the outcome of trying to take `lock` in `mode` without
    /// waiting: for `Unlocked` a guard that holds nothing, with no call on
    /// the lock; for every other mode what `RwLock::try_read`, `try_write` or
    /// `try_upgradable_read` gave on `lock`, the guard tagged with the mode or
    /// `None`.
    pub open spec fn attempt_on(lock: &RwLock<T>, mode: LockModeKind, attempt: Option<Self>) -> bool {
        match mode {
            LockModeKind::Unlocked => attempt == Some(SlotGuard::<'a, T>::Unlocked),
            LockModeKind::Read => match attempt {
                Some(SlotGuard::Read(guard)) => call_ensures(
                    RwLock::<T>::try_read,
                    (lock,),
                    Some(guard),
                ),
                None => call_ensures(
                    RwLock::<T>::try_read,
                    (lock,),
                    None::<RwLockReadGuard<'a, T>>,
                ),
                _ => false,
            },
            LockModeKind::Write => match attempt {
                Some(SlotGuard::Write(guard)) => call_ensures(
                    RwLock::<T>::try_write,
                    (lock,),
                    Some(guard),
                ),
                None => call_ensures(
                    RwLock::<T>::try_write,
                    (lock,),
                    None::<RwLockWriteGuard<'a, T>>,
                ),
                _ => false,
            },
            LockModeKind::Upgrade => match attempt {
                Some(SlotGuard::Upgrade(guard)) => call_ensures(
                    RwLock::<T>::try_upgradable_read,
                    (lock,),
                    Some(guard),
                ),
                None => call_ensures(
                    RwLock::<T>::try_upgradable_read,
                    (lock,),
                    None::<RwLockUpgradableReadGuard<'a, T>>,
                ),
                _ => false,
            },
        }
    }

    /// `value` is what the guard gives when the field is read through it: a
    /// result of `Deref` on the guard that is held. Nothing shows through a
    /// guard that holds nothing.
    pub closed spec fn shows(&self, value: T) -> bool {
        match self {
            SlotGuard::Unlocked => false,
            SlotGuard::Read(guard) => call_ensures(read_guard_value::<T>, (guard,), &value),
            SlotGuard::Write(guard) => call_ensures(write_guard_value::<T>, (guard,), &value),
            SlotGuard::Upgrade(guard) => call_ensures(
                upgradable_guard_value::<T>,
                (guard,),
                &value,
            ),
        }
    }

    /// `value` is the one value that the guard shows.
    pub open spec fn shows_only(&self, value: T) -> bool {
        &&& self.shows(value)
        &&& forall|other: T| #[trigger] self.shows(other) ==> other == value
    }

    /// `outcome` is what promoting this guard without waiting gives: the
    /// guard holds the upgradable read lock, and `outcome` is the result of
    /// `RwLockUpgradableReadGuard::try_upgrade` on it, the write guard tagged
    /// `Write` or the guard that came back tagged `Upgrade`.
    pub open spec fn try_upgrades_to(self, outcome: Result<Self, Self>) -> bool {
        self matches SlotGuard::Upgrade(held) && match outcome {
            Ok(SlotGuard::Write(writer)) => call_ensures(
                RwLockUpgradableReadGuard::<'a, T>::try_upgrade,
                (held,),
                Ok::<RwLockWriteGuard<'a, T>, RwLockUpgradableReadGuard<'a, T>>(writer),
            ),
            Err(SlotGuard::Upgrade(kept)) => call_ensures(
                RwLockUpgradableReadGuard::<'a, T>::try_upgrade,
                (held,),
                Err::<RwLockWriteGuard<'a, T>, RwLockUpgradableReadGuard<'a, T>>(kept),
            ),
            _ => false,
        }
    }

    /// `pending` is the promotion of this guard: the guard holds the
    /// upgradable read lock, and `pending` is the future that
    /// `RwLockUpgradableReadGuard::upgrade` makes of it.
    pub open spec fn upgrades_into(self, pending: Upgrade<'a, T>) -> bool {
        self matches SlotGuard::Upgrade(held) && call_ensures(
            RwLockUpgradableReadGuard::<'a, T>::upgrade,
            (held,),
            pending,
        )
    }

    /// `guard` is what demoting this guard gives: a read guard that is the
    /// result of `downgrade` on the write guard or on the upgradable read
    /// guard that is held.
    pub open spec fn downgrades_to(self, guard: Self) -> bool {
        guard matches SlotGuard::Read(reader) && match self {
            SlotGuard::Write(held) => call_ensures(
                RwLockWriteGuard::<'a, T>::downgrade,
                (held,),
                reader,
            ),
            SlotGuard::Upgrade(held) => call_ensures(
                RwLockUpgradableReadGuard::<'a, T>::downgrade,
                (held,),
                reader,
            ),
            _ => false,
        }
    }

    /// The mode the slot is held in.
    pub fn kind(&self) -> (k: LockModeKind)
        ensures
            k == self.mode(),
    {
        match self {
            SlotGuard::Unlocked => LockModeKind::Unlocked,
            SlotGuard::Read(_) => LockModeKind::Read,
            SlotGuard::Write(_) => LockModeKind::Write,
            SlotGuard::Upgrade(_) => LockModeKind::Upgrade,
        }
    }

    /// Starts acquiring `lock` in `mode`. For `Unlocked` the lock is not
    /// touched and there is nothing to await.
    pub fn acquire(lock: &'a RwLock<T>, mode: LockModeKind) -> (pending: Pending<'a, T>)
        ensures
            pending.mode() == mode,
            pending.waits_on(lock),
    {
        match mode {
            LockModeKind::Unlocked => Pending::Ready,
            LockModeKind::Read => Pending::Read(lock.read()),
            LockModeKind::Write => Pending::Write(lock.write()),
            LockModeKind::Upgrade => Pending::Upgrade(lock.upgradable_read()),
        }
    }

    /// Acquires `lock` in `mode` if the lock grants it at once, and never
    /// waits. For `Unlocked` the lock is not touched and the attempt succeeds.
    pub fn try_acquire(lock: &'a RwLock<T>, mode: LockModeKind) -> (attempt: Option<Self>)
        ensures
            mode == LockModeKind::Unlocked ==> attempt == Some(SlotGuard::<'a, T>::Unlocked),
            attempt matches Some(guard) ==> guard.mode() == mode,
            Self::attempt_on(lock, mode, attempt),
    {
        match mode {
            LockModeKind::Unlocked => Some(SlotGuard::Unlocked),
            LockModeKind::Read => match lock.try_read() {
                Some(guard) => Some(SlotGuard::Read(guard)),
                None => None,
            },
            LockModeKind::Write => match lock.try_write() {
                Some(guard) => Some(SlotGuard::Write(guard)),
                None => None,
            },
            LockModeKind::Upgrade => match lock.try_upgradable_read() {
                Some(guard) => Some(SlotGuard::Upgrade(guard)),
                None => None,
            },
        }
    }

    /// The value of the field, read through the guard that is held. The slot
    /// has to be held in a readable mode.
    pub fn get(&self) -> (value: &T)
        requires
            self.mode().readable(),
        ensures
            self.shows(*value),
    {
        match self {
            SlotGuard::Read(guard) => read_guard_value(guard),
            SlotGuard::Write(guard) => write_guard_value(guard),
            SlotGuard::Upgrade(guard) => upgradable_guard_value(guard),
            SlotGuard::Unlocked => unreached(),
        }
    }

    /// Exclusive access to the value of the field if the slot is held in
    /// `Write` mode, which it stays in; `None`, and nothing changed, in every
    /// other mode.
    pub fn write_access(&mut self) -> (access: Option<&mut T>)
        ensures
            access is Some <==> old(self).mode().writable(),
            final(self).mode() == old(self).mode(),
            access matches Some(value) ==> old(self).shows_only(*value),
            access matches Some(value) ==> final(self).shows_only(*final(value)),
            access is None ==> *final(self) == *old(self),
        no_unwind
    {
        match self {
            SlotGuard::Write(guard) => Some(write_guard_value_mut(guard)),
            _ => None,
        }
    }

    /// Exclusive access to the value of the field. The slot has to be held in
    /// `Write` mode, and stays so. The reference starts at what the guard
    /// shows, and what is written through it is what the guard shows
    /// afterwards.
    pub fn get_mut(&mut self) -> (value: &mut T)
        requires
            old(self).mode().writable(),
        ensures
            final(self).mode() == LockModeKind::Write,
            old(self).shows_only(*value),
            final(self).shows_only(*final(value)),
    {
        match self.write_access() {
            Some(value) => value,
            None => unreached(),
        }
    }

    /// Promotes an upgradable read lock to the write lock if no other reader
    /// holds the slot, without waiting. On failure the guard comes back as it
    /// was, still in `Upgrade` mode. The slot is held throughout.
    pub fn try_upgrade(self) -> (outcome: Result<Self, Self>)
        requires
            self.mode().upgradable(),
        ensures
            outcome matches Ok(guard) ==> guard.mode() == LockModeKind::Write
                && self.mode().transitions_to(guard.mode()),
            outcome matches Err(guard) ==> guard == self,
            self.try_upgrades_to(outcome),
    {
        match self {
            SlotGuard::Upgrade(guard) => match RwLockUpgradableReadGuard::try_upgrade(guard) {
                Ok(writer) => Ok(SlotGuard::Write(writer)),
                Err(kept) => Err(SlotGuard::Upgrade(kept)),
            },
            _ => unreached(),
        }
    }

    /// Starts promoting an upgradable read lock to the write lock. The future
    /// resolves to the write guard once every other reader has left; the slot
    /// is held throughout.
    pub fn upgrade(self) -> (pending: Upgrade<'a, T>)
        requires
            self.mode().upgradable(),
        ensures
            self.upgrades_into(pending),
    {
        match self {
            SlotGuard::Upgrade(guard) => RwLockUpgradableReadGuard::upgrade(guard),
            _ => unreached(),
        }
    }

    /// Demotes the write lock or the upgradable read lock to a shared read
    /// lock, without waiting and without releasing the slot in between.
    pub fn downgrade(self) -> (guard: Self)
        requires
            self.mode().downgradable(),
        ensures
            guard.mode() == LockModeKind::Read,
            self.mode().transitions_to(guard.mode()),
            self.downgrades_to(guard),
    {
        match self {
            SlotGuard::Write(guard) => SlotGuard::Read(RwLockWriteGuard::downgrade(guard)),
            SlotGuard::Upgrade(guard) => SlotGuard::Read(
                RwLockUpgradableReadGuard::downgrade(guard),
            ),
            _ => unreached(),
        }
    }
}

/// A demotion keeps the value: what the read guard shows is what the guard
/// it came of showed.
pub proof fn lemma_downgrade_keeps_value<'a, T>(
    held: SlotGuard<'a, T>,
    guard: SlotGuard<'a, T>,
    before: T,
    after: T,
)
    requires
        held.downgrades_to(guard),
        held.shows(before),
        guard.shows(after),
    ensures
        before == after,
{
}

/// A promotion that succeeds at once keeps the value: what the write guard
/// shows, before anything is written through it, is what the upgradable
/// read guard showed.
pub proof fn lemma_try_upgrade_keeps_value<'a, T>(
    held: SlotGuard<'a, T>,
    guard: SlotGuard<'a, T>,
    before: T,
    after: T,
)
    requires
        held.try_upgrades_to(Ok(guard)),
        held.shows(before),
        guard.shows(after),
    ensures
        before == after,
{
}

} // verus!
