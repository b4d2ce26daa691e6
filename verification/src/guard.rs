//! A guard on one field whose access level is part of its type, so that an
//! access the level does not allow is rejected when the caller is compiled.

use crate::mode::{
    lemma_marker_modes, LockMode, LockModeKind, ReadLocked, Readable, Unlocked, UpgradeLocked,
    Writable, WriteLocked,
};
use crate::slot::{Pending, SlotGuard};
use async_lock::futures::Upgrade;
use async_lock::RwLock;
use core::marker::PhantomData;
use vstd::pervasive::unreached;
use vstd::prelude::*;

verus! {

/// A field guard whose access level is the marker `M`: `WriteLocked` reads
/// and writes, `ReadLocked` and `UpgradeLocked` read, `Unlocked` gives no
/// access. Dropping it releases the field.
#[verifier::reject_recursive_types(T)]
pub struct FieldGuard<'a, T, M: LockMode> {
    inner: SlotGuard<'a, T>,
    _mode: PhantomData<M>,
}

impl<'a, T, M: LockMode> FieldGuard<'a, T, M> {
    #[verifier::type_invariant]
    spec fn held_as_typed(self) -> bool {
        self.inner.mode() == M::MODE
    }

    /// The guard without its type-level tag.
    pub closed spec fn slot(self) -> SlotGuard<'a, T> {
        self.inner
    }

    /// Starts acquiring `lock` at the level of `M`: the future to await, or
    /// nothing to await for `Unlocked`, in which case the lock is not
    /// touched.
    pub fn acquire(lock: &'a RwLock<T>) -> (pending: Pending<'a, T>)
        ensures
            pending.mode() == M::MODE,
            pending.waits_on(lock),
    {
        SlotGuard::acquire(lock, M::MODE)
    }

    /// Acquires `lock` at the level of `M` if the lock grants it at once, and
    /// never waits. For `Unlocked` the lock is not touched and the attempt
    /// succeeds.
    pub fn try_acquire(lock: &'a RwLock<T>) -> (attempt: Option<Self>)
        ensures
            M::MODE == LockModeKind::Unlocked ==> attempt is Some,
            attempt matches Some(guard) ==> guard.slot().mode() == M::MODE,
            SlotGuard::attempt_on(
                lock,
                M::MODE,
                match attempt {
                    Some(guard) => Some(guard.slot()),
                    None => None,
                },
            ),
    {
        match SlotGuard::try_acquire(lock, M::MODE) {
            Some(inner) => Some(FieldGuard { inner, _mode: PhantomData }),
            None => None,
        }
    }

    /// Tags a slot guard with the marker of the mode it is held in; hands it
    /// back where `M` is not that marker.
    pub fn from_slot_guard(guard: SlotGuard<'a, T>) -> (outcome: Result<Self, SlotGuard<'a, T>>)
        ensures
            outcome matches Ok(typed) ==> guard.mode() == M::MODE && typed.slot() == guard,
            outcome matches Err(back) ==> guard.mode() != M::MODE && back == guard,
    {
        if guard.kind() == M::MODE {
            Ok(FieldGuard { inner: guard, _mode: PhantomData })
        } else {
            Err(guard)
        }
    }

    /// The guard behind the type-level tag.
    pub fn as_slot_guard(&self) -> (guard: &SlotGuard<'a, T>)
        ensures
            *guard == self.slot(),
            guard.mode() == M::MODE,
    {
        proof {
            use_type_invariant(self);
        }
        &self.inner
    }

    /// The guard without its type-level tag.
    pub fn into_slot_guard(self) -> (guard: SlotGuard<'a, T>)
        ensures
            guard == self.slot(),
            guard.mode() == M::MODE,
    {
        proof {
            use_type_invariant(&self);
        }
        self.inner
    }
}

impl<'a, T> FieldGuard<'a, T, Unlocked> {
    /// A guard that holds nothing and gives no access. No lock is touched.
    pub fn unlocked() -> (guard: Self)
        ensures
            guard.slot() == SlotGuard::<'a, T>::Unlocked,
    {
        proof {
            lemma_marker_modes();
        }
        FieldGuard { inner: SlotGuard::Unlocked, _mode: PhantomData }
    }
}

impl<'a, T, M: Readable> FieldGuard<'a, T, M> {
    /// The value of the field, read through the guard that is held.
    pub fn get(&self) -> (value: &T)
        ensures
            self.slot().shows(*value),
    {
        proof {
            use_type_invariant(self);
            M::lemma_readable();
        }
        self.inner.get()
    }
}

impl<'a, T, M: Writable> FieldGuard<'a, T, M> {
    /// Exclusive access to the value of the field: the reference starts at
    /// what the guard shows, and what is written through it is what the guard
    /// shows afterwards.
    pub fn get_mut(&mut self) -> (value: &mut T)
        ensures
            final(self).slot().mode() == old(self).slot().mode(),
            old(self).slot().shows_only(*value),
            final(self).slot().shows_only(*final(value)),
    {
        proof {
            use_type_invariant(&*self);
            M::lemma_writable();
        }
        match self.inner.write_access() {
            Some(value) => value,
            None => unreached(),
        }
    }
}

impl<'a, T> FieldGuard<'a, T, UpgradeLocked> {
    /// Starts promoting the upgradable read lock to the write lock. The
    /// future resolves to the write guard once every other reader has left;
    /// the field is held throughout.
    pub fn upgrade(self) -> (pending: Upgrade<'a, T>)
        ensures
            self.slot().upgrades_into(pending),
    {
        proof {
            use_type_invariant(&self);
            lemma_marker_modes();
        }
        self.inner.upgrade()
    }

    /// Promotes the upgradable read lock to the write lock if no other
    /// reader holds the field, without waiting. On failure the guard comes
    /// back as it was. The field is held throughout.
    pub fn try_upgrade(self) -> (outcome: Result<FieldGuard<'a, T, WriteLocked>, Self>)
        ensures
            outcome matches Err(guard) ==> guard == self,
            outcome matches Ok(guard) ==> self.slot().try_upgrades_to(Ok(guard.slot())),
            outcome matches Err(guard) ==> self.slot().try_upgrades_to(Err(guard.slot())),
    {
        proof {
            use_type_invariant(&self);
            lemma_marker_modes();
        }
        match self.inner.try_upgrade() {
            Ok(inner) => Ok(FieldGuard { inner, _mode: PhantomData }),
            Err(inner) => Err(FieldGuard { inner, _mode: PhantomData }),
        }
    }

    /// Demotes the upgradable read lock to a shared read lock, which frees
    /// the upgrade slot. Never waits, and the field is held throughout.
    pub fn downgrade(self) -> (guard: FieldGuard<'a, T, ReadLocked>)
        ensures
            self.slot().downgrades_to(guard.slot()),
    {
        proof {
            use_type_invariant(&self);
            lemma_marker_modes();
        }
        FieldGuard { inner: self.inner.downgrade(), _mode: PhantomData }
    }
}

impl<'a, T> FieldGuard<'a, T, WriteLocked> {
    /// Demotes the write lock to a shared read lock, which lets other
    /// readers in. Never waits, and the field is held throughout.
    pub fn downgrade(self) -> (guard: FieldGuard<'a, T, ReadLocked>)
        ensures
            self.slot().downgrades_to(guard.slot()),
    {
        proof {
            use_type_invariant(&self);
            lemma_marker_modes();
        }
        FieldGuard { inner: self.inner.downgrade(), _mode: PhantomData }
    }
}

impl<'a, T, M: Readable> core::ops::Deref for FieldGuard<'a, T, M> {
    type Target = T;

    fn deref(&self) -> (value: &T)
        ensures
            self.slot().shows(*value),
    {
        self.get()
    }
}

impl<'a, T, M: Writable + Readable> core::ops::DerefMut for FieldGuard<'a, T, M> {
    fn deref_mut(&mut self) -> (value: &mut T)
        ensures
            final(self).slot().mode() == old(self).slot().mode(),
            old(self).slot().shows_only(*value),
            final(self).slot().shows_only(*final(value)),
    {
        self.get_mut()
    }
}

} // verus!
