//! The acquired guard: what a successful acquisition returns, one slot guard
//! per field of the record.

use crate::mode::LockModeKind;
use crate::record::{RecordLock, Slot};
use crate::request::LockRequest;
use crate::slot::SlotGuard;
use async_lock::futures::Upgrade;
use async_lock::RwLockWriteGuard;
use vstd::pervasive::unreached;
use vstd::prelude::*;

verus! {

/// The locks held on the fields of one record, and access to the fields
/// according to the mode each is held in. Dropping it releases every field.
#[verifier::reject_recursive_types(T)]
pub struct RecordGuard<'a, T> {
    lock: &'a RecordLock<T>,
    guards: Vec<SlotGuard<'a, T>>,
}

impl<'a, T> RecordGuard<'a, T> {
    #[verifier::type_invariant]
    spec fn well_formed(self) -> bool {
        &&& self.guards@.len() == self.lock@.len()
        &&& forall|i: int|
            0 <= i < self.guards@.len() ==> (#[trigger] self.guards@[i]).mode()
                != LockModeKind::Unlocked ==> self.lock.lockable(i)
    }

    /// The record lock whose fields are held.
    pub closed spec fn record(self) -> RecordLock<T> {
        *self.lock
    }

    /// The guard held on each field, in declaration order.
    pub closed spec fn guards(self) -> Seq<SlotGuard<'a, T>> {
        self.guards@
    }

    /// The mode each field is held in, in declaration order.
    pub open spec fn modes(self) -> Seq<LockModeKind> {
        Seq::new(self.guards().len(), |i: int| self.guards()[i].mode())
    }

    /// Bundles the guards of a finished acquisition.
    pub(crate) fn from_parts(lock: &'a RecordLock<T>, guards: Vec<SlotGuard<'a, T>>) -> (guard:
        Self)
        requires
            guards@.len() == lock@.len(),
            forall|i: int|
                0 <= i < guards@.len() ==> (#[trigger] guards@[i]).mode() != LockModeKind::Unlocked
                    ==> lock.lockable(i),
        ensures
            guard.record() == *lock,
            guard.guards() == guards@,
    {
        RecordGuard { lock, guards }
    }

    /// The number of fields of the record.
    pub fn len(&self) -> (n: usize)
        ensures
            n == self.modes().len(),
            n == self.record()@.len(),
    {
        proof {
            use_type_invariant(self);
        }
        self.guards.len()
    }

    /// The mode `field` is held in.
    pub fn mode_of(&self, field: usize) -> (mode: LockModeKind)
        requires
            field < self.modes().len(),
        ensures
            mode == self.modes()[field as int],
    {
        self.guards[field].kind()
    }

    /// Whether `field` exists and is self-synchronized, so that it can be
    /// read whatever is held.
    pub fn is_self_synchronized(&self, field: usize) -> (r: bool)
        ensures
            r == (field < self.record()@.len() && !self.record().lockable(field as int)),
    {
        field < self.lock.len() && !self.lock.is_lockable(field)
    }

    /// The value of `field`: of a self-synchronized field always, of a field
    /// behind a lock if it is held in a readable mode.
    pub fn get(&self, field: usize) -> (value: &T)
        requires
            field < self.modes().len(),
            self.modes()[field as int].readable() || !self.record().lockable(field as int),
        ensures
            self.record()@[field as int] matches Some(stored) ==> *value == stored,
            self.modes()[field as int].readable() ==> self.record().lockable(field as int)
                && self.guards()[field as int].shows(*value),
    {
        proof {
            use_type_invariant(self);
        }
        match self.lock.slot(field) {
            Slot::Bare(value) => value,
            Slot::Locked(_) => self.guards[field].get(),
        }
    }

    /// Exclusive access to the value of `field`, which has to be held in
    /// `Write` mode: access through the guard held on that field, with every
    /// other guard left as it is.
    pub fn get_mut(&mut self, field: usize) -> (value: &mut T)
        requires
            field < old(self).modes().len(),
            old(self).modes()[field as int].writable(),
        ensures
            final(self).record() == old(self).record(),
            final(self).modes() == old(self).modes(),
            forall|i: int|
                0 <= i < old(self).guards().len() && i != field ==> #[trigger] final(self).guards()[i]
                    == old(self).guards()[i],
            old(self).guards()[field as int].shows_only(*value),
            final(self).guards()[field as int].shows_only(*final(value)),
    {
        proof {
            use_type_invariant(&*self);
        }
        match self.guards[field].write_access() {
            Some(value) => value,
            None => unreached(),
        }
    }
}

impl<'a, T> RecordGuard<'a, T> {
    /// Promotes `field` from `Upgrade` to `Write` if no other reader holds
    /// it, without waiting. On failure the guard comes back as it was. Every
    /// other field stays held as it is, and `field` is held throughout.
    pub fn try_upgrade(self, field: usize) -> (outcome: Result<Self, Self>)
        requires
            field < self.modes().len(),
            self.modes()[field as int].upgradable(),
        ensures
            outcome matches Ok(guard) ==> {
                &&& guard.record() == self.record()
                &&& guard.modes() == self.modes().update(field as int, LockModeKind::Write)
                &&& forall|i: int|
                    0 <= i < self.guards().len() && i != field ==> #[trigger] guard.guards()[i]
                        == self.guards()[i]
            },
            outcome matches Err(guard) ==> guard.record() == self.record() && guard.guards()
                == self.guards(),
            outcome matches Ok(guard) ==> self.guards()[field as int].try_upgrades_to(
                Ok(guard.guards()[field as int]),
            ),
            outcome matches Err(guard) ==> self.guards()[field as int].try_upgrades_to(
                Err(guard.guards()[field as int]),
            ),
    {
        proof {
            use_type_invariant(&self);
        }
        let RecordGuard { lock, mut guards } = self;
        let held = guards.remove(field);
        match held.try_upgrade() {
            Ok(writer) => {
                guards.insert(field, writer);
                let guard = RecordGuard { lock, guards };
                assert(guard.modes() =~= self.modes().update(field as int, LockModeKind::Write));
                Ok(guard)
            },
            Err(kept) => {
                guards.insert(field, kept);
                assert(guards@ =~= self.guards());
                Err(RecordGuard { lock, guards })
            },
        }
    }

    /// Starts promoting `field` from `Upgrade` to `Write`: the future to
    /// await for the write guard, and the other fields, which stay held as
    /// they are while it is awaited. `field` is held throughout. Dropping
    /// both releases every field.
    ///
    /// The order of the fields does not protect a promotion: whoever awaits
    /// it keeps every other field, so two guards that each read the field the
    /// other one is promoting wait for each other without end. To write
    /// several fields, request them for writing at once, or `relock`.
    pub fn upgrade(self, field: usize) -> (started: (Upgrading<'a, T>, Upgrade<'a, T>))
        requires
            field < self.modes().len(),
            self.modes()[field as int].upgradable(),
        ensures
            started.0.record() == self.record(),
            started.0.field() == field,
            started.0.rest() == self.guards().update(field as int, SlotGuard::Unlocked),
            self.guards()[field as int].upgrades_into(started.1),
    {
        proof {
            use_type_invariant(&self);
        }
        let RecordGuard { lock, mut guards } = self;
        let held = guards.remove(field);
        guards.insert(field, SlotGuard::Unlocked);
        assert(guards@ =~= self.guards().update(field as int, SlotGuard::Unlocked));
        (Upgrading { lock, guards, field }, held.upgrade())
    }

    /// Demotes `field` from `Write` or `Upgrade` to `Read`, without waiting
    /// and without releasing it in between. Every other field stays held as
    /// it is.
    pub fn downgrade(self, field: usize) -> (guard: Self)
        requires
            field < self.modes().len(),
            self.modes()[field as int].downgradable(),
        ensures
            guard.record() == self.record(),
            guard.modes() == self.modes().update(field as int, LockModeKind::Read),
            forall|i: int|
                0 <= i < self.guards().len() && i != field ==> #[trigger] guard.guards()[i]
                    == self.guards()[i],
            self.guards()[field as int].downgrades_to(guard.guards()[field as int]),
    {
        proof {
            use_type_invariant(&self);
        }
        let RecordGuard { lock, mut guards } = self;
        let held = guards.remove(field);
        guards.insert(field, held.downgrade());
        let guard = RecordGuard { lock, guards };
        assert(guard.modes() =~= self.modes().update(field as int, LockModeKind::Read));
        guard
    }

    /// Releases every field, the last first, and then returns a fresh
    /// request against the same record lock, with no field selected. Nothing
    /// is held between the release and the next acquisition.
    pub fn relock(self) -> (request: LockRequest<'a, T>)
        ensures
            request.record() == self.record(),
            request.modes() == Seq::new(self.record()@.len(), |i: int| LockModeKind::Unlocked),
    {
        let RecordGuard { lock, mut guards } = self;
        while guards.len() > 0
            decreases guards@.len(),
        {
            let _ = guards.pop();
        }
        LockRequest::new(lock)
    }
}

/// A guard one of whose fields is being promoted to `Write`: every other
/// field, held as it was. Dropping it releases those fields.
#[verifier::reject_recursive_types(T)]
pub struct Upgrading<'a, T> {
    lock: &'a RecordLock<T>,
    guards: Vec<SlotGuard<'a, T>>,
    field: usize,
}

impl<'a, T> Upgrading<'a, T> {
    #[verifier::type_invariant]
    spec fn well_formed(self) -> bool {
        &&& self.guards@.len() == self.lock@.len()
        &&& self.field < self.guards@.len()
        &&& self.lock.lockable(self.field as int)
        &&& forall|i: int|
            0 <= i < self.guards@.len() ==> (#[trigger] self.guards@[i]).mode()
                != LockModeKind::Unlocked ==> self.lock.lockable(i)
    }

    /// The record lock whose fields are held.
    pub closed spec fn record(self) -> RecordLock<T> {
        *self.lock
    }

    /// The field that is being promoted.
    pub closed spec fn field(self) -> usize {
        self.field
    }

    /// The guard held on each field, with nothing in the place of the field
    /// that is being promoted.
    pub closed spec fn rest(self) -> Seq<SlotGuard<'a, T>> {
        self.guards@
    }

    /// Puts the write guard that the promotion resolved to in the place of
    /// the promoted field.
    pub fn finish(self, writer: RwLockWriteGuard<'a, T>) -> (guard: RecordGuard<'a, T>)
        ensures
            guard.record() == self.record(),
            guard.guards() == self.rest().update(self.field() as int, SlotGuard::Write(writer)),
    {
        proof {
            use_type_invariant(&self);
        }
        let Upgrading { lock, mut guards, field } = self;
        guards.set(field, SlotGuard::Write(writer));
        RecordGuard { lock, guards }
    }
}

} // verus!

