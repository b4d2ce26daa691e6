//! The record lock: one independent reader-writer slot per field, in field
//! declaration order.

use crate::acquired::RecordGuard;
use crate::mode::LockModeKind;
use crate::request::{
    rolled_back, selects_nothing, taken, uniform_modes, Acquisition, LockRequest,
};
use async_lock::futures::{Read, UpgradableRead, Write};
use async_lock::{RwLock, RwLockReadGuard, RwLockUpgradableReadGuard, RwLockWriteGuard};
use vstd::pervasive::unreached;
use vstd::prelude::*;

verus! {

/// The storage of one field.
#[verifier::reject_recursive_types(T)]
pub(crate) enum Slot<T> {
    /// A value behind its own reader-writer lock.
    Locked(RwLock<T>),
    /// A self-synchronized value, stored as it is and never locked.
    Bare(T),
}

impl<T> Slot<T> {
    /// What a contract can see of the field: the value of a self-synchronized
    /// field, and nothing of a value behind a lock.
    pub(crate) open spec fn view(&self) -> Option<T> {
        match self {
            Slot::Locked(_) => None,
            Slot::Bare(value) => Some(*value),
        }
    }
}

/// A record whose fields can be locked independently of each other. The set
/// and order of the fields is fixed when the record lock is made.
#[verifier::reject_recursive_types(T)]
pub struct RecordLock<T> {
    slots: Vec<Slot<T>>,
}

impl<T> View for RecordLock<T> {
    type V = Seq<Option<T>>;

    /// One entry per field, in declaration order: the value of a
    /// self-synchronized field, `None` for a field behind a lock. Of such a
    /// field `lock_at` gives the lock; what the lock holds has no place in a
    /// contract.
    closed spec fn view(&self) -> Seq<Option<T>> {
        Seq::new(self.slots@.len(), |i: int| self.slots@[i].view())
    }
}

impl<T> RecordLock<T> {
    /// Field `field` exists and is behind a lock.
    pub open spec fn lockable(&self, field: int) -> bool {
        0 <= field < self@.len() && self@[field] is None
    }

    /// The record lock holds one field per value, in order: the flagged
    /// fields as they are, and each of the others behind the lock that
    /// `RwLock::new` made of its value. A field without a flag counts as not
    /// flagged.
    pub open spec fn wraps(&self, values: Seq<T>, self_synchronized: Seq<bool>) -> bool {
        &&& self@.len() == values.len()
        &&& forall|i: int|
            0 <= i < self@.len() ==> #[trigger] self@[i] == (if i < self_synchronized.len()
                && self_synchronized[i] {
                Some(values[i])
            } else {
                None
            })
        &&& forall|i: int|
            self.lockable(i) ==> call_ensures(
                RwLock::<T>::new,
                (values[i],),
                #[trigger] self.lock_at(i),
            )
    }

    /// The values come from unwrapping the record lock: one per field, in
    /// order; of a self-synchronized field the value itself, of a field
    /// behind a lock what `RwLock::into_inner` gave for the lock of that
    /// field.
    pub open spec fn unwraps_to(&self, values: Seq<T>) -> bool {
        &&& values.len() == self@.len()
        &&& forall|i: int|
            0 <= i < self@.len() ==> (#[trigger] self@[i] matches Some(value) ==> values[i]
                == value)
        &&& forall|i: int|
            self.lockable(i) ==> call_ensures(
                RwLock::<T>::into_inner,
                (#[trigger] self.lock_at(i),),
                values[i],
            )
    }

    /// Wrapping a record and unwrapping it again gives a record of the same
    /// length with every self-synchronized field as it was, and for every
    /// other field what unwrapping gave for the lock that was made of the
    /// value of that same field. (That a lock nobody wrote to gives back the
    /// value it was made of is the lock's own.)
    pub proof fn lemma_round_trip(
        &self,
        values: Seq<T>,
        self_synchronized: Seq<bool>,
        unwrapped: Seq<T>,
    )
        requires
            self.wraps(values, self_synchronized),
            self.unwraps_to(unwrapped),
        ensures
            unwrapped.len() == values.len(),
            forall|i: int|
                0 <= i < values.len() && i < self_synchronized.len() && self_synchronized[i]
                    ==> #[trigger] unwrapped[i] == values[i],
            forall|i: int|
                0 <= i < values.len() && !(i < self_synchronized.len() && self_synchronized[i])
                    ==> call_ensures(RwLock::<T>::new, (values[i],), #[trigger] self.lock_at(i))
                    && call_ensures(RwLock::<T>::into_inner, (self.lock_at(i),), unwrapped[i]),
    {
        assert forall|i: int|
            0 <= i < values.len() && i < self_synchronized.len()
                && self_synchronized[i] implies #[trigger] unwrapped[i] == values[i] by {
            assert(self@[i] == Some(values[i]));
        }
    }

    /// Wraps each value, in order, in a reader-writer lock of its own.
    pub fn new(values: Vec<T>) -> (lock: Self)
        ensures
            lock.wraps(values@, Seq::empty()),
    {
        let mut slots: Vec<Slot<T>> = Vec::new();
        for value in iter: values
            invariant
                slots@.len() == iter.index(),
                iter.seq() == values@,
                forall|i: int|
                    0 <= i < slots@.len() ==> (#[trigger] slots@[i] matches Slot::Locked(lock)
                        && call_ensures(RwLock::<T>::new, (values@[i],), lock)),
        {
            slots.push(Slot::Locked(RwLock::new(value)));
        }
        RecordLock { slots }
    }

    /// Wraps each value, in order, in a reader-writer lock of its own, but
    /// for the fields flagged as self-synchronized, which are stored as they
    /// are. A field without a flag counts as not flagged.
    pub fn with_self_synchronized(values: Vec<T>, self_synchronized: &Vec<bool>) -> (lock: Self)
        ensures
            lock.wraps(values@, self_synchronized@),
    {
        let mut slots: Vec<Slot<T>> = Vec::new();
        for value in iter: values
            invariant
                slots@.len() == iter.index(),
                iter.seq() == values@,
                forall|i: int|
                    0 <= i < slots@.len() ==> (#[trigger] slots@[i]).view() == (if i
                        < self_synchronized@.len() && self_synchronized@[i] {
                        Some(values@[i])
                    } else {
                        None
                    }),
                forall|i: int|
                    0 <= i < slots@.len() ==> (#[trigger] slots@[i] matches Slot::Locked(lock)
                        ==> call_ensures(RwLock::<T>::new, (values@[i],), lock)),
        {
            let field = slots.len();
            if field < self_synchronized.len() && self_synchronized[field] {
                slots.push(Slot::Bare(value));
            } else {
                slots.push(Slot::Locked(RwLock::new(value)));
            }
        }
        RecordLock { slots }
    }

    /// The number of fields.
    pub fn len(&self) -> (n: usize)
        ensures
            n == self@.len(),
    {
        self.slots.len()
    }

    /// Whether `field` exists and is behind a lock.
    pub fn is_lockable(&self, field: usize) -> (r: bool)
        ensures
            r == self.lockable(field as int),
    {
        if field < self.slots.len() {
            match &self.slots[field] {
                Slot::Locked(_) => true,
                Slot::Bare(_) => false,
            }
        } else {
            false
        }
    }
}

impl<T> RecordLock<T> {
    /// The storage of one field.
    pub(crate) fn slot(&self, field: usize) -> (slot: &Slot<T>)
        requires
            field < self@.len(),
        ensures
            slot.view() == self@[field as int],
            *slot matches Slot::Locked(lock) ==> lock == self.lock_at(field as int),
    {
        &self.slots[field]
    }

    /// Unwraps every field, in order, back into its plain value. Taking the
    /// record lock by value shows that no guard on it is left.
    pub fn into_inner(self) -> (values: Vec<T>)
        ensures
            self.unwraps_to(values@),
    {
        let ghost before = self.slots@;
        let mut values: Vec<T> = Vec::new();
        for slot in iter: self.slots
            invariant
                values@.len() == iter.index(),
                iter.seq() == before,
                forall|i: int|
                    0 <= i < values@.len() ==> ((#[trigger] before[i]).view() matches Some(value)
                        ==> values@[i] == value),
                forall|i: int|
                    0 <= i < values@.len() ==> (#[trigger] before[i] matches Slot::Locked(lock)
                        ==> call_ensures(RwLock::<T>::into_inner, (lock,), values@[i])),
        {
            match slot {
                Slot::Locked(lock) => values.push(lock.into_inner()),
                Slot::Bare(value) => values.push(value),
            }
        }
        values
    }

    /// Direct access to one field without locking. The exclusive borrow of
    /// the whole record lock shows that no guard on it is left.
    pub fn get_mut(&mut self, field: usize) -> (value: &mut T)
        requires
            field < old(self)@.len(),
        ensures
            final(self)@.len() == old(self)@.len(),
            forall|i: int|
                0 <= i < old(self)@.len() && i != field ==> #[trigger] final(self)@[i] == old(self)@[i],
            old(self)@[field as int] matches Some(before) ==> *value == before && final(self)@[field as int]
                == Some(*final(value)),
            old(self)@[field as int] is None ==> final(self)@[field as int] is None,
            forall|i: int|
                old(self).lockable(i) && i != field ==> #[trigger] final(self).lock_at(i) == old(
                    self,
                ).lock_at(i),
    {
        match &mut self.slots[field] {
            Slot::Locked(lock) => lock.get_mut(),
            Slot::Bare(value) => value,
        }
    }
}

impl<T> RecordLock<T> {
    /// Starts a lock request with no field selected.
    pub fn builder(&self) -> (request: LockRequest<'_, T>)
        ensures
            request.record() == *self,
            request.modes() == Seq::new(self@.len(), |i: int| LockModeKind::Unlocked),
    {
        LockRequest::new(self)
    }

    /// Starts read-locking every field behind a lock, in declaration order.
    pub fn lock_all(&self) -> (acquisition: Acquisition<'_, T>)
        ensures
            acquisition.record() == *self,
            acquisition.modes() == uniform_modes(*self, LockModeKind::Read),
            acquisition.cursor() == 0,
            acquisition.in_order(),
    {
        LockRequest::all(self, LockModeKind::Read).lock()
    }

    /// Starts write-locking every field behind a lock, in declaration order.
    pub fn lock_all_mut(&self) -> (acquisition: Acquisition<'_, T>)
        ensures
            acquisition.record() == *self,
            acquisition.modes() == uniform_modes(*self, LockModeKind::Write),
            acquisition.cursor() == 0,
            acquisition.in_order(),
    {
        LockRequest::all(self, LockModeKind::Write).lock()
    }

    /// Read-locks every field behind a lock without waiting. If a field is
    /// refused, every field taken before it is released and `None` is
    /// returned.
    /// The release follows from ownership and is no part of the contract.
    pub fn try_lock_all(&self) -> (outcome: Option<RecordGuard<'_, T>>)
        ensures
            selects_nothing(uniform_modes(*self, LockModeKind::Read)) ==> outcome is Some,
            outcome matches Some(guard) ==> {
                &&& guard.record() == *self
                &&& guard.modes() == uniform_modes(*self, LockModeKind::Read)
                &&& taken(
                    *self,
                    uniform_modes(*self, LockModeKind::Read),
                    guard.guards(),
                    self@.len() as int,
                )
            },
            outcome is None ==> rolled_back(*self, uniform_modes(*self, LockModeKind::Read)),
    {
        LockRequest::all(self, LockModeKind::Read).try_lock()
    }

    /// Write-locks every field behind a lock without waiting. If a field is
    /// refused, every field taken before it is released and `None` is
    /// returned.
    /// The release follows from ownership and is no part of the contract.
    pub fn try_lock_all_mut(&self) -> (outcome: Option<RecordGuard<'_, T>>)
        ensures
            selects_nothing(uniform_modes(*self, LockModeKind::Write)) ==> outcome is Some,
            outcome matches Some(guard) ==> {
                &&& guard.record() == *self
                &&& guard.modes() == uniform_modes(*self, LockModeKind::Write)
                &&& taken(
                    *self,
                    uniform_modes(*self, LockModeKind::Write),
                    guard.guards(),
                    self@.len() as int,
                )
            },
            outcome is None ==> rolled_back(*self, uniform_modes(*self, LockModeKind::Write)),
    {
        LockRequest::all(self, LockModeKind::Write).try_lock()
    }

    /// The lock that field `field` is behind.
    pub closed spec fn lock_at(&self, field: int) -> RwLock<T>
        recommends
            self.lockable(field),
    {
        match self.slots@[field] {
            Slot::Locked(lock) => lock,
            Slot::Bare(_) => arbitrary(),
        }
    }

    /// The lock of one field.
    fn lock_of(&self, field: usize) -> (lock: &RwLock<T>)
        requires
            self.lockable(field as int),
        ensures
            *lock == self.lock_at(field as int),
    {
        match &self.slots[field] {
            Slot::Locked(lock) => lock,
            Slot::Bare(_) => unreached(),
        }
    }

    /// Starts read-locking one field, bypassing the request: the future that
    /// `RwLock::read` makes of the lock of that field.
    pub fn read(&self, field: usize) -> (pending: Read<'_, T>)
        requires
            self.lockable(field as int),
        ensures
            call_ensures(RwLock::<T>::read, (&self.lock_at(field as int),), pending),
    {
        self.lock_of(field).read()
    }

    /// Starts write-locking one field, bypassing the request: the future
    /// that `RwLock::write` makes of the lock of that field.
    pub fn write(&self, field: usize) -> (pending: Write<'_, T>)
        requires
            self.lockable(field as int),
        ensures
            call_ensures(RwLock::<T>::write, (&self.lock_at(field as int),), pending),
    {
        self.lock_of(field).write()
    }

    /// Starts taking the upgradable read lock of one field, bypassing the
    /// request: the future that `RwLock::upgradable_read` makes of the lock of
    /// that field.
    pub fn upgrade(&self, field: usize) -> (pending: UpgradableRead<'_, T>)
        requires
            self.lockable(field as int),
        ensures
            call_ensures(RwLock::<T>::upgradable_read, (&self.lock_at(field as int),), pending),
    {
        self.lock_of(field).upgradable_read()
    }

    /// Read-locks one field if its lock grants that at once: what
    /// `RwLock::try_read` gives on the lock of that field.
    pub fn try_read(&self, field: usize) -> (guard: Option<RwLockReadGuard<'_, T>>)
        requires
            self.lockable(field as int),
        ensures
            call_ensures(RwLock::<T>::try_read, (&self.lock_at(field as int),), guard),
    {
        self.lock_of(field).try_read()
    }

    /// Write-locks one field if its lock grants that at once: what
    /// `RwLock::try_write` gives on the lock of that field.
    pub fn try_write(&self, field: usize) -> (guard: Option<RwLockWriteGuard<'_, T>>)
        requires
            self.lockable(field as int),
        ensures
            call_ensures(RwLock::<T>::try_write, (&self.lock_at(field as int),), guard),
    {
        self.lock_of(field).try_write()
    }

    /// Takes the upgradable read lock of one field if its lock grants that
    /// at once: what `RwLock::try_upgradable_read` gives on the lock of that
    /// field.
    pub fn try_upgrade(&self, field: usize) -> (guard: Option<RwLockUpgradableReadGuard<'_, T>>)
        requires
            self.lockable(field as int),
        ensures
            call_ensures(RwLock::<T>::try_upgradable_read, (&self.lock_at(field as int),), guard),
    {
        self.lock_of(field).try_upgradable_read()
    }
}

impl<T> From<Vec<T>> for RecordLock<T> {
    /// As `RecordLock::new`.
    fn from(values: Vec<T>) -> (lock: Self)
        ensures
            lock.wraps(values@, Seq::empty()),
    {
        RecordLock::new(values)
    }
}

impl<T> From<(Vec<T>, Vec<bool>)> for RecordLock<T> {
    /// As `RecordLock::with_self_synchronized`, from the values and the flags
    /// of the self-synchronized fields.
    fn from(record: (Vec<T>, Vec<bool>)) -> (lock: Self)
        ensures
            lock.wraps(record.0@, record.1@),
    {
        let (values, self_synchronized) = record;
        RecordLock::with_self_synchronized(values, &self_synchronized)
    }
}

impl<T> vstd::std_specs::convert::FromSpecImpl<(Vec<T>, Vec<bool>)> for RecordLock<T> {
    /// As for a record without self-synchronized fields: `from` states what
    /// holds of the record lock.
    open spec fn obeys_from_spec() -> bool {
        false
    }

    open spec fn from_spec(record: (Vec<T>, Vec<bool>)) -> Self {
        arbitrary()
    }
}

impl<T> vstd::std_specs::convert::FromSpecImpl<Vec<T>> for RecordLock<T> {
    /// The locks of a record lock have no value in contracts, so the record
    /// lock that comes out cannot be written down; `from` states what holds
    /// of it.
    open spec fn obeys_from_spec() -> bool {
        false
    }

    open spec fn from_spec(values: Vec<T>) -> Self {
        arbitrary()
    }
}

} // verus!
