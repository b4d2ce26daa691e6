//! The lock request: one requested mode per field of a record lock, and the
//! acquisition that turns a request into a guard by taking the fields in
//! declaration order.

use crate::acquired::RecordGuard;
use crate::deadlock::Progress;
use crate::mode::LockModeKind;
use crate::record::{RecordLock, Slot};
use crate::slot::{Pending, SlotGuard};
use vstd::prelude::*;

verus! {

/// A request may ask for these modes on this record lock: one mode per field,
/// and no lock on a self-synchronized field.
pub open spec fn requestable<T>(record: RecordLock<T>, modes: Seq<LockModeKind>) -> bool {
    &&& modes.len() == record@.len()
    &&& forall|i: int|
        0 <= i < modes.len() ==> #[trigger] modes[i] != LockModeKind::Unlocked ==> record.lockable(
            i,
        )
}

/// A selection of one mode per field, built up before anything is acquired.
/// Every field starts `Unlocked`.
#[verifier::reject_recursive_types(T)]
pub struct LockRequest<'a, T> {
    lock: &'a RecordLock<T>,
    modes: Vec<LockModeKind>,
}

impl<'a, T> LockRequest<'a, T> {
    #[verifier::type_invariant]
    spec fn well_formed(self) -> bool {
        requestable(*self.lock, self.modes@)
    }

    /// The record lock the request is made against.
    pub closed spec fn record(self) -> RecordLock<T> {
        *self.lock
    }

    /// The requested mode of each field, in declaration order.
    pub closed spec fn modes(self) -> Seq<LockModeKind> {
        self.modes@
    }

    /// A request against `lock` that selects no field.
    pub fn new(lock: &'a RecordLock<T>) -> (request: Self)
        ensures
            request.record() == *lock,
            request.modes() == Seq::new(lock@.len(), |i: int| LockModeKind::Unlocked),
    {
        let n = lock.len();
        let mut modes: Vec<LockModeKind> = Vec::new();
        while modes.len() < n
            invariant
                n == lock@.len(),
                modes@.len() <= n,
                forall|i: int| 0 <= i < modes@.len() ==> modes@[i] == LockModeKind::Unlocked,
            decreases n - modes@.len(),
        {
            modes.push(LockModeKind::Unlocked);
        }
        assert(modes@ =~= Seq::new(lock@.len(), |i: int| LockModeKind::Unlocked));
        LockRequest { lock, modes }
    }

    /// The number of fields of the record.
    pub fn len(&self) -> (n: usize)
        ensures
            n == self.modes().len(),
            n == self.record()@.len(),
    {
        proof {
            use_type_invariant(self);
        }
        self.modes.len()
    }

    /// The mode selected for `field` so far.
    pub fn mode_of(&self, field: usize) -> (mode: LockModeKind)
        requires
            field < self.modes().len(),
        ensures
            mode == self.modes()[field as int],
    {
        self.modes[field]
    }

    /// Whether `field` can still be selected: it exists, is behind a lock,
    /// and has not been selected.
    pub fn is_selectable(&self, field: usize) -> (r: bool)
        ensures
            r == self.selectable(field as int),
    {
        proof {
            use_type_invariant(self);
        }
        self.lock.is_lockable(field) && match self.modes[field] {
            LockModeKind::Unlocked => true,
            _ => false,
        }
    }

    /// `field` exists, is behind a lock, and has not been selected.
    pub open spec fn selectable(self, field: int) -> bool {
        self.record().lockable(field) && 0 <= field < self.modes().len() && self.modes()[field]
            == LockModeKind::Unlocked
    }

    /// Selects `mode` for `field`. A field is selected at most once.
    pub fn select(self, field: usize, mode: LockModeKind) -> (request: Self)
        requires
            self.selectable(field as int),
        ensures
            request.record() == self.record(),
            request.modes() == self.modes().update(field as int, mode),
    {
        proof {
            use_type_invariant(&self);
        }
        let LockRequest { lock, mut modes } = self;
        modes.set(field, mode);
        LockRequest { lock, modes }
    }

    /// Requests shared read access to `field`.
    pub fn read(self, field: usize) -> (request: Self)
        requires
            self.selectable(field as int),
        ensures
            request.record() == self.record(),
            request.modes() == self.modes().update(field as int, LockModeKind::Read),
    {
        self.select(field, LockModeKind::Read)
    }

    /// Requests exclusive write access to `field`.
    pub fn write(self, field: usize) -> (request: Self)
        requires
            self.selectable(field as int),
        ensures
            request.record() == self.record(),
            request.modes() == self.modes().update(field as int, LockModeKind::Write),
    {
        self.select(field, LockModeKind::Write)
    }

    /// Requests upgradable read access to `field`.
    pub fn upgrade(self, field: usize) -> (request: Self)
        requires
            self.selectable(field as int),
        ensures
            request.record() == self.record(),
            request.modes() == self.modes().update(field as int, LockModeKind::Upgrade),
    {
        self.select(field, LockModeKind::Upgrade)
    }
}

/// The order in which two fields are selected makes no difference to the
/// request, and so none to the order in which they are taken.
pub proof fn lemma_selection_order(
    modes: Seq<LockModeKind>,
    first: int,
    first_mode: LockModeKind,
    second: int,
    second_mode: LockModeKind,
)
    requires
        0 <= first < modes.len(),
        0 <= second < modes.len(),
        first != second,
    ensures
        modes.update(first, first_mode).update(second, second_mode) == modes.update(
            second,
            second_mode,
        ).update(first, first_mode),
{
    assert(modes.update(first, first_mode).update(second, second_mode) =~= modes.update(
        second,
        second_mode,
    ).update(first, first_mode));
}

/// The modes of a request that selects `mode` for every field behind a lock.
pub open spec fn uniform_modes<T>(record: RecordLock<T>, mode: LockModeKind) -> Seq<LockModeKind> {
    Seq::new(
        record@.len(),
        |i: int|
            if record.lockable(i) {
                mode
            } else {
                LockModeKind::Unlocked
            },
    )
}

/// The modes of a request in which every field behind a lock that was left
/// unselected is read, and every selection made is kept.
pub open spec fn rest_read_modes<T>(record: RecordLock<T>, modes: Seq<LockModeKind>) -> Seq<
    LockModeKind,
> {
    Seq::new(
        modes.len(),
        |i: int|
            if record.lockable(i) {
                modes[i].default_read()
            } else {
                modes[i]
            },
    )
}

/// The guards are what taking the fields before `upto` without waiting gave,
/// field by field: on a field behind a lock the answer of that lock to the
/// attempt in the requested mode, on a self-synchronized field a guard that
/// holds nothing.
pub open spec fn taken<'a, T>(
    record: RecordLock<T>,
    modes: Seq<LockModeKind>,
    guards: Seq<SlotGuard<'a, T>>,
    upto: int,
) -> bool {
    forall|i: int|
        0 <= i < upto ==> if record.lockable(i) {
            SlotGuard::attempt_on(&record.lock_at(i), modes[i], Some(#[trigger] guards[i]))
        } else {
            guards[i] == SlotGuard::<'a, T>::Unlocked
        }
}

/// The lock of `field` refused the attempt in the requested mode.
pub open spec fn refused<T>(record: RecordLock<T>, modes: Seq<LockModeKind>, field: int) -> bool {
    &&& 0 <= field < modes.len()
    &&& record.lockable(field)
    &&& SlotGuard::<T>::attempt_on(&record.lock_at(field), modes[field], None)
}

/// The attempt to take every field without waiting ended at a field whose
/// lock refused, after every field before it had been taken. This says how
/// the attempt ended, not what is held afterwards: that the fields taken
/// are free again is no part of it.
pub open spec fn rolled_back<T>(record: RecordLock<T>, modes: Seq<LockModeKind>) -> bool {
    exists|field: int, guards: Seq<SlotGuard<'_, T>>|
        #[trigger] taken(record, modes, guards, field) && refused(record, modes, field)
}

/// Every field of the request is left `Unlocked`.
pub open spec fn selects_nothing(modes: Seq<LockModeKind>) -> bool {
    forall|i: int| 0 <= i < modes.len() ==> #[trigger] modes[i] == LockModeKind::Unlocked
}

impl<'a, T> LockRequest<'a, T> {
    /// A request against `lock` that selects `mode` for every field behind a
    /// lock.
    pub fn all(lock: &'a RecordLock<T>, mode: LockModeKind) -> (request: Self)
        ensures
            request.record() == *lock,
            request.modes() == uniform_modes(*lock, mode),
    {
        let n = lock.len();
        let mut modes: Vec<LockModeKind> = Vec::new();
        while modes.len() < n
            invariant
                n == lock@.len(),
                modes@.len() <= n,
                forall|i: int|
                    0 <= i < modes@.len() ==> #[trigger] modes@[i] == uniform_modes(*lock, mode)[i],
            decreases n - modes@.len(),
        {
            if lock.is_lockable(modes.len()) {
                modes.push(mode);
            } else {
                modes.push(LockModeKind::Unlocked);
            }
        }
        assert(modes@ =~= uniform_modes(*lock, mode));
        LockRequest { lock, modes }
    }

    /// Turns every field behind a lock that was left unselected into a read,
    /// and keeps every selection made.
    pub fn rest_read(self) -> (request: Self)
        ensures
            request.record() == self.record(),
            request.modes() == rest_read_modes(self.record(), self.modes()),
    {
        proof {
            use_type_invariant(&self);
        }
        let LockRequest { lock, mut modes } = self;
        let ghost before = modes@;
        let n = modes.len();
        let mut field: usize = 0;
        while field < n
            invariant
                n == before.len(),
                modes@.len() == n,
                field <= n,
                requestable(*lock, before),
                forall|i: int|
                    0 <= i < field ==> #[trigger] modes@[i] == rest_read_modes(*lock, before)[i],
                forall|i: int| field <= i < n ==> #[trigger] modes@[i] == before[i],
            decreases n - field,
        {
            if lock.is_lockable(field) {
                let mode = modes[field].or_read();
                modes.set(field, mode);
            }
            field += 1;
        }
        assert(modes@ =~= rest_read_modes(*lock, before));
        LockRequest { lock, modes }
    }

    /// Starts carrying out the request: nothing is taken yet, and the fields
    /// will be taken in declaration order, whatever the order they were
    /// selected in.
    pub fn lock(self) -> (acquisition: Acquisition<'a, T>)
        ensures
            acquisition.record() == self.record(),
            acquisition.modes() == self.modes(),
            acquisition.guards() == Seq::<SlotGuard<'a, T>>::empty(),
            acquisition.in_order(),
    {
        proof {
            use_type_invariant(&self);
        }
        let LockRequest { lock, modes } = self;
        Acquisition { lock, modes, guards: Vec::new() }
    }

    /// As `lock`, after every field left unselected is turned into a read.
    pub fn lock_rest_read(self) -> (acquisition: Acquisition<'a, T>)
        ensures
            acquisition.record() == self.record(),
            acquisition.modes() == rest_read_modes(self.record(), self.modes()),
            acquisition.guards() == Seq::<SlotGuard<'a, T>>::empty(),
            acquisition.in_order(),
    {
        self.rest_read().lock()
    }

    /// Takes every selected field without waiting, in declaration order. If a
    /// field is refused, every field taken before it is released and `None`
    /// is returned. A request that selects nothing always succeeds.
    ///
    /// The contract says which lock refused and that the fields before it had
    /// been taken. The release is no part of the contract: it follows from
    /// ownership, since the guards taken are dropped with the acquisition,
    /// and who holds a lock has no place in a contract.
    pub fn try_lock(self) -> (outcome: Option<RecordGuard<'a, T>>)
        ensures
            selects_nothing(self.modes()) ==> outcome is Some,
            outcome matches Some(guard) ==> {
                &&& guard.record() == self.record()
                &&& guard.modes() == self.modes()
                &&& taken(self.record(), self.modes(), guard.guards(), self.modes().len() as int)
            },
            outcome is None ==> rolled_back(self.record(), self.modes()),
    {
        let mut acquisition = self.lock();
        while !acquisition.is_complete()
            invariant
                acquisition.record() == self.record(),
                acquisition.modes() == self.modes(),
                acquisition.in_order(),
                taken(
                    self.record(),
                    self.modes(),
                    acquisition.guards(),
                    acquisition.cursor() as int,
                ),
            decreases acquisition.modes().len() - acquisition.cursor(),
        {
            let ghost before = acquisition.guards();
            let attempt = acquisition.try_next();
            match acquisition.advance(attempt) {
                Some(next) => {
                    acquisition = next;
                },
                None => {
                    assert(taken(self.record(), self.modes(), before, before.len() as int));
                    assert(refused(self.record(), self.modes(), before.len() as int));
                    return None;
                },
            }
        }
        Some(acquisition.finish())
    }

    /// As `try_lock`, after every field left unselected is turned into a
    /// read. As there, the release after a refusal follows from ownership and
    /// is no part of the contract.
    pub fn try_lock_rest_read(self) -> (outcome: Option<RecordGuard<'a, T>>)
        ensures
            outcome matches Some(guard) ==> {
                &&& guard.record() == self.record()
                &&& guard.modes() == rest_read_modes(self.record(), self.modes())
                &&& taken(
                    self.record(),
                    rest_read_modes(self.record(), self.modes()),
                    guard.guards(),
                    self.modes().len() as int,
                )
            },
            outcome is None ==> rolled_back(
                self.record(),
                rest_read_modes(self.record(), self.modes()),
            ),
            selects_nothing(rest_read_modes(self.record(), self.modes())) ==> outcome is Some,
    {
        self.rest_read().try_lock()
    }
}

/// A request that is being carried out: the fields before the cursor have
/// been taken, in declaration order, and the field at the cursor comes next.
/// Dropping it releases every field taken so far.
#[verifier::reject_recursive_types(T)]
pub struct Acquisition<'a, T> {
    lock: &'a RecordLock<T>,
    modes: Vec<LockModeKind>,
    guards: Vec<SlotGuard<'a, T>>,
}

impl<'a, T> Acquisition<'a, T> {
    #[verifier::type_invariant]
    spec fn well_formed(self) -> bool {
        &&& requestable(*self.lock, self.modes@)
        &&& self.guards@.len() <= self.modes@.len()
        &&& forall|i: int|
            0 <= i < self.guards@.len() ==> (#[trigger] self.guards@[i]).mode() == self.modes@[i]
    }

    /// The record lock whose fields are being taken.
    pub closed spec fn record(self) -> RecordLock<T> {
        *self.lock
    }

    /// The requested mode of each field, in declaration order.
    pub closed spec fn modes(self) -> Seq<LockModeKind> {
        self.modes@
    }

    /// The guards taken so far: those of the fields before the cursor.
    pub closed spec fn guards(self) -> Seq<SlotGuard<'a, T>> {
        self.guards@
    }

    /// The field that is taken next; the number of fields when all are taken.
    pub open spec fn cursor(self) -> nat {
        self.guards().len()
    }

    /// Every field has been taken.
    pub open spec fn complete(self) -> bool {
        self.cursor() == self.modes().len()
    }

    /// What holds of every acquisition: the requested modes fit the record,
    /// the cursor is within the record, and each field before the cursor is
    /// held in the mode that was requested for it.
    pub open spec fn in_order(self) -> bool {
        &&& requestable(self.record(), self.modes())
        &&& self.cursor() <= self.modes().len()
        &&& forall|i: int|
            0 <= i < self.cursor() ==> (#[trigger] self.guards()[i]).mode() == self.modes()[i]
    }

    /// How far the acquisition has come, as the others see it.
    pub open spec fn progress(self) -> Progress {
        Progress { modes: self.modes(), cursor: self.cursor() }
    }

    /// Whether every field has been taken.
    pub fn is_complete(&self) -> (r: bool)
        ensures
            r == self.complete(),
            self.in_order(),
    {
        proof {
            use_type_invariant(self);
        }
        self.guards.len() == self.modes.len()
    }

    /// The field that is taken next.
    pub fn next_field(&self) -> (field: usize)
        ensures
            field == self.cursor(),
    {
        self.guards.len()
    }

    /// The mode that was requested for the field that is taken next.
    pub fn next_mode(&self) -> (mode: LockModeKind)
        requires
            !self.complete(),
        ensures
            mode == self.modes()[self.cursor() as int],
    {
        proof {
            use_type_invariant(self);
        }
        self.modes[self.guards.len()]
    }

    /// Starts taking the next field in its requested mode: the future to
    /// await, or nothing to await where the field was not selected.
    pub fn next(&self) -> (pending: Pending<'a, T>)
        requires
            !self.complete(),
        ensures
            pending.mode() == self.modes()[self.cursor() as int],
            self.record().lockable(self.cursor() as int) ==> pending.waits_on(
                &self.record().lock_at(self.cursor() as int),
            ),
    {
        proof {
            use_type_invariant(self);
        }
        let field = self.guards.len();
        match self.lock.slot(field) {
            Slot::Locked(lock) => SlotGuard::acquire(lock, self.modes[field]),
            Slot::Bare(_) => Pending::Ready,
        }
    }

    /// Takes the next field in its requested mode if its lock grants that at
    /// once, without waiting. A field that was not selected is always
    /// granted.
    pub fn try_next(&self) -> (attempt: Option<SlotGuard<'a, T>>)
        requires
            !self.complete(),
        ensures
            self.modes()[self.cursor() as int] == LockModeKind::Unlocked ==> attempt is Some,
            attempt matches Some(guard) ==> guard.mode() == self.modes()[self.cursor() as int],
            self.record().lockable(self.cursor() as int) ==> SlotGuard::attempt_on(
                &self.record().lock_at(self.cursor() as int),
                self.modes()[self.cursor() as int],
                attempt,
            ),
            !self.record().lockable(self.cursor() as int) ==> attempt == Some(
                SlotGuard::<'a, T>::Unlocked,
            ),
    {
        proof {
            use_type_invariant(self);
        }
        let field = self.guards.len();
        match self.lock.slot(field) {
            Slot::Locked(lock) => SlotGuard::try_acquire(lock, self.modes[field]),
            Slot::Bare(_) => Some(SlotGuard::Unlocked),
        }
    }

    /// Records that the next field was granted, and moves the cursor on.
    pub fn grant(self, guard: SlotGuard<'a, T>) -> (acquisition: Self)
        requires
            !self.complete(),
            guard.mode() == self.modes()[self.cursor() as int],
        ensures
            acquisition.record() == self.record(),
            acquisition.modes() == self.modes(),
            acquisition.guards() == self.guards().push(guard),
            acquisition.in_order(),
    {
        proof {
            use_type_invariant(&self);
        }
        let Acquisition { lock, modes, mut guards } = self;
        guards.push(guard);
        Acquisition { lock, modes, guards }
    }

    /// Takes the outcome of an attempt on the next field: a granted field
    /// moves the cursor on; a refused field ends the acquisition, and every
    /// field taken so far is released before this returns.
    ///
    /// The contract says when the acquisition goes on and with which guards.
    /// The release is no part of the contract: it follows from ownership,
    /// since this takes the acquisition by value and hands back no guard of
    /// it.
    pub fn advance(self, attempt: Option<SlotGuard<'a, T>>) -> (outcome: Option<Self>)
        requires
            !self.complete(),
            attempt matches Some(guard) ==> guard.mode() == self.modes()[self.cursor() as int],
        ensures
            outcome is Some <==> attempt is Some,
            outcome matches Some(acquisition) ==> {
                &&& acquisition.record() == self.record()
                &&& acquisition.modes() == self.modes()
                &&& acquisition.guards() == self.guards().push(attempt->Some_0)
                &&& acquisition.in_order()
            },
    {
        match attempt {
            Some(guard) => Some(self.grant(guard)),
            None => {
                self.release();
                None
            },
        }
    }

    /// Gives up the acquisition: releases every field taken so far, the last
    /// taken first.
    fn release(self) {
        let Acquisition { lock: _, modes: _, mut guards } = self;
        while guards.len() > 0
            decreases guards@.len(),
        {
            let _ = guards.pop();
        }
    }

    /// The guard over all fields, once every field has been taken.
    pub fn finish(self) -> (guard: RecordGuard<'a, T>)
        requires
            self.complete(),
        ensures
            guard.record() == self.record(),
            guard.guards() == self.guards(),
            guard.modes() == self.modes(),
    {
        proof {
            use_type_invariant(&self);
        }
        let Acquisition { lock, modes: _, guards } = self;
        let guard = RecordGuard::from_parts(lock, guards);
        assert(guard.modes() =~= self.modes());
        guard
    }
}

} // verus!
