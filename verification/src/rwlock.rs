//! The reader-writer primitive that guards each field: `async_lock::RwLock`,
//! its three guards and the futures that wait for them.
//!
//! Nothing in this module is proved; each item says what is taken on trust.
//! The state of a lock is shared with every other holder, so no contract here
//! says whether an attempt succeeds; and the value behind a lock can change
//! whenever a writer holds it, so no contract here says what that value is.
//! What is said of values is what holds while one holder keeps the lock: a
//! write guard shows what was written through it, and a guard that comes of
//! another without a release shows what that one showed.
//! What the library's own contracts say of a guard, a future or a value is
//! which of these calls it is the result of, and on what.

use async_lock::futures::{Read, UpgradableRead, Upgrade, Write};
use async_lock::{RwLock, RwLockReadGuard, RwLockUpgradableReadGuard, RwLockWriteGuard};
use vstd::prelude::*;

verus! {

/// `async_lock::RwLock`: a value behind an async reader-writer lock. Opaque.
#[verifier::external_type_specification]
#[verifier::external_body]
#[verifier::reject_recursive_types(T)]
pub struct ExRwLock<T: ?Sized>(RwLock<T>);

/// `async_lock::RwLockReadGuard`: a shared read lock, released when dropped.
/// Opaque.
#[verifier::external_type_specification]
#[verifier::external_body]
#[verifier::reject_recursive_types(T)]
pub struct ExRwLockReadGuard<'a, T: ?Sized>(RwLockReadGuard<'a, T>);

/// `async_lock::RwLockWriteGuard`: the exclusive write lock, released when
/// dropped. Opaque.
#[verifier::external_type_specification]
#[verifier::external_body]
#[verifier::reject_recursive_types(T)]
pub struct ExRwLockWriteGuard<'a, T: ?Sized>(RwLockWriteGuard<'a, T>);

/// `async_lock::RwLockUpgradableReadGuard`: the one upgradable read lock,
/// released when dropped. Opaque.
#[verifier::external_type_specification]
#[verifier::external_body]
#[verifier::reject_recursive_types(T)]
pub struct ExRwLockUpgradableReadGuard<'a, T: ?Sized>(RwLockUpgradableReadGuard<'a, T>);

/// `async_lock::futures::Read`: the future of `RwLock::read`. Opaque.
#[verifier::external_type_specification]
#[verifier::external_body]
#[verifier::reject_recursive_types(T)]
pub struct ExRead<'a, T: ?Sized>(Read<'a, T>);

/// `async_lock::futures::Write`: the future of `RwLock::write`. Opaque.
#[verifier::external_type_specification]
#[verifier::external_body]
#[verifier::reject_recursive_types(T)]
pub struct ExWrite<'a, T: ?Sized>(Write<'a, T>);

/// `async_lock::futures::UpgradableRead`: the future of
/// `RwLock::upgradable_read`. Opaque.
#[verifier::external_type_specification]
#[verifier::external_body]
#[verifier::reject_recursive_types(T)]
pub struct ExUpgradableRead<'a, T: ?Sized>(UpgradableRead<'a, T>);

/// `async_lock::futures::Upgrade`: the future of
/// `RwLockUpgradableReadGuard::upgrade`. Opaque.
#[verifier::external_type_specification]
#[verifier::external_body]
#[verifier::reject_recursive_types(T)]
pub struct ExUpgrade<'a, T: ?Sized>(Upgrade<'a, T>);

/// `RwLock::new` wraps a value in a lock that nobody holds. It is callable
/// with every value; nothing is claimed of the lock.
pub assume_specification<T>[ RwLock::<T>::new ](t: T) -> (lock: RwLock<T>);

/// `RwLock::into_inner` unwraps the lock. It is callable on every lock;
/// nothing is claimed of the value, which is the one last written.
pub assume_specification<T>[ RwLock::<T>::into_inner ](lock: RwLock<T>) -> (t: T);

/// `RwLock::get_mut` gives the value behind a lock that is borrowed
/// exclusively, without locking. Nothing is claimed of the value.
pub assume_specification<T: ?Sized>[ RwLock::<T>::get_mut ](lock: &mut RwLock<T>) -> (t: &mut T);

/// `RwLock::try_read` returns a read guard, or `None` while a writer holds or
/// awaits the lock; it never waits. It is callable on every lock; which of
/// the two comes back is left open.
pub assume_specification<T: ?Sized>[ RwLock::<T>::try_read ](lock: &RwLock<T>) -> (guard: Option<
    RwLockReadGuard<'_, T>,
>);

/// `RwLock::try_write` returns the write guard, or `None` while anyone holds
/// the lock; it never waits. It is callable on every lock; which of the two
/// comes back is left open.
pub assume_specification<T: ?Sized>[ RwLock::<T>::try_write ](lock: &RwLock<T>) -> (guard: Option<
    RwLockWriteGuard<'_, T>,
>);

/// `RwLock::try_upgradable_read` returns the upgradable read guard, or `None`
/// while a writer or another upgradable reader holds the lock; it never
/// waits. It is callable on every lock; which of the two comes back is left
/// open.
pub assume_specification<T: ?Sized>[ RwLock::<T>::try_upgradable_read ](lock: &RwLock<T>) -> (guard:
    Option<RwLockUpgradableReadGuard<'_, T>>);

/// `RwLock::read` makes the future that resolves to a read guard. Making it
/// takes nothing; nothing is claimed of the future.
pub assume_specification<T: ?Sized>[ RwLock::<T>::read ](lock: &RwLock<T>) -> (pending: Read<
    '_,
    T,
>);

/// `RwLock::write` makes the future that resolves to the write guard. Making
/// it takes nothing; nothing is claimed of the future.
pub assume_specification<T: ?Sized>[ RwLock::<T>::write ](lock: &RwLock<T>) -> (pending: Write<
    '_,
    T,
>);

/// `RwLock::upgradable_read` makes the future that resolves to the upgradable
/// read guard. Making it takes nothing; nothing is claimed of the future.
pub assume_specification<T: ?Sized>[ RwLock::<T>::upgradable_read ](lock: &RwLock<T>) -> (pending:
    UpgradableRead<'_, T>);

/// `RwLockWriteGuard::downgrade` turns the write guard into a read guard
/// without releasing the lock in between; it never waits. Nothing is claimed
/// of the read guard.
pub assume_specification<'a, T: ?Sized>[ RwLockWriteGuard::<'a, T>::downgrade ](
    guard: RwLockWriteGuard<'a, T>,
) -> (reader: RwLockReadGuard<'a, T>);

/// `RwLockUpgradableReadGuard::downgrade` turns the upgradable read guard
/// into a read guard without releasing the lock in between; it never waits.
/// Nothing is claimed of the read guard.
pub assume_specification<'a, T: ?Sized>[ RwLockUpgradableReadGuard::<'a, T>::downgrade ](
    guard: RwLockUpgradableReadGuard<'a, T>,
) -> (reader: RwLockReadGuard<'a, T>);

/// `RwLockUpgradableReadGuard::try_upgrade` turns the upgradable read guard
/// into the write guard if there is no other reader, and never waits. Where
/// it fails, it hands back the guard it was given: that is the one claim.
pub assume_specification<'a, T: ?Sized>[ RwLockUpgradableReadGuard::<'a, T>::try_upgrade ](
    guard: RwLockUpgradableReadGuard<'a, T>,
) -> (outcome: Result<RwLockWriteGuard<'a, T>, RwLockUpgradableReadGuard<'a, T>>)
    ensures
        outcome matches Err(kept) ==> kept == guard,
;

/// `RwLockUpgradableReadGuard::upgrade` makes the future that resolves to
/// the write guard once the other readers have left. Nothing is claimed of
/// the future.
pub assume_specification<'a, T: ?Sized>[ RwLockUpgradableReadGuard::<'a, T>::upgrade ](
    guard: RwLockUpgradableReadGuard<'a, T>,
) -> (pending: Upgrade<'a, T>);

/// Whatever a guard showed that `reader` came of by a `downgrade`, it is
/// `value`.
pub(crate) open spec fn kept_by_downgrade<'a, T>(reader: RwLockReadGuard<'a, T>, value: T) -> bool {
    &&& forall|held: RwLockWriteGuard<'a, T>, shown: T|
        #![trigger
            call_ensures(RwLockWriteGuard::<'a, T>::downgrade, (held,), reader),
            call_ensures(write_guard_value::<T>, (&held,), &shown),
        ]
        call_ensures(RwLockWriteGuard::<'a, T>::downgrade, (held,), reader) && call_ensures(
            write_guard_value::<T>,
            (&held,),
            &shown,
        ) ==> shown == value
    &&& forall|held: RwLockUpgradableReadGuard<'a, T>, shown: T|
        #![trigger
            call_ensures(RwLockUpgradableReadGuard::<'a, T>::downgrade, (held,), reader),
            call_ensures(upgradable_guard_value::<T>, (&held,), &shown),
        ]
        call_ensures(RwLockUpgradableReadGuard::<'a, T>::downgrade, (held,), reader)
            && call_ensures(upgradable_guard_value::<T>, (&held,), &shown) ==> shown == value
}

/// Whatever an upgradable read guard showed that `writer` came of by a
/// successful `try_upgrade`, it is `value`.
pub(crate) open spec fn kept_by_upgrade<'a, T>(writer: RwLockWriteGuard<'a, T>, value: T) -> bool {
    forall|held: RwLockUpgradableReadGuard<'a, T>, shown: T|
        #![trigger
            call_ensures(
                RwLockUpgradableReadGuard::<'a, T>::try_upgrade,
                (held,),
                Ok::<RwLockWriteGuard<'a, T>, RwLockUpgradableReadGuard<'a, T>>(writer),
            ),
            call_ensures(upgradable_guard_value::<T>, (&held,), &shown),
        ]
        call_ensures(
            RwLockUpgradableReadGuard::<'a, T>::try_upgrade,
            (held,),
            Ok::<RwLockWriteGuard<'a, T>, RwLockUpgradableReadGuard<'a, T>>(writer),
        ) && call_ensures(upgradable_guard_value::<T>, (&held,), &shown) ==> shown == value
}

/// Whatever reading `writer` gives, it is `value`.
pub(crate) open spec fn only_value<'a, T>(writer: RwLockWriteGuard<'a, T>, value: T) -> bool {
    forall|other: T| #[trigger]
        call_ensures(write_guard_value::<T>, (&writer,), &other) ==> other == value
}

/// `Deref` of `RwLockReadGuard`: the value behind a read guard. What the
/// value is is not claimed. Claimed is that a read guard that came of a
/// `downgrade` shows what the guard it came of showed: `downgrade` of a write
/// guard or of an upgradable read guard hands the pointer to the value on
/// without releasing the lock, so that no writer comes in between.
#[verifier::external_body]
pub(crate) fn read_guard_value<'g, 'a, T>(guard: &'g RwLockReadGuard<'a, T>) -> (value: &'g T)
    ensures
        kept_by_downgrade(*guard, *value),
{
    &**guard
}

/// `Deref` of `RwLockUpgradableReadGuard`: the value behind an upgradable
/// read guard. Nothing is claimed of the value.
#[verifier::external_body]
pub(crate) fn upgradable_guard_value<'g, 'a, T>(
    guard: &'g RwLockUpgradableReadGuard<'a, T>,
) -> (value: &'g T) {
    &**guard
}

/// `Deref` of `RwLockWriteGuard`: the value behind a write guard. What the
/// value is is not claimed. Claimed is that a write guard that came of a
/// successful `try_upgrade` shows what the upgradable read guard showed:
/// `try_upgrade` hands the pointer to the value on without releasing the
/// lock, so that no writer comes in between.
#[verifier::external_body]
pub(crate) fn write_guard_value<'g, 'a, T>(guard: &'g RwLockWriteGuard<'a, T>) -> (value: &'g T)
    ensures
        kept_by_upgrade(*guard, *value),
{
    &**guard
}

/// `DerefMut` of `RwLockWriteGuard`: exclusive access to the value behind a
/// write guard. `Deref` and `DerefMut` of the guard follow the same pointer,
/// to the value behind the lock, and nobody else holds the lock. That is
/// what is claimed: the reference starts at the one value that reading the
/// guard gives, and what it ends at is the one value that reading the guard
/// gives afterwards. The call cannot unwind: it only follows the pointer.
#[verifier::external_body]
pub(crate) fn write_guard_value_mut<'g, 'a, T>(guard: &'g mut RwLockWriteGuard<'a, T>) -> (value:
    &'g mut T)
    ensures
        call_ensures(write_guard_value::<T>, (&*old(guard),), &*value),
        call_ensures(write_guard_value::<T>, (&*final(guard),), &*final(value)),
        only_value(*old(guard), *value),
        only_value(*final(guard), *final(value)),
    no_unwind
{
    &mut **guard
}

} // verus!
