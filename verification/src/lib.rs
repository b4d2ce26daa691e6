//! Per-field reader-writer locking for records.
//!
//! A [`RecordLock`] owns one reader-writer slot per field, so that fields can
//! be locked independently of each other. A [`LockRequest`] selects a mode for
//! some of the fields; carrying it out takes the selected fields in declaration
//! order, whatever order they were selected in, and yields a [`RecordGuard`].
//! The mode each field is requested or held in is part of every contract, so
//! that an access the held mode does not allow is rejected when the caller is
//! verified. [`FieldGuard`] carries the mode of a single field in its type.
//!
//! Waiting is left to the caller: an operation that may have to wait hands
//! back the future of the underlying lock, to be awaited on any runtime.

pub mod acquired;
pub mod deadlock;
pub mod describe;
pub mod guard;
pub mod mode;
pub mod record;
pub mod request;
pub mod rwlock;
pub mod slot;

pub use acquired::{RecordGuard, Upgrading};
pub use async_lock::{RwLock, RwLockReadGuard, RwLockUpgradableReadGuard, RwLockWriteGuard};
pub use describe::FormatError;
pub use guard::FieldGuard;
pub use mode::{
    DefaultRead, LockMode, LockModeKind, ReadLocked, Readable, Unlocked, UpgradeLocked, Writable,
    WriteLocked,
};
pub use record::RecordLock;
pub use request::{Acquisition, LockRequest};
pub use slot::{Pending, SlotGuard};
