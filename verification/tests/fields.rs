//! Records of many fields: the cost of an acquisition grows with the number
//! of fields and no faster.

use smart_lock::{Acquisition, LockModeKind, Pending, RecordGuard, RecordLock, SlotGuard};

fn wait<'a, T>(pending: Pending<'a, T>) -> SlotGuard<'a, T> {
    match pending {
        Pending::Ready => SlotGuard::Unlocked,
        Pending::Read(future) => SlotGuard::Read(pollster::block_on(future)),
        Pending::Write(future) => SlotGuard::Write(pollster::block_on(future)),
        Pending::Upgrade(future) => SlotGuard::Upgrade(pollster::block_on(future)),
    }
}

fn run<'a, T>(mut acquisition: Acquisition<'a, T>) -> RecordGuard<'a, T> {
    while !acquisition.is_complete() {
        let guard = wait(acquisition.next());
        acquisition = acquisition.grant(guard);
    }
    acquisition.finish()
}

#[test]
fn fields_10_compiles() {
    let state: RecordLock<u64> = RecordLock::new(vec![0; 10]);
    let guard = run(state.lock_all());
    assert_eq!(*guard.get(0), 0);
}

#[test]
fn fields_20_compiles() {
    let state: RecordLock<u64> = RecordLock::new(vec![0; 20]);
    let guard = run(state.lock_all());
    assert_eq!(*guard.get(0), 0);
}

#[test]
fn fields_40_compiles() {
    let state: RecordLock<u64> = RecordLock::new(vec![0; 40]);
    let guard = run(state.lock_all());
    assert_eq!(*guard.get(0), 0);
    assert_eq!(guard.len(), 40);
    assert_eq!(guard.mode_of(39), LockModeKind::Read);
}

#[test]
fn fields_40_selected_in_any_order() {
    let state: RecordLock<u64> = RecordLock::new((0..40).collect());
    let mut request = state.builder();
    for field in (0..40).rev() {
        request = if field % 2 == 0 { request.write(field) } else { request.read(field) };
    }
    let mut guard = run(request.lock());
    for field in 0..40 {
        assert_eq!(*guard.get(field), field as u64);
        let expected = if field % 2 == 0 { LockModeKind::Write } else { LockModeKind::Read };
        assert_eq!(guard.mode_of(field), expected);
    }
    *guard.get_mut(38) += 1;
    assert_eq!(*guard.get(38), 39);
}

#[test]
fn record_without_fields() {
    let state: RecordLock<u64> = RecordLock::new(vec![]);
    assert_eq!(state.len(), 0);
    let guard = state.try_lock_all_mut().unwrap();
    assert_eq!(guard.len(), 0);
    let request = guard.relock();
    assert_eq!(request.len(), 0);
    assert!(run(request.lock_rest_read()).len() == 0);
    assert!(state.into_inner().is_empty());
}
