//! Tests that need no runtime: every wait is one call of `pollster::block_on`,
//! so that they also run under Miri.

use smart_lock::{Acquisition, LockRequest, Pending, RecordGuard, RecordLock, SlotGuard};
use std::sync::atomic::{AtomicU32, Ordering};

fn wait<'a, T>(pending: Pending<'a, T>) -> SlotGuard<'a, T> {
    match pending {
        Pending::Ready => SlotGuard::Unlocked,
        Pending::Read(future) => SlotGuard::Read(pollster::block_on(future)),
        Pending::Write(future) => SlotGuard::Write(pollster::block_on(future)),
        Pending::Upgrade(future) => SlotGuard::Upgrade(pollster::block_on(future)),
    }
}

fn run<'a, T>(mut acquisition: Acquisition<'a, T>) -> RecordGuard<'a, T> {
    while !acquisition.is_complete() {
        let guard = wait(acquisition.next());
        acquisition = acquisition.grant(guard);
    }
    acquisition.finish()
}

fn lock<'a, T>(request: LockRequest<'a, T>) -> RecordGuard<'a, T> {
    run(request.lock())
}

fn lock_rest_read<'a, T>(request: LockRequest<'a, T>) -> RecordGuard<'a, T> {
    run(request.lock_rest_read())
}

fn upgrade<'a, T>(guard: RecordGuard<'a, T>, field: usize) -> RecordGuard<'a, T> {
    let (rest, future) = guard.upgrade(field);
    rest.finish(pollster::block_on(future))
}

#[derive(Debug, Clone, PartialEq)]
enum Value {
    Counter(u32),
    Name(String),
    Data(Vec<u8>),
}

const COUNTER: usize = 0;
const NAME: usize = 1;
const DATA: usize = 2;

fn my_state(counter: u32, name: &str, data: Vec<u8>) -> Vec<Value> {
    vec![Value::Counter(counter), Value::Name(name.into()), Value::Data(data)]
}

fn my_state_lock(counter: u32, name: &str, data: Vec<u8>) -> RecordLock<Value> {
    RecordLock::new(my_state(counter, name, data))
}

fn counter(value: &Value) -> u32 {
    match value {
        Value::Counter(counter) => *counter,
        other => panic!("not a counter: {:?}", other),
    }
}

fn counter_mut(value: &mut Value) -> &mut u32 {
    match value {
        Value::Counter(counter) => counter,
        other => panic!("not a counter: {:?}", other),
    }
}

fn name(value: &Value) -> &str {
    match value {
        Value::Name(name) => name,
        other => panic!("not a name: {:?}", other),
    }
}

fn data(value: &Value) -> &[u8] {
    match value {
        Value::Data(data) => data,
        other => panic!("not data: {:?}", other),
    }
}

fn data_mut(value: &mut Value) -> &mut Vec<u8> {
    match value {
        Value::Data(data) => data,
        other => panic!("not data: {:?}", other),
    }
}

#[test]
fn miri_create_and_lock_all_fields_mut() {
    let state = my_state_lock(0, "hello", vec![1, 2, 3]);
    let mut guard = lock(state.builder().write(COUNTER).write(NAME).write(DATA));
    *counter_mut(guard.get_mut(COUNTER)) = 42;
    *guard.get_mut(NAME) = Value::Name("world".into());
    data_mut(guard.get_mut(DATA)).push(4);
    assert_eq!(counter(guard.get(COUNTER)), 42);
    assert_eq!(name(guard.get(NAME)), "world");
    assert_eq!(data(guard.get(DATA)), &[1, 2, 3, 4]);
}

#[test]
fn miri_mixed_read_and_write() {
    let state = my_state_lock(10, "test", vec![]);
    let mut guard = lock(state.builder().write(COUNTER).read(NAME));
    *counter_mut(guard.get_mut(COUNTER)) += 5;
    assert_eq!(counter(guard.get(COUNTER)), 15);
    assert_eq!(name(guard.get(NAME)), "test");
}

#[test]
fn miri_mutation_persists_across_locks() {
    let state = my_state_lock(0, "", vec![]);
    {
        let mut guard = lock(state.builder().write(COUNTER));
        *counter_mut(guard.get_mut(COUNTER)) = 100;
    }
    let guard = lock(state.builder().read(COUNTER));
    assert_eq!(counter(guard.get(COUNTER)), 100);
}

#[test]
fn miri_builder_selective_fields() {
    let state = my_state_lock(100, "selective", vec![9]);
    let guard = lock(state.builder().read(COUNTER).read(NAME));
    assert_eq!(counter(guard.get(COUNTER)), 100);
    assert_eq!(name(guard.get(NAME)), "selective");
}

#[test]
fn miri_into_inner_reconstructs_original() {
    let state = my_state_lock(42, "hello", vec![1, 2, 3]);
    let original: Vec<Value> = state.into_inner();
    assert_eq!(counter(&original[COUNTER]), 42);
    assert_eq!(name(&original[NAME]), "hello");
    assert_eq!(data(&original[DATA]), vec![1, 2, 3]);
}

#[test]
fn miri_from_impl() {
    let original = my_state(99, "from", vec![1]);
    let state: RecordLock<Value> = original.into();
    let back = state.into_inner();
    assert_eq!(counter(&back[COUNTER]), 99);
}

#[test]
fn miri_get_mut_per_field() {
    let mut state = my_state_lock(0, "hello", vec![]);
    *counter_mut(state.get_mut(COUNTER)) = 42;
    *state.get_mut(NAME) = Value::Name("mutated".into());
    data_mut(state.get_mut(DATA)).push(1);
    assert_eq!(counter(state.get_mut(COUNTER)), 42);
    assert_eq!(name(state.get_mut(NAME)), "mutated");
    assert_eq!(data(state.get_mut(DATA)), &vec![1]);
}

#[test]
fn miri_upgrade_read_to_write() {
    let state = my_state_lock(0, "", vec![]);
    let guard = lock(state.builder().upgrade(COUNTER));
    assert_eq!(counter(guard.get(COUNTER)), 0);
    let mut guard = upgrade(guard, COUNTER);
    *counter_mut(guard.get_mut(COUNTER)) = 42;
    assert_eq!(counter(guard.get(COUNTER)), 42);
}

#[test]
fn miri_downgrade_write_to_read() {
    let state = my_state_lock(0, "", vec![]);
    let mut guard = lock(state.builder().write(COUNTER));
    *counter_mut(guard.get_mut(COUNTER)) = 42;
    let guard = guard.downgrade(COUNTER);
    assert_eq!(counter(guard.get(COUNTER)), 42);
}

#[test]
fn miri_relock_drops_and_rebuilds() {
    let state = my_state_lock(0, "hello", vec![]);
    let mut guard = lock(state.builder().write(COUNTER));
    *counter_mut(guard.get_mut(COUNTER)) = 42;
    let guard = lock(guard.relock().read(COUNTER).read(NAME));
    assert_eq!(counter(guard.get(COUNTER)), 42);
    assert_eq!(name(guard.get(NAME)), "hello");
}

#[test]
fn miri_lock_all_read() {
    let state = my_state_lock(1, "all", vec![2]);
    let guard = run(state.lock_all());
    assert_eq!(counter(guard.get(COUNTER)), 1);
    assert_eq!(name(guard.get(NAME)), "all");
    assert_eq!(data(guard.get(DATA)), &[2]);
}

#[test]
fn miri_lock_all_mut() {
    let state = my_state_lock(0, "", vec![]);
    let mut guard = run(state.lock_all_mut());
    *counter_mut(guard.get_mut(COUNTER)) = 10;
    *guard.get_mut(NAME) = Value::Name("mutated".into());
    data_mut(guard.get_mut(DATA)).push(1);
    assert_eq!(counter(guard.get(COUNTER)), 10);
}

#[test]
fn miri_try_lock_succeeds_when_unlocked() {
    let state = my_state_lock(0, "", vec![]);
    let guard = state.builder().write(COUNTER).read(NAME).try_lock();
    assert!(guard.is_some());
}

#[test]
fn miri_try_lock_all_succeeds() {
    let state = my_state_lock(1, "x", vec![]);
    let guard = state.try_lock_all();
    assert!(guard.is_some());
    let guard = guard.unwrap();
    assert_eq!(counter(guard.get(COUNTER)), 1);
}

#[test]
fn miri_try_lock_all_mut_succeeds() {
    let state = my_state_lock(0, "", vec![]);
    let guard = state.try_lock_all_mut();
    assert!(guard.is_some());
    let mut guard = guard.unwrap();
    *counter_mut(guard.get_mut(COUNTER)) = 99;
    assert_eq!(counter(guard.get(COUNTER)), 99);
}

#[test]
fn miri_per_field_direct_read() {
    let state = my_state_lock(42, "direct", vec![]);
    let value = pollster::block_on(state.read(COUNTER));
    assert_eq!(counter(&value), 42);
}

#[test]
fn miri_per_field_direct_write() {
    let state = my_state_lock(0, "", vec![]);
    let mut value = pollster::block_on(state.write(COUNTER));
    *counter_mut(&mut value) = 77;
    assert_eq!(counter(&value), 77);
}

#[test]
fn miri_per_field_try_read() {
    let state = my_state_lock(5, "", vec![]);
    let value = state.try_read(COUNTER);
    assert!(value.is_some());
    assert_eq!(counter(&value.unwrap()), 5);
}

#[test]
fn miri_per_field_try_write() {
    let state = my_state_lock(0, "", vec![]);
    let mut value = state.try_write(COUNTER).unwrap();
    *counter_mut(&mut value) = 88;
    assert_eq!(counter(&value), 88);
}

#[derive(Debug, PartialEq)]
enum Generic<T> {
    Value(T),
    Count(u32),
}

const VALUE: usize = 0;
const COUNT: usize = 1;

fn generic_state_lock<T>(value: T, count: u32) -> RecordLock<Generic<T>> {
    RecordLock::new(vec![Generic::Value(value), Generic::Count(count)])
}

#[test]
fn miri_generic_struct_basic() {
    let state = generic_state_lock(vec![1, 2, 3], 0);
    let mut guard = lock(state.builder().write(VALUE).write(COUNT));
    match guard.get_mut(VALUE) {
        Generic::Value(value) => value.push(4),
        Generic::Count(_) => panic!("not the value"),
    }
    match guard.get_mut(COUNT) {
        Generic::Count(count) => *count += 1,
        Generic::Value(_) => panic!("not the count"),
    }
    assert_eq!(*guard.get(VALUE), Generic::Value(vec![1, 2, 3, 4]));
    assert_eq!(*guard.get(COUNT), Generic::Count(1));
}

#[test]
fn miri_generic_struct_into_inner() {
    let state = generic_state_lock("hello".to_string(), 42);
    let original: Vec<Generic<String>> = state.into_inner();
    assert_eq!(original[VALUE], Generic::Value("hello".to_string()));
    assert_eq!(original[COUNT], Generic::Count(42));
}

#[test]
fn lock_rest_read_smoke() {
    let state = my_state_lock(0, "rest", vec![1]);
    let mut guard = lock_rest_read(state.builder().write(COUNTER));
    *counter_mut(guard.get_mut(COUNTER)) = 42;
    assert_eq!(counter(guard.get(COUNTER)), 42);
    assert_eq!(name(guard.get(NAME)), "rest");
    assert_eq!(data(guard.get(DATA)), &[1]);
}

// --- self-synchronized fields ---

#[derive(Debug)]
enum Mixed {
    Counter(u32),
    Synced(AtomicU32),
    Name(String),
}

const SYNCED: usize = 1;
const MIXED_NAME: usize = 2;

fn with_no_lock(counter: u32, synced: AtomicU32, name: &str) -> Vec<Mixed> {
    vec![Mixed::Counter(counter), Mixed::Synced(synced), Mixed::Name(name.into())]
}

fn with_no_lock_lock(counter: u32, synced: AtomicU32, name: &str) -> RecordLock<Mixed> {
    RecordLock::with_self_synchronized(
        with_no_lock(counter, synced, name),
        &vec![false, true, false],
    )
}

fn mixed_counter(value: &Mixed) -> u32 {
    match value {
        Mixed::Counter(counter) => *counter,
        other => panic!("not a counter: {:?}", other),
    }
}

fn mixed_counter_mut(value: &mut Mixed) -> &mut u32 {
    match value {
        Mixed::Counter(counter) => counter,
        other => panic!("not a counter: {:?}", other),
    }
}

fn synced(value: &Mixed) -> &AtomicU32 {
    match value {
        Mixed::Synced(synced) => synced,
        other => panic!("not the self-synchronized field: {:?}", other),
    }
}

fn mixed_name(value: &Mixed) -> &str {
    match value {
        Mixed::Name(name) => name,
        other => panic!("not a name: {:?}", other),
    }
}

#[test]
fn no_lock_lock_all_read() {
    let state = with_no_lock_lock(1, AtomicU32::new(2), "test");
    let guard = run(state.lock_all());
    assert_eq!(mixed_counter(guard.get(COUNTER)), 1);
    assert_eq!(synced(guard.get(SYNCED)).load(Ordering::Relaxed), 2);
    assert_eq!(mixed_name(guard.get(MIXED_NAME)), "test");
}

#[test]
fn no_lock_lock_all_mut() {
    let state = with_no_lock_lock(0, AtomicU32::new(0), "");
    let mut guard = run(state.lock_all_mut());
    *mixed_counter_mut(guard.get_mut(COUNTER)) = 10;
    synced(guard.get(SYNCED)).store(20, Ordering::Relaxed);
    *guard.get_mut(MIXED_NAME) = Mixed::Name("mutated".into());
    assert_eq!(mixed_counter(guard.get(COUNTER)), 10);
    assert_eq!(synced(guard.get(SYNCED)).load(Ordering::Relaxed), 20);
}

#[test]
fn no_lock_builder_mixed() {
    let state = with_no_lock_lock(0, AtomicU32::new(0), "hello");
    let mut guard = lock(state.builder().write(COUNTER).read(MIXED_NAME));
    *mixed_counter_mut(guard.get_mut(COUNTER)) = 42;
    synced(guard.get(SYNCED)).store(99, Ordering::Relaxed);
    assert_eq!(mixed_counter(guard.get(COUNTER)), 42);
    assert_eq!(synced(guard.get(SYNCED)).load(Ordering::Relaxed), 99);
    assert_eq!(mixed_name(guard.get(MIXED_NAME)), "hello");
}

#[test]
fn no_lock_into_inner() {
    let state = with_no_lock_lock(42, AtomicU32::new(99), "inner");
    let original: Vec<Mixed> = state.into_inner();
    assert_eq!(mixed_counter(&original[COUNTER]), 42);
    assert_eq!(synced(&original[SYNCED]).load(Ordering::Relaxed), 99);
    assert_eq!(mixed_name(&original[MIXED_NAME]), "inner");
}

#[test]
fn no_lock_from_impl() {
    let original = with_no_lock(10, AtomicU32::new(20), "from");
    let state: RecordLock<Mixed> = (original, vec![false, true, false]).into();
    let back = state.into_inner();
    assert_eq!(mixed_counter(&back[COUNTER]), 10);
    assert_eq!(synced(&back[SYNCED]).load(Ordering::Relaxed), 20);
}

#[test]
fn no_lock_get_mut() {
    let mut state = with_no_lock_lock(0, AtomicU32::new(0), "");
    *mixed_counter_mut(state.get_mut(COUNTER)) = 42;
    *state.get_mut(SYNCED) = Mixed::Synced(AtomicU32::new(99));
    assert_eq!(mixed_counter(state.get_mut(COUNTER)), 42);
    assert_eq!(synced(state.get_mut(SYNCED)).load(Ordering::Relaxed), 99);
}

#[test]
fn no_lock_try_lock_all() {
    let state = with_no_lock_lock(1, AtomicU32::new(2), "try");
    let guard = state.try_lock_all();
    assert!(guard.is_some());
    let guard = guard.unwrap();
    assert_eq!(mixed_counter(guard.get(COUNTER)), 1);
    assert_eq!(synced(guard.get(SYNCED)).load(Ordering::Relaxed), 2);
}

#[test]
fn no_lock_relock() {
    let state = with_no_lock_lock(0, AtomicU32::new(0), "hello");
    let mut guard = lock(state.builder().write(COUNTER));
    *mixed_counter_mut(guard.get_mut(COUNTER)) = 42;
    synced(guard.get(SYNCED)).store(10, Ordering::Relaxed);
    let guard = lock(guard.relock().read(COUNTER).read(MIXED_NAME));
    assert_eq!(mixed_counter(guard.get(COUNTER)), 42);
    assert_eq!(synced(guard.get(SYNCED)).load(Ordering::Relaxed), 10);
}

#[test]
fn no_lock_lock_rest_read() {
    let state = with_no_lock_lock(0, AtomicU32::new(5), "rest");
    let mut guard = lock_rest_read(state.builder().write(COUNTER));
    *mixed_counter_mut(guard.get_mut(COUNTER)) = 42;
    assert_eq!(synced(guard.get(SYNCED)).load(Ordering::Relaxed), 5);
    assert_eq!(mixed_name(guard.get(MIXED_NAME)), "rest");
}

// --- try_upgrade on the guard ---

#[test]
fn guard_try_upgrade_succeeds() {
    let state = my_state_lock(0, "", vec![]);
    let guard = lock(state.builder().upgrade(COUNTER));
    let mut guard = guard.try_upgrade(COUNTER).ok().unwrap();
    *counter_mut(guard.get_mut(COUNTER)) = 42;
    assert_eq!(counter(guard.get(COUNTER)), 42);
}

#[test]
fn guard_try_upgrade_fails_returns_original() {
    let state = my_state_lock(0, "", vec![]);
    let _reader = pollster::block_on(state.read(COUNTER));
    let guard = lock(state.builder().upgrade(COUNTER));
    let guard = guard.try_upgrade(COUNTER).err().unwrap();
    assert_eq!(counter(guard.get(COUNTER)), 0); // still readable
}

// --- debug representation ---

#[test]
fn debug_impl() {
    let state = my_state_lock(42, "hello", vec![1]);
    let debug_str = state.describe().unwrap();
    assert!(debug_str.contains("RecordLock"));
}

#[test]
fn guard_debug_impl() {
    let state = my_state_lock(0, "", vec![]);
    let guard = lock(state.builder().read(COUNTER));
    let debug_str = guard.describe();
    assert!(debug_str.contains("RecordGuard"));
}
