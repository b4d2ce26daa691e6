//! The four lock modes and what each of them grants.

use smart_lock::{
    DefaultRead, LockMode, LockModeKind, ReadLocked, Unlocked, UpgradeLocked, WriteLocked,
};

const ALL: [LockModeKind; 4] =
    [LockModeKind::Unlocked, LockModeKind::Read, LockModeKind::Write, LockModeKind::Upgrade];

#[test]
fn unlocked_grants_nothing() {
    assert!(!LockModeKind::Unlocked.is_readable());
    assert!(!LockModeKind::Unlocked.is_writable());
    assert!(!LockModeKind::Unlocked.is_upgradable());
    assert!(!LockModeKind::Unlocked.is_downgradable());
}

#[test]
fn read_write_and_upgrade_are_readable() {
    assert!(LockModeKind::Read.is_readable());
    assert!(LockModeKind::Write.is_readable());
    assert!(LockModeKind::Upgrade.is_readable());
}

#[test]
fn only_write_is_writable() {
    assert!(!LockModeKind::Read.is_writable());
    assert!(LockModeKind::Write.is_writable());
    assert!(!LockModeKind::Upgrade.is_writable());
}

#[test]
fn only_upgrade_can_be_promoted() {
    assert!(!LockModeKind::Read.is_upgradable());
    assert!(!LockModeKind::Write.is_upgradable());
    assert!(LockModeKind::Upgrade.is_upgradable());
}

#[test]
fn write_and_upgrade_can_be_demoted_and_read_cannot() {
    assert!(!LockModeKind::Read.is_downgradable());
    assert!(LockModeKind::Write.is_downgradable());
    assert!(LockModeKind::Upgrade.is_downgradable());
}

#[test]
fn rest_read_turns_unlocked_into_read_and_keeps_the_others() {
    assert_eq!(LockModeKind::Unlocked.or_read(), LockModeKind::Read);
    assert_eq!(LockModeKind::Read.or_read(), LockModeKind::Read);
    assert_eq!(LockModeKind::Write.or_read(), LockModeKind::Write);
    assert_eq!(LockModeKind::Upgrade.or_read(), LockModeKind::Upgrade);
}

#[test]
fn exclusion_table() {
    let (free, read, write, upgrade) = (ALL[0], ALL[1], ALL[2], ALL[3]);
    assert!(write.is_exclusive_with(write));
    assert!(write.is_exclusive_with(read));
    assert!(read.is_exclusive_with(write));
    assert!(write.is_exclusive_with(upgrade));
    assert!(upgrade.is_exclusive_with(write));
    assert!(upgrade.is_exclusive_with(upgrade));
    assert!(!read.is_exclusive_with(read));
    assert!(!read.is_exclusive_with(upgrade));
    assert!(!upgrade.is_exclusive_with(read));
    for mode in ALL {
        assert!(!free.is_exclusive_with(mode));
        assert!(!mode.is_exclusive_with(free));
    }
}

#[test]
fn exclusion_is_symmetric() {
    for a in ALL {
        for b in ALL {
            assert_eq!(a.is_exclusive_with(b), b.is_exclusive_with(a));
        }
    }
}

#[test]
fn markers_carry_their_mode() {
    assert_eq!(<Unlocked as LockMode>::MODE, LockModeKind::Unlocked);
    assert_eq!(<ReadLocked as LockMode>::MODE, LockModeKind::Read);
    assert_eq!(<WriteLocked as LockMode>::MODE, LockModeKind::Write);
    assert_eq!(<UpgradeLocked as LockMode>::MODE, LockModeKind::Upgrade);
}

fn rest_read_of<M: DefaultRead>() -> LockModeKind {
    <M::Output as LockMode>::MODE
}

#[test]
fn default_read_of_each_marker() {
    assert_eq!(rest_read_of::<Unlocked>(), LockModeKind::Read);
    assert_eq!(rest_read_of::<ReadLocked>(), LockModeKind::Read);
    assert_eq!(rest_read_of::<WriteLocked>(), LockModeKind::Write);
    assert_eq!(rest_read_of::<UpgradeLocked>(), LockModeKind::Upgrade);
    assert_eq!(rest_read_of::<Unlocked>(), <Unlocked as LockMode>::MODE.or_read());
}
