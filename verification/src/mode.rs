//! Lock modes: the four access levels at which a field can be held, the
//! capabilities each level grants, and the marker types that carry a level in a
//! guard's type.

use vstd::prelude::*;

verus! {

/// The access level at which a field is requested or held.
#[derive(Debug, Clone, Copy, PartialEq, Eq, Structural)]
pub enum LockModeKind {
    /// No lock acquired: no access.
    Unlocked,
    /// Shared read lock.
    Read,
    /// Exclusive write lock: read and write.
    Write,
    /// Upgradable read lock: shared read, with the sole right to be promoted
    /// to `Write`.
    Upgrade,
}

impl LockModeKind {
    /// The field may be read in this mode.
    pub open spec fn readable(self) -> bool {
        self != LockModeKind::Unlocked
    }

    /// The field may be mutated in this mode.
    pub open spec fn writable(self) -> bool {
        self == LockModeKind::Write
    }

    /// The mode can be promoted to `Write` without releasing the field.
    pub open spec fn upgradable(self) -> bool {
        self == LockModeKind::Upgrade
    }

    /// The mode can be demoted to `Read` without releasing the field.
    pub open spec fn downgradable(self) -> bool {
        self == LockModeKind::Write || self == LockModeKind::Upgrade
    }

    /// A field held in this mode can pass to `next` without being released
    /// in between: `Upgrade` to `Write` by an upgrade, `Write` or `Upgrade`
    /// to `Read` by a downgrade. Every other change of mode goes through a
    /// release.
    pub open spec fn transitions_to(self, next: LockModeKind) -> bool {
        ||| self.upgradable() && next == LockModeKind::Write
        ||| self.downgradable() && next == LockModeKind::Read
    }

    /// The mode a field is acquired in when every field left unselected is to
    /// be read: `Unlocked` becomes `Read`, an explicit selection is kept.
    pub open spec fn default_read(self) -> LockModeKind {
        if self == LockModeKind::Unlocked {
            LockModeKind::Read
        } else {
            self
        }
    }

    /// Two holders with these modes cannot hold the same field at once: a
    /// writer excludes every other holder, and there is one upgrade slot.
    pub open spec fn excludes(self, other: LockModeKind) -> bool {
        ||| self == LockModeKind::Write && other != LockModeKind::Unlocked
        ||| other == LockModeKind::Write && self != LockModeKind::Unlocked
        ||| self == LockModeKind::Upgrade && other == LockModeKind::Upgrade
    }

    /// Whether the field may be read in this mode.
    pub fn is_readable(self) -> (r: bool)
        ensures
            r == self.readable(),
    {
        match self {
            LockModeKind::Unlocked => false,
            _ => true,
        }
    }

    /// Whether the field may be mutated in this mode.
    pub fn is_writable(self) -> (r: bool)
        ensures
            r == self.writable(),
    {
        match self {
            LockModeKind::Write => true,
            _ => false,
        }
    }

    /// Whether the mode can be promoted to `Write`.
    pub fn is_upgradable(self) -> (r: bool)
        ensures
            r == self.upgradable(),
    {
        match self {
            LockModeKind::Upgrade => true,
            _ => false,
        }
    }

    /// Whether the mode can be demoted to `Read`.
    pub fn is_downgradable(self) -> (r: bool)
        ensures
            r == self.downgradable(),
    {
        match self {
            LockModeKind::Write | LockModeKind::Upgrade => true,
            _ => false,
        }
    }

    /// Whether two holders with these modes cannot hold the same field at
    /// once.
    pub fn is_exclusive_with(self, other: LockModeKind) -> (r: bool)
        ensures
            r == self.excludes(other),
    {
        match (self, other) {
            (LockModeKind::Unlocked, _) | (_, LockModeKind::Unlocked) => false,
            (LockModeKind::Write, _) | (_, LockModeKind::Write) => true,
            (LockModeKind::Upgrade, LockModeKind::Upgrade) => true,
            _ => false,
        }
    }

    /// The mode this one stands for when every unselected field is read.
    pub fn or_read(self) -> (r: LockModeKind)
        ensures
            r == self.default_read(),
    {
        match self {
            LockModeKind::Unlocked => LockModeKind::Read,
            other => other,
        }
    }
}

/// Marker: field was not requested. No access available.
pub struct Unlocked;

/// Marker: field is held for reading.
pub struct ReadLocked;

/// Marker: field is held for writing.
pub struct WriteLocked;

/// Marker: field is held for upgradable reading, and can be promoted to
/// `WriteLocked` without being released in between.
pub struct UpgradeLocked;

/// Associates a marker type with the access level it stands for.
pub trait LockMode {
    /// The access level of this marker.
    const MODE: LockModeKind;
}

impl LockMode for Unlocked {
    const MODE: LockModeKind = LockModeKind::Unlocked;
}

impl LockMode for ReadLocked {
    const MODE: LockModeKind = LockModeKind::Read;
}

impl LockMode for WriteLocked {
    const MODE: LockModeKind = LockModeKind::Write;
}

impl LockMode for UpgradeLocked {
    const MODE: LockModeKind = LockModeKind::Upgrade;
}

/// Which modes exclude each other: the relation is symmetric, `Unlocked`
/// excludes nothing, `Write` excludes every mode that holds the field, and of
/// the modes that read, only `Upgrade` excludes itself.
pub proof fn lemma_exclusion(a: LockModeKind, b: LockModeKind)
    ensures
        a.excludes(b) == b.excludes(a),
        !LockModeKind::Unlocked.excludes(a),
        a.readable() ==> LockModeKind::Write.excludes(a),
        a.readable() && b.readable() && !a.writable() && !b.writable() ==> (a.excludes(b) <==> a
            == LockModeKind::Upgrade && b == LockModeKind::Upgrade),
{
}

/// The transitions of a held field: a field that is held stays held, a field
/// that is not held has no transition, and from `Read` there is none, so that
/// a field taken for reading becomes writable only by a release.
pub proof fn lemma_transitions(from: LockModeKind, to: LockModeKind)
    ensures
        from.transitions_to(to) ==> from.readable() && to.readable() && from != to,
        !LockModeKind::Unlocked.transitions_to(to),
        !LockModeKind::Read.transitions_to(to),
        from.transitions_to(LockModeKind::Write) <==> from == LockModeKind::Upgrade,
        from.transitions_to(LockModeKind::Read) <==> from == LockModeKind::Write || from
            == LockModeKind::Upgrade,
{
}

/// The access level of each of the four markers.
pub proof fn lemma_marker_modes()
    ensures
        Unlocked::MODE == LockModeKind::Unlocked,
        ReadLocked::MODE == LockModeKind::Read,
        WriteLocked::MODE == LockModeKind::Write,
        UpgradeLocked::MODE == LockModeKind::Upgrade,
{
}

/// Markers whose access level allows reading. An implementation has to show
/// that its level does.
pub trait Readable: LockMode {
    proof fn lemma_readable()
        ensures
            Self::MODE.readable(),
    ;
}

impl Readable for ReadLocked {
    proof fn lemma_readable() {
    }
}

impl Readable for WriteLocked {
    proof fn lemma_readable() {
    }
}

impl Readable for UpgradeLocked {
    proof fn lemma_readable() {
    }
}

/// Markers whose access level allows mutation. An implementation has to show
/// that its level does.
pub trait Writable: LockMode {
    proof fn lemma_writable()
        ensures
            Self::MODE.writable(),
    ;
}

impl Writable for WriteLocked {
    proof fn lemma_writable() {
    }
}

/// Maps a marker to the marker a field gets when unselected fields are read:
/// `Unlocked` to `ReadLocked`, every other marker to itself.
pub trait DefaultRead: LockMode {
    /// The marker to use for this field.
    type Output: LockMode;

    proof fn lemma_default_read()
        ensures
            <Self::Output as LockMode>::MODE == Self::MODE.default_read(),
    ;
}

impl DefaultRead for Unlocked {
    type Output = ReadLocked;

    proof fn lemma_default_read() {
    }
}

impl DefaultRead for ReadLocked {
    type Output = ReadLocked;

    proof fn lemma_default_read() {
    }
}

impl DefaultRead for WriteLocked {
    type Output = WriteLocked;

    proof fn lemma_default_read() {
    }
}

impl DefaultRead for UpgradeLocked {
    type Output = UpgradeLocked;

    proof fn lemma_default_read() {
    }
}

} // verus!
