//! The debug representation of a record lock and of its guards: the value of
//! each field that can be read at once, and a sentinel for the others.
//! Producing it never waits. Where the `Debug` impl of a value reports an
//! error, the error is handed on.

use crate::acquired::RecordGuard;
use crate::guard::FieldGuard;
use crate::mode::{LockMode, LockModeKind};
use crate::record::{RecordLock, Slot};
use crate::slot::SlotGuard;
use core::fmt::{Debug, Write};
use vstd::prelude::*;
use vstd::string::StringExecFns;

verus! {

/// The `Debug` impl of a value reported an error, so that there is no text
/// for it.
#[derive(Debug, Clone, Copy, PartialEq, Eq, Structural)]
pub struct FormatError;

/// `Debug` of the standard library: the text that `{:?}` writes for a value,
/// or `None` where the `Debug` impl of the value reports an error. Writing
/// into a `String` never fails by itself. Nothing is claimed of the text, nor
/// of when an impl reports an error.
#[verifier::external_body]
fn debug_text<T: Debug>(value: &T) -> (text: Option<String>) {
    let mut text = String::new();
    match write!(text, "{:?}", value) {
        Ok(()) => Some(text),
        Err(_) => None,
    }
}

/// `text` is a debug text of `value`: what `{:?}` wrote for it.
pub closed spec fn describes<T: Debug>(value: T, text: String) -> bool {
    call_ensures(debug_text::<T>, (&value,), Some(text))
}

/// The `Debug` impl of `value` reported an error.
pub closed spec fn fails_to_describe<T: Debug>(value: T) -> bool {
    call_ensures(debug_text::<T>, (&value,), None::<String>)
}

/// The `Debug` impl of what the guard shows reported an error.
pub open spec fn fails_to_describe_held<'a, T: Debug>(guard: SlotGuard<'a, T>) -> bool {
    exists|value: T| #[trigger] guard.shows(value) && fails_to_describe(value)
}

/// Describing field `field` of the record ended in an error of the `Debug`
/// impl: of the value of a self-synchronized field, or of what the read
/// guard shows that `RwLock::try_read` gave on the lock of the field.
pub open spec fn fails_to_describe_field<T: Debug>(record: RecordLock<T>, field: int) -> bool {
    &&& 0 <= field < record@.len()
    &&& match record@[field] {
        Some(value) => fails_to_describe(value),
        None => exists|guard: SlotGuard<'_, T>|
            #[trigger] SlotGuard::attempt_on(
                &record.lock_at(field),
                LockModeKind::Read,
                Some(guard),
            ) && fails_to_describe_held(guard),
    }
}

/// `text` is the debug text of what the guard shows.
pub open spec fn describes_held<'a, T: Debug>(guard: SlotGuard<'a, T>, text: String) -> bool {
    exists|value: T| #[trigger] guard.shows(value) && describes(value, text)
}

/// `entry` is what describing field `field` of the record gave. Of a
/// self-synchronized field it is the debug text of the value. Of a field
/// behind a lock it is `None` where `RwLock::try_read` on the lock of that
/// field gave `None`, and else the debug text of what the read guard it gave
/// shows.
pub open spec fn describes_field<T: Debug>(
    record: RecordLock<T>,
    field: int,
    entry: Option<String>,
) -> bool {
    match record@[field] {
        Some(value) => entry matches Some(text) && describes(value, text),
        None => match entry {
            None => SlotGuard::<T>::attempt_on(&record.lock_at(field), LockModeKind::Read, None),
            Some(text) => exists|guard: SlotGuard<'_, T>|
                #[trigger] SlotGuard::attempt_on(
                    &record.lock_at(field),
                    LockModeKind::Read,
                    Some(guard),
                ) && describes_held(guard, text),
        },
    }
}

/// The text of one field: its value, or the sentinel of a field whose lock is
/// held by a writer.
pub open spec fn field_text(field: Option<String>) -> Seq<char> {
    match field {
        Some(text) => text@,
        None => "<locked>"@,
    }
}

/// The texts of the fields, in order, with `", "` between them.
pub open spec fn joined(fields: Seq<Option<String>>) -> Seq<char>
    decreases fields.len(),
{
    if fields.len() == 0 {
        Seq::empty()
    } else if fields.len() == 1 {
        field_text(fields[0])
    } else {
        joined(fields.drop_last()) + ", "@ + field_text(fields.last())
    }
}

/// The representation of a record lock with these fields.
pub open spec fn rendered(fields: Seq<Option<String>>) -> Seq<char> {
    "RecordLock { "@ + joined(fields) + " }"@
}

/// Puts the texts of the fields together: `RecordLock { a, b, <locked> }`,
/// where a field without a text shows as `<locked>`.
pub fn render(fields: &Vec<Option<String>>) -> (text: String)
    ensures
        text@ == rendered(fields@),
{
    let mut text = String::from_str("RecordLock { ");
    let mut field: usize = 0;
    while field < fields.len()
        invariant
            field <= fields@.len(),
            text@ == "RecordLock { "@ + joined(fields@.take(field as int)),
        decreases fields@.len() - field,
    {
        let ghost before = fields@.take(field as int);
        let ghost after = fields@.take(field + 1);
        assert(after.drop_last() =~= before);
        assert(after.last() == fields@[field as int]);
        if field > 0 {
            text.append(", ");
        }
        match &fields[field] {
            Some(value) => text.append(value.as_str()),
            None => text.append("<locked>"),
        }
        assert(text@ =~= "RecordLock { "@ + joined(after));
        field += 1;
    }
    assert(fields@.take(fields@.len() as int) =~= fields@);
    text.append(" }");
    text
}

impl<T: Debug> RecordLock<T> {
    /// The debug text of each field, in declaration order: of a
    /// self-synchronized field the text of its value; of a field behind a
    /// lock the text of what a read guard shows, if the lock of that field
    /// grants one at once, and else `None`. It ends at the first field whose
    /// `Debug` impl reports an error, with that error. Every lock taken is
    /// released again before this returns.
    pub fn describe_fields(&self) -> (outcome: Result<Vec<Option<String>>, FormatError>)
        ensures
            self@.len() == 0 ==> outcome is Ok,
            outcome matches Ok(fields) ==> {
                &&& fields@.len() == self@.len()
                &&& forall|i: int|
                    0 <= i < self@.len() && !self.lockable(i) ==> (#[trigger] fields@[i]) is Some
                &&& forall|i: int|
                    0 <= i < self@.len() ==> describes_field(*self, i, #[trigger] fields@[i])
            },
            outcome is Err ==> exists|field: int| fails_to_describe_field(*self, field),
    {
        let n = self.len();
        let mut fields: Vec<Option<String>> = Vec::new();
        while fields.len() < n
            invariant
                n == self@.len(),
                fields@.len() <= n,
                forall|i: int|
                    0 <= i < fields@.len() && !self.lockable(i) ==> (#[trigger] fields@[i]) is Some,
                forall|i: int|
                    0 <= i < fields@.len() ==> describes_field(*self, i, #[trigger] fields@[i]),
            decreases n - fields@.len(),
        {
            let ghost field = fields@.len() as int;
            match self.slot(fields.len()) {
                Slot::Bare(value) => match debug_text(value) {
                    Some(text) => {
                        assert(describes(*value, text));
                        fields.push(Some(text));
                    },
                    None => {
                        assert(fails_to_describe(*value));
                        assert(fails_to_describe_field(*self, field));
                        return Err(FormatError);
                    },
                },
                Slot::Locked(lock) => {
                    let attempt = SlotGuard::try_acquire(lock, LockModeKind::Read);
                    match &attempt {
                        Some(guard) => {
                            assert(SlotGuard::attempt_on(
                                &self.lock_at(field),
                                LockModeKind::Read,
                                Some(*guard),
                            ));
                            let value = guard.get();
                            match debug_text(value) {
                                Some(text) => {
                                    assert(guard.shows(*value) && describes(*value, text));
                                    assert(describes_held(*guard, text));
                                    fields.push(Some(text));
                                },
                                None => {
                                    assert(guard.shows(*value) && fails_to_describe(*value));
                                    assert(fails_to_describe_held(*guard));
                                    assert(fails_to_describe_field(*self, field));
                                    return Err(FormatError);
                                },
                            }
                        },
                        None => {
                            fields.push(None);
                        },
                    }
                },
            }
            assert(describes_field(*self, field, fields@[field]));
        }
        Ok(fields)
    }

    /// The debug representation of the record lock: `RecordLock { .. }` with
    /// the debug text of each field, and `<locked>` for a field whose lock
    /// is held by a writer; or the error that the `Debug` impl of a field
    /// reported.
    pub fn describe(&self) -> (outcome: Result<String, FormatError>)
        ensures
            self@.len() == 0 ==> outcome is Ok,
            outcome matches Ok(text) ==> exists|fields: Seq<Option<String>>|
                {
                    &&& fields.len() == self@.len()
                    &&& forall|i: int|
                        0 <= i < fields.len() ==> describes_field(*self, i, #[trigger] fields[i])
                    &&& #[trigger] rendered(fields) == text@
                },
            outcome is Err ==> exists|field: int| fails_to_describe_field(*self, field),
    {
        match self.describe_fields() {
            Ok(fields) => Ok(render(&fields)),
            Err(error) => Err(error),
        }
    }
}

impl<'a, T: Debug> SlotGuard<'a, T> {
    /// The debug text of the field's value, or `<unlocked>` where nothing is
    /// held; or the error that the `Debug` impl of the value reported.
    pub fn describe(&self) -> (outcome: Result<String, FormatError>)
        ensures
            !self.mode().readable() ==> (outcome matches Ok(text) && text@ == "<unlocked>"@),
            self.mode().readable() ==> match outcome {
                Ok(text) => describes_held(*self, text),
                Err(_) => fails_to_describe_held(*self),
            },
    {
        if self.kind().is_readable() {
            let value = self.get();
            match debug_text(value) {
                Some(text) => {
                    assert(self.shows(*value) && describes(*value, text));
                    Ok(text)
                },
                None => {
                    assert(self.shows(*value) && fails_to_describe(*value));
                    Err(FormatError)
                },
            }
        } else {
            Ok(String::from_str("<unlocked>"))
        }
    }
}

impl<'a, T: Debug, M: LockMode> FieldGuard<'a, T, M> {
    /// The debug text of the field's value, or `<unlocked>` where the guard
    /// gives no access; or the error that the `Debug` impl of the value
    /// reported.
    pub fn describe(&self) -> (outcome: Result<String, FormatError>)
        ensures
            !M::MODE.readable() ==> (outcome matches Ok(text) && text@ == "<unlocked>"@),
            M::MODE.readable() ==> match outcome {
                Ok(text) => describes_held(self.slot(), text),
                Err(_) => fails_to_describe_held(self.slot()),
            },
    {
        self.as_slot_guard().describe()
    }
}

impl<'a, T> RecordGuard<'a, T> {
    /// The debug representation of the guard, which shows no field.
    pub fn describe(&self) -> (text: String)
        ensures
            text@ == "RecordGuard { .. }"@,
    {
        String::from_str("RecordGuard { .. }")
    }
}

} // verus!
