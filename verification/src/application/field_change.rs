//! Field-by-field change of a stored row: a field is written only when its
//! new value differs from the stored one.
use vstd::prelude::*;

verus! {

/// The value of a column in an update: kept as stored, or written.
#[derive(Debug)]
pub enum FieldChange<T> {
    Keep(T),
    Write(T),
}

/// The change for a column whose stored value is `old` and whose wanted
/// value is `new`.
pub open spec fn change_of<T>(old: T, new: T) -> FieldChange<T> {
    if old == new {
        FieldChange::Keep(old)
    } else {
        FieldChange::Write(new)
    }
}

/// The value a column has after the update.
pub open spec fn value_after<T>(c: FieldChange<T>) -> T {
    match c {
        FieldChange::Keep(v) => v,
        FieldChange::Write(v) => v,
    }
}

pub fn change_u128(old: u128, new: u128) -> (r: FieldChange<u128>)
    ensures
        r == change_of(old, new),
{
    if old == new {
        FieldChange::Keep(old)
    } else {
        FieldChange::Write(new)
    }
}

pub fn change_opt_u128(old: Option<u128>, new: Option<u128>) -> (r: FieldChange<Option<u128>>)
    ensures
        r == change_of(old, new),
{
    let same = match (old, new) {
        (None, None) => true,
        (Some(a), Some(b)) => a == b,
        _ => false,
    };
    if same {
        FieldChange::Keep(old)
    } else {
        FieldChange::Write(new)
    }
}

pub fn change_opt_i128(old: Option<i128>, new: Option<i128>) -> (r: FieldChange<Option<i128>>)
    ensures
        r == change_of(old, new),
{
    let same = match (old, new) {
        (None, None) => true,
        (Some(a), Some(b)) => a == b,
        _ => false,
    };
    if same {
        FieldChange::Keep(old)
    } else {
        FieldChange::Write(new)
    }
}

/// The change of a text column, compared by characters.
pub fn change_string(old: String, new: String) -> (r: FieldChange<String>)
    ensures
        r matches FieldChange::Keep(v) ==> old@ == new@ && v@ == old@,
        r matches FieldChange::Write(v) ==> old@ != new@ && v@ == new@,
{
    if old == new {
        FieldChange::Keep(old)
    } else {
        FieldChange::Write(new)
    }
}

/// A field that is written keeps the wanted value; one that is kept already
/// had it. Either way the column ends with the wanted value, and it is
/// written only when the value differs.
pub proof fn law_change_reaches_new<T>(old: T, new: T)
    ensures
        value_after(change_of(old, new)) == new,
        change_of(old, new) is Write <==> old != new,
{
}

} // verus!
