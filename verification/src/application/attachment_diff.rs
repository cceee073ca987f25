//! Which attachments a revision of an aggregate drops and which it adds.
use vstd::prelude::*;
use crate::domain::identified::{keys, Identified};

verus! {

/// Identifiers of the entries of `old` whose identifier is not in `new_keys`,
/// in the order of `old`.
pub open spec fn removed_ids<T: Identified>(old: Seq<T>, new_keys: Seq<u128>) -> Seq<u128>
    decreases old.len(),
{
    if old.len() == 0 {
        seq![]
    } else {
        let rest = removed_ids(old.drop_last(), new_keys);
        if new_keys.contains(old.last().key()) {
            rest
        } else {
            rest.push(old.last().key())
        }
    }
}

/// Entries of `new` whose identifier is not in `old_keys`, in the order of
/// `new`.
pub open spec fn added<T: Identified>(new: Seq<T>, old_keys: Seq<u128>) -> Seq<T>
    decreases new.len(),
{
    if new.len() == 0 {
        seq![]
    } else {
        let rest = added(new.drop_last(), old_keys);
        if old_keys.contains(new.last().key()) {
            rest
        } else {
            rest.push(new.last())
        }
    }
}

/// The identifiers of `s`, collected.
pub fn collect_ids<T: Identified>(s: &[T]) -> (r: Vec<u128>)
    ensures
        r@ == keys(s@),
{
    let mut r: Vec<u128> = Vec::new();
    let mut i: usize = 0;
    while i < s.len()
        invariant
            i <= s@.len(),
            r@ == keys(s@.take(i as int)),
        decreases s@.len() - i,
    {
        r.push(s[i].id());
        assert(keys(s@.take(i + 1)) =~= keys(s@.take(i as int)).push(s@[i as int].key()));
        i = i + 1;
    }
    assert(s@.take(s@.len() as int) =~= s@);
    r
}

/// Whether `ids` holds `id`.
pub fn holds_id(ids: &Vec<u128>, id: u128) -> (r: bool)
    ensures
        r == ids@.contains(id),
{
    let mut i: usize = 0;
    while i < ids.len()
        invariant
            i <= ids@.len(),
            forall|j: int| 0 <= j < i ==> ids@[j] != id,
        decreases ids@.len() - i,
    {
        if ids[i] == id {
            return true;
        }
        i = i + 1;
    }
    false
}

/// Splits a revision of a list of entities: the identifiers of the old
/// entries that are gone, and the new entries that were not there before.
pub fn diff_by_id<T: Identified>(old: &[T], new: Vec<T>) -> (r: (Vec<u128>, Vec<T>))
    ensures
        r.0@ == removed_ids(old@, keys(new@)),
        r.1@ == added(new@, keys(old@)),
{
    let new_ids = collect_ids(new.as_slice());
    let old_ids = collect_ids(old);
    let mut to_delete: Vec<u128> = Vec::new();
    let mut i: usize = 0;
    while i < old.len()
        invariant
            i <= old@.len(),
            new_ids@ == keys(new@),
            to_delete@ == removed_ids(old@.take(i as int), new_ids@),
        decreases old@.len() - i,
    {
        let id = old[i].id();
        if !holds_id(&new_ids, id) {
            to_delete.push(id);
        }
        assert(old@.take(i + 1).drop_last() =~= old@.take(i as int));
        i = i + 1;
    }
    assert(old@.take(old@.len() as int) =~= old@);
    let ghost all_new = new@;
    let n = new.len();
    let mut rest = new;
    let mut to_add: Vec<T> = Vec::new();
    let mut j: usize = 0;
    while rest.len() > 0
        invariant
            j <= all_new.len(),
            all_new.len() == n,
            rest@ == all_new.skip(j as int),
            old_ids@ == keys(old@),
            to_add@ == added(all_new.take(j as int), old_ids@),
        decreases rest@.len(),
    {
        let a = rest.remove(0);
        assert(a == all_new[j as int]);
        let keep = !holds_id(&old_ids, a.id());
        if keep {
            to_add.push(a);
        }
        assert(all_new.take(j + 1).drop_last() =~= all_new.take(j as int));
        assert(all_new.skip(j + 1) =~= all_new.skip(j as int).remove(0));
        j = j + 1;
    }
    assert(all_new.take(j as int) =~= all_new);
    (to_delete, to_add)
}

proof fn lemma_push_contains<A>(s: Seq<A>, v: A, x: A)
    ensures
        s.push(v).contains(x) <==> (s.contains(x) || x == v),
{
    if s.contains(x) {
        let i = choose|i: int| 0 <= i < s.len() && s[i] == x;
        assert(s.push(v)[i] == x);
    }
    if x == v {
        assert(s.push(v)[s.len() as int] == x);
    }
    if s.push(v).contains(x) {
        let i = choose|i: int| 0 <= i < s.len() + 1 && s.push(v)[i] == x;
        if i < s.len() {
            assert(s[i] == x);
        }
    }
}

proof fn lemma_keys_drop_last<T: Identified>(s: Seq<T>)
    requires
        s.len() > 0,
    ensures
        keys(s) == keys(s.drop_last()).push(s.last().key()),
{
    assert(keys(s) =~= keys(s.drop_last()).push(s.last().key()));
}

/// An identifier is reported as dropped exactly when an old entry had it and
/// no new entry has it.
pub proof fn law_removed_ids_exact<T: Identified>(old: Seq<T>, new_keys: Seq<u128>, x: u128)
    ensures
        removed_ids(old, new_keys).contains(x) <==> (keys(old).contains(x) && !new_keys.contains(
            x,
        )),
    decreases old.len(),
{
    if old.len() == 0 {
        assert(keys(old) =~= Seq::<u128>::empty());
    } else {
        law_removed_ids_exact(old.drop_last(), new_keys, x);
        lemma_keys_drop_last(old);
        lemma_push_contains(keys(old.drop_last()), old.last().key(), x);
        let rest = removed_ids(old.drop_last(), new_keys);
        if !new_keys.contains(old.last().key()) {
            lemma_push_contains(rest, old.last().key(), x);
        }
    }
}

/// An identifier is among the added entries exactly when a new entry has it
/// and no old entry had it.
pub proof fn law_added_exact<T: Identified>(new: Seq<T>, old_keys: Seq<u128>, x: u128)
    ensures
        keys(added(new, old_keys)).contains(x) <==> (keys(new).contains(x) && !old_keys.contains(
            x,
        )),
    decreases new.len(),
{
    if new.len() == 0 {
        assert(keys(new) =~= Seq::<u128>::empty());
        assert(keys(added(new, old_keys)) =~= Seq::<u128>::empty());
    } else {
        law_added_exact(new.drop_last(), old_keys, x);
        lemma_keys_drop_last(new);
        lemma_push_contains(keys(new.drop_last()), new.last().key(), x);
        let rest = added(new.drop_last(), old_keys);
        if !old_keys.contains(new.last().key()) {
            assert(keys(rest.push(new.last())) =~= keys(rest).push(new.last().key()));
            lemma_push_contains(keys(rest), new.last().key(), x);
        }
    }
}

/// Every added entry is one of the new entries.
pub proof fn law_added_from_new<T: Identified>(new: Seq<T>, old_keys: Seq<u128>, a: T)
    ensures
        added(new, old_keys).contains(a) ==> new.contains(a),
    decreases new.len(),
{
    if new.len() > 0 {
        law_added_from_new(new.drop_last(), old_keys, a);
        let rest = added(new.drop_last(), old_keys);
        lemma_push_contains(rest, new.last(), a);
        lemma_push_contains(new.drop_last(), new.last(), a);
        assert(new.drop_last().push(new.last()) =~= new);
    }
}

/// Applying a diff gives the new set of identifiers: an identifier is kept
/// (present before and not dropped) or added exactly when the new list has it.
pub proof fn law_diff_reconciles<T: Identified>(old: Seq<T>, new: Seq<T>, x: u128)
    ensures
        ((keys(old).contains(x) && !removed_ids(old, keys(new)).contains(x)) || keys(
            added(new, keys(old)),
        ).contains(x)) <==> keys(new).contains(x),
        !(removed_ids(old, keys(new)).contains(x) && keys(added(new, keys(old))).contains(x)),
{
    law_removed_ids_exact(old, keys(new), x);
    law_added_exact(new, keys(old), x);
}

/// A revision that keeps the same identifiers drops and adds nothing.
pub proof fn law_diff_unchanged<T: Identified>(old: Seq<T>, new: Seq<T>)
    requires
        keys(old) == keys(new),
    ensures
        removed_ids(old, keys(new)).len() == 0,
        added(new, keys(old)).len() == 0,
{
    let r = removed_ids(old, keys(new));
    if r.len() > 0 {
        law_removed_ids_exact(old, keys(new), r[0]);
        assert(r.contains(r[0]));
    }
    let a = added(new, keys(old));
    if a.len() > 0 {
        law_added_exact(new, keys(old), a[0].key());
        assert(keys(a)[0] == a[0].key());
        assert(keys(a).contains(a[0].key()));
    }
}

} // verus!
