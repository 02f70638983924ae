//! Laws that relate the store operations to each other. Each is proved of
//! the model in [`crate::records`], over which the contracts of the
//! executable stores are stated, so each holds of every store in the crate.

use vstd::prelude::*;
use crate::error::StoreError;
use crate::records::{
    change_result, distinct_ids, get_result, has_id, index_of, insert_result, inserted, lookup,
    lemma_lookup_at, toggled, updated,
};
use crate::todo::TodoView;

verus! {

/// The store `s` after the records of `records` were inserted one after the
/// other, first to last.
pub open spec fn inserted_all(s: Seq<TodoView>, records: Seq<TodoView>) -> Seq<TodoView>
    decreases records.len(),
{
    if records.len() == 0 {
        s
    } else {
        inserted(inserted_all(s, records.drop_last()), records.last())
    }
}

/// The store `s` after `n` toggles of the identifier `id`.
pub open spec fn toggled_times(s: Seq<TodoView>, id: u32, n: nat) -> Seq<TodoView>
    decreases n,
{
    if n == 0 {
        s
    } else {
        toggled(toggled_times(s, id, (n - 1) as nat), id)
    }
}

/// Inserts whose identifiers differ from each other and from the stored
/// ones all succeed, and the store then holds what it held before followed
/// by the new records, in the order of their insertion.
pub proof fn law_inserts_append(s: Seq<TodoView>, records: Seq<TodoView>)
    requires
        distinct_ids(s + records),
    ensures
        inserted_all(s, records) == s + records,
        forall|k: int|
            0 <= k < records.len() ==> insert_result(
                #[trigger] inserted_all(s, records.take(k)),
                records[k],
            ) == Ok::<(), StoreError>(()),
    decreases records.len(),
{
    if records.len() == 0 {
        assert(s + records =~= s);
    } else {
        let front = records.drop_last();
        let last = records.last();
        let all = s + records;
        assert(s + front =~= all.drop_last());
        assert forall|i: int, j: int| 0 <= i < j < (s + front).len() implies (#[trigger] (s
            + front)[i]).id != (#[trigger] (s + front)[j]).id by {
            assert(all[i].id != all[j].id);
        }
        law_inserts_append(s, front);
        assert(!has_id(s + front, last.id)) by {
            if has_id(s + front, last.id) {
                let i = index_of(s + front, last.id);
                assert(all[i].id != all[all.len() - 1].id);
            }
        }
        assert((s + front).push(last) =~= s + records);
        assert forall|k: int| 0 <= k < records.len() implies insert_result(
            #[trigger] inserted_all(s, records.take(k)),
            records[k],
        ) == Ok::<(), StoreError>(()) by {
            if k < front.len() {
                assert(front.take(k) =~= records.take(k));
                assert(front[k] == records[k]);
            } else {
                assert(records.take(k) =~= front);
            }
        }
    }
}

/// After inserts with distinct identifiers into an empty store, the store
/// lists exactly the inserted records: the same sequence, and so the same
/// set.
pub proof fn law_inserts_are_listed(records: Seq<TodoView>)
    requires
        distinct_ids(records),
    ensures
        inserted_all(Seq::empty(), records) == records,
        inserted_all(Seq::empty(), records).to_set() == records.to_set(),
{
    assert(Seq::<TodoView>::empty() + records =~= records);
    law_inserts_append(Seq::empty(), records);
}

/// An insert that the store accepts, followed by a get of the same
/// identifier, gives back the inserted record.
pub proof fn law_insert_then_get(s: Seq<TodoView>, record: TodoView)
    requires
        distinct_ids(s),
        !has_id(s, record.id),
    ensures
        insert_result(s, record) == Ok::<(), StoreError>(()),
        distinct_ids(inserted(s, record)),
        get_result(inserted(s, record), record.id) == Ok::<TodoView, StoreError>(record),
{
    let after = s.push(record);
    assert forall|i: int, j: int| 0 <= i < j < after.len() implies (#[trigger] after[i]).id
        != (#[trigger] after[j]).id by {
        if j == s.len() {
            assert(s[i].id != record.id);
        } else {
            assert(s[i].id != s[j].id);
        }
    }
    lemma_lookup_at(after, s.len() as int);
}

/// In a store with distinct identifiers, a toggle flips the completion flag
/// of the record it names and leaves what `get` answers for every other
/// identifier as it was.
pub proof fn law_toggle_flips(s: Seq<TodoView>, id: u32, other: u32)
    requires
        distinct_ids(s),
    ensures
        distinct_ids(toggled(s, id)),
        has_id(toggled(s, id), other) == has_id(s, other),
        lookup(s, id) matches Some(record) ==> lookup(toggled(s, id), id) == Some(
            record.toggled(),
        ),
        other != id ==> lookup(toggled(s, id), other) == lookup(s, other),
{
    let t = toggled(s, id);
    assert forall|i: int| 0 <= i < s.len() implies (#[trigger] t[i]).id == s[i].id by {}
    assert forall|i: int, j: int| 0 <= i < j < t.len() implies (#[trigger] t[i]).id != (
    #[trigger] t[j]).id by {
        assert(s[i].id != s[j].id);
    }
    if has_id(s, id) {
        let i = index_of(s, id);
        assert(t[i].id == id);
        lemma_lookup_at(s, i);
        lemma_lookup_at(t, i);
    }
    if has_id(s, other) {
        let i = index_of(s, other);
        assert(t[i].id == other);
        lemma_lookup_at(s, i);
        lemma_lookup_at(t, i);
    }
    if has_id(t, other) {
        let i = index_of(t, other);
        assert(s[i].id == other);
    }
}

/// Toggling the same identifier twice gives the store back as it was, so
/// the record has its first completion flag again.
pub proof fn law_toggle_twice(s: Seq<TodoView>, id: u32)
    ensures
        toggled(toggled(s, id), id) == s,
        change_result(toggled(s, id), id) == change_result(s, id),
{
    let once = toggled(s, id);
    assert(toggled(once, id) =~= s);
    assert forall|i: int| 0 <= i < s.len() implies (#[trigger] once[i]).id == s[i].id by {}
    if has_id(s, id) {
        let i = index_of(s, id);
        assert(once[i].id == id);
    }
    if has_id(once, id) {
        let i = index_of(once, id);
        assert(s[i].id == id);
    }
}

/// An update that names an identifier which the store does not hold is
/// answered with `NotFound` and changes nothing.
pub proof fn law_update_absent(s: Seq<TodoView>, record: TodoView)
    requires
        !has_id(s, record.id),
    ensures
        change_result(s, record.id) == Err::<(), StoreError>(StoreError::NotFound),
        updated(s, record) == s,
{
    assert(updated(s, record) =~= s);
}

/// A toggle of an identifier which the store does not hold is answered with
/// `NotFound` and changes nothing.
pub proof fn law_toggle_absent(s: Seq<TodoView>, id: u32)
    requires
        !has_id(s, id),
    ensures
        change_result(s, id) == Err::<(), StoreError>(StoreError::NotFound),
        toggled(s, id) == s,
{
    assert(toggled(s, id) =~= s);
}

/// Identifiers stay unique: whatever operation runs on a store in which no
/// two records share an identifier, no two share one afterwards.
pub proof fn law_identifiers_stay_unique(s: Seq<TodoView>, record: TodoView, id: u32)
    requires
        distinct_ids(s),
    ensures
        distinct_ids(inserted(s, record)),
        distinct_ids(updated(s, record)),
        distinct_ids(toggled(s, id)),
{
    let u = updated(s, record);
    let t = toggled(s, id);
    assert forall|i: int, j: int| 0 <= i < j < u.len() implies (#[trigger] u[i]).id != (
    #[trigger] u[j]).id by {
        assert(s[i].id != s[j].id);
    }
    assert forall|i: int, j: int| 0 <= i < j < t.len() implies (#[trigger] t[i]).id != (
    #[trigger] t[j]).id by {
        assert(s[i].id != s[j].id);
    }
    if !has_id(s, record.id) {
        law_insert_then_get(s, record);
    }
}

/// The identifiers of the records of `s`, place by place.
pub open spec fn identifiers(s: Seq<TodoView>) -> Seq<u32> {
    s.map_values(|record: TodoView| record.id)
}

/// A record keeps its identifier and its place for as long as it is
/// stored: an update and a toggle leave the identifiers as they are, and an
/// insert at most adds one at the end. So no operation removes a record.
pub proof fn law_identifiers_stay(s: Seq<TodoView>, record: TodoView, id: u32)
    ensures
        identifiers(updated(s, record)) == identifiers(s),
        identifiers(toggled(s, id)) == identifiers(s),
        identifiers(inserted(s, record)) == if has_id(s, record.id) {
            identifiers(s)
        } else {
            identifiers(s).push(record.id)
        },
        forall|k: u32|
            has_id(s, k) ==> has_id(updated(s, record), k) && has_id(toggled(s, id), k)
                && has_id(inserted(s, record), k),
{
    assert(identifiers(updated(s, record)) =~= identifiers(s));
    assert(identifiers(toggled(s, id)) =~= identifiers(s));
    if !has_id(s, record.id) {
        assert(identifiers(s.push(record)) =~= identifiers(s).push(record.id));
    }
    assert forall|k: u32| has_id(s, k) implies has_id(updated(s, record), k) && has_id(
        toggled(s, id),
        k,
    ) && has_id(inserted(s, record), k) by {
        let i = index_of(s, k);
        assert(updated(s, record)[i].id == k);
        assert(toggled(s, id)[i].id == k);
        assert(inserted(s, record)[i].id == k);
    }
}

/// Changes to records with different identifiers do not depend on the
/// order in which they are made.
pub proof fn law_changes_commute(s: Seq<TodoView>, a: TodoView, b: TodoView)
    requires
        a.id != b.id,
    ensures
        toggled(toggled(s, a.id), b.id) == toggled(toggled(s, b.id), a.id),
        updated(updated(s, a), b) == updated(updated(s, b), a),
        toggled(updated(s, a), b.id) == updated(toggled(s, b.id), a),
{
    assert(toggled(toggled(s, a.id), b.id) =~= toggled(toggled(s, b.id), a.id));
    assert(updated(updated(s, a), b) =~= updated(updated(s, b), a));
    assert(toggled(updated(s, a), b.id) =~= updated(toggled(s, b.id), a));
}

/// No toggle is lost: after `n` toggles of one identifier, in whatever order
/// their callers were served, the store is as it was when `n` is even and
/// toggled once when `n` is odd. A stored record that started out not
/// completed is completed afterwards exactly when `n` is odd.
pub proof fn law_toggles_count(s: Seq<TodoView>, id: u32, n: nat)
    requires
        distinct_ids(s),
    ensures
        toggled_times(s, id, n) == if n % 2 == 1 {
            toggled(s, id)
        } else {
            s
        },
        lookup(s, id) matches Some(record) ==> lookup(toggled_times(s, id, n), id) == Some(
            if n % 2 == 1 {
                record.toggled()
            } else {
                record
            },
        ),
        lookup(s, id) matches Some(record) ==> !record.completed ==> (lookup(
            toggled_times(s, id, n),
            id,
        ) matches Some(after) && after.completed == (n % 2 == 1)),
    decreases n,
{
    if n > 0 {
        law_toggles_count(s, id, (n - 1) as nat);
        law_toggle_twice(s, id);
    }
    law_toggle_flips(s, id, id);
}

/// Reading a record, flipping its completion flag and writing it back with
/// an update is the same as one toggle, as long as nothing changes the
/// store between the read and the write.
pub proof fn law_toggle_is_get_then_update(s: Seq<TodoView>, id: u32)
    requires
        distinct_ids(s),
    ensures
        get_result(s, id) matches Ok(record) ==> updated(s, record.toggled()) == toggled(s, id)
            && change_result(s, record.id) == Ok::<(), StoreError>(()),
        get_result(s, id) is Err ==> toggled(s, id) == s && change_result(s, id) == Err::<
            (),
            StoreError,
        >(StoreError::NotFound),
{
    if has_id(s, id) {
        let i = index_of(s, id);
        let record = s[i];
        assert forall|k: int| 0 <= k < s.len() implies #[trigger] updated(s, record.toggled())[k]
            == toggled(s, id)[k] by {
            if s[k].id == id && k != i {
                if k < i {
                    assert(s[k].id != s[i].id);
                } else {
                    assert(s[i].id != s[k].id);
                }
            }
        }
        assert(updated(s, record.toggled()) =~= toggled(s, id));
    } else {
        assert(toggled(s, id) =~= s);
    }
}

} // verus!
