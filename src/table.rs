//! Insert-or-ignore over a keyed table: the rule by which charts and scores are
//! stored, and the facts about it that the store's laws rest on.
use vstd::prelude::*;

verus! {

/// One insert-or-ignore: the table gains the row unless its key is taken.
pub open spec fn insert_one<V>(t: Map<i64, V>, row: (i64, V)) -> Map<i64, V> {
    if t.contains_key(row.0) {
        t
    } else {
        t.insert(row.0, row.1)
    }
}

/// Insert-or-ignore of a batch of keyed rows, in order: the first row with a
/// key that is free wins, later ones with that key are ignored.
pub open spec fn insert_or_ignore<V>(t: Map<i64, V>, rows: Seq<(i64, V)>) -> Map<i64, V>
    decreases rows.len(),
{
    if rows.len() == 0 {
        t
    } else {
        insert_one(insert_or_ignore(t, rows.drop_last()), rows.last())
    }
}

/// The rows of a batch that insert-or-ignore actually adds, in order.
pub open spec fn fresh_rows<V>(t: Map<i64, V>, rows: Seq<(i64, V)>) -> Seq<V>
    decreases rows.len(),
{
    if rows.len() == 0 {
        Seq::empty()
    } else {
        let before = fresh_rows(t, rows.drop_last());
        if insert_or_ignore(t, rows.drop_last()).contains_key(rows.last().0) {
            before
        } else {
            before.push(rows.last().1)
        }
    }
}

/// Rows already in the table keep their value; every key of the batch ends up
/// in the table; every key of the result was in the table or in the batch,
/// with a value from one of them.
pub proof fn lemma_insert_or_ignore_shape<V>(t: Map<i64, V>, rows: Seq<(i64, V)>)
    ensures
        forall|k: i64| #[trigger]
            t.contains_key(k) ==> insert_or_ignore(t, rows).contains_key(k)
                && insert_or_ignore(t, rows)[k] == t[k],
        forall|i: int|
            0 <= i < rows.len() ==> insert_or_ignore(t, rows).contains_key(#[trigger] rows[i].0),
        forall|k: i64| #[trigger]
            insert_or_ignore(t, rows).contains_key(k) ==> (t.contains_key(k)
                && insert_or_ignore(t, rows)[k] == t[k]) || exists|i: int|
                0 <= i < rows.len() && rows[i].0 == k && #[trigger] rows[i].1
                    == insert_or_ignore(t, rows)[k],
    decreases rows.len(),
{
    if rows.len() > 0 {
        let prev = rows.drop_last();
        lemma_insert_or_ignore_shape(t, prev);
        let r = insert_or_ignore(t, rows);
        let p = insert_or_ignore(t, prev);
        assert forall|i: int| 0 <= i < rows.len() implies r.contains_key(#[trigger] rows[i].0) by {
            if i < rows.len() - 1 {
                assert(rows[i] == prev[i]);
                assert(p.contains_key(prev[i].0));
            }
        }
        assert forall|k: i64| #[trigger] r.contains_key(k) implies (t.contains_key(k) && r[k]
            == t[k]) || exists|i: int|
            0 <= i < rows.len() && rows[i].0 == k && #[trigger] rows[i].1 == r[k] by {
            if p.contains_key(k) && r[k] == p[k] {
                if !(t.contains_key(k) && p[k] == t[k]) {
                    let i = choose|i: int|
                        0 <= i < prev.len() && prev[i].0 == k && #[trigger] prev[i].1 == p[k];
                    assert(rows[i] == prev[i]);
                }
            } else {
                assert(rows[rows.len() - 1] == rows.last());
            }
        }
    }
}

/// A batch whose keys are all in the table already changes nothing.
pub proof fn lemma_insert_or_ignore_noop<V>(t: Map<i64, V>, rows: Seq<(i64, V)>)
    requires
        forall|i: int| 0 <= i < rows.len() ==> t.contains_key(#[trigger] rows[i].0),
    ensures
        insert_or_ignore(t, rows) == t,
        fresh_rows(t, rows) == Seq::<V>::empty(),
    decreases rows.len(),
{
    if rows.len() > 0 {
        let prev = rows.drop_last();
        assert forall|i: int| 0 <= i < prev.len() implies t.contains_key(#[trigger] prev[i].0) by {
            assert(prev[i] == rows[i]);
        }
        lemma_insert_or_ignore_noop(t, prev);
        assert(t.contains_key(rows[rows.len() - 1].0));
    }
}

/// Storing the same batch a second time leaves the table as the first pass left
/// it, and adds no row.
pub proof fn lemma_insert_or_ignore_idempotent<V>(t: Map<i64, V>, rows: Seq<(i64, V)>)
    ensures
        insert_or_ignore(insert_or_ignore(t, rows), rows) == insert_or_ignore(t, rows),
        fresh_rows(insert_or_ignore(t, rows), rows) == Seq::<V>::empty(),
{
    lemma_insert_or_ignore_shape(t, rows);
    lemma_insert_or_ignore_noop(insert_or_ignore(t, rows), rows);
}

} // verus!
