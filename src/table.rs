//! Tables as sequences of rows with unique keys, and the map each one denotes.
use vstd::prelude::*;

verus! {

/// A row type with a primary key.
pub trait Keyed<K> {
    spec fn key(&self) -> K;
}

/// Some row of `rows` has key `k`.
pub open spec fn has_key<K, R: Keyed<K>>(rows: Seq<R>, k: K) -> bool {
    exists|i: int| 0 <= i < rows.len() && #[trigger] rows[i].key() == k
}

/// An index of a row with key `k` (the only one, in a table with unique keys).
pub open spec fn index_of<K, R: Keyed<K>>(rows: Seq<R>, k: K) -> int {
    choose|i: int| 0 <= i < rows.len() && #[trigger] rows[i].key() == k
}

/// No two rows share a key.
pub open spec fn unique_keys<K, R: Keyed<K>>(rows: Seq<R>) -> bool {
    forall|i: int, j: int|
        0 <= i < rows.len() && 0 <= j < rows.len() && i != j ==> #[trigger] rows[i].key()
            != #[trigger] rows[j].key()
}

/// The table as a map from key to row.
pub open spec fn keyed<K, R: Keyed<K>>(rows: Seq<R>) -> Map<K, R> {
    Map::new(|k: K| has_key(rows, k), |k: K| rows[index_of(rows, k)])
}

/// The table with `r` written under its key: the row with that key is replaced in
/// place, or `r` is appended when no row has it.
pub open spec fn upsert<K, R: Keyed<K>>(rows: Seq<R>, r: R) -> Seq<R> {
    if has_key(rows, r.key()) {
        rows.update(index_of(rows, r.key()), r)
    } else {
        rows.push(r)
    }
}

/// In a table with unique keys, the row at `i` is the one its key maps to.
pub proof fn lemma_index_of_unique<K, R: Keyed<K>>(rows: Seq<R>, i: int)
    requires
        unique_keys(rows),
        0 <= i < rows.len(),
    ensures
        has_key(rows, rows[i].key()),
        index_of(rows, rows[i].key()) == i,
        keyed(rows).contains_key(rows[i].key()),
        keyed(rows)[rows[i].key()] == rows[i],
{
    let k = rows[i].key();
    assert(has_key(rows, k));
    let j = index_of(rows, k);
    assert(rows[j].key() == k);
}

/// Writing a row keeps keys unique, and the map gains (or changes) exactly that entry.
pub proof fn lemma_upsert<K, R: Keyed<K>>(rows: Seq<R>, r: R)
    requires
        unique_keys(rows),
    ensures
        unique_keys(upsert(rows, r)),
        keyed(upsert(rows, r)) == keyed(rows).insert(r.key(), r),
        upsert(rows, r).len() == rows.len() + (if has_key(rows, r.key()) { 0int } else { 1int }),
{
    let new_rows = upsert(rows, r);
    if has_key(rows, r.key()) {
        let j = index_of(rows, r.key());
        assert(rows[j].key() == r.key());
        assert forall|a: int, b: int|
            0 <= a < new_rows.len() && 0 <= b < new_rows.len() && a != b implies #[trigger] new_rows[a].key()
                != #[trigger] new_rows[b].key() by {
            if a != j && b != j {
                assert(rows[a].key() != rows[b].key());
            } else if a == j {
                assert(rows[j].key() != rows[b].key());
            } else {
                assert(rows[a].key() != rows[j].key());
            }
        }
        assert forall|k: K| #[trigger] keyed(new_rows).contains_key(k) <==> keyed(rows).insert(
            r.key(),
            r,
        ).contains_key(k) by {
            if has_key(rows, k) {
                let i = index_of(rows, k);
                assert(new_rows[i].key() == k || i == j);
                if i == j {
                    assert(new_rows[j].key() == k);
                }
            }
            if has_key(new_rows, k) {
                let i = index_of(new_rows, k);
                assert(rows[i].key() == k || i == j);
            }
        }
        assert forall|k: K| #[trigger] keyed(new_rows).contains_key(k) implies keyed(new_rows)[k]
            == keyed(rows).insert(r.key(), r)[k] by {
            let i = index_of(new_rows, k);
            assert(new_rows[i].key() == k);
            if k == r.key() {
                assert(new_rows[j].key() == k);
                assert(i == j);
            } else {
                assert(i != j);
                assert(rows[i].key() == k);
                lemma_index_of_unique(rows, i);
            }
        }
        assert(keyed(new_rows) =~= keyed(rows).insert(r.key(), r));
    } else {
        let n = rows.len() as int;
        assert forall|a: int, b: int|
            0 <= a < new_rows.len() && 0 <= b < new_rows.len() && a != b implies #[trigger] new_rows[a].key()
                != #[trigger] new_rows[b].key() by {
            if a != n && b != n {
                assert(rows[a].key() != rows[b].key());
            } else if a == n {
                assert(rows[b].key() != r.key());
            } else {
                assert(rows[a].key() != r.key());
            }
        }
        assert forall|k: K| #[trigger] keyed(new_rows).contains_key(k) <==> keyed(rows).insert(
            r.key(),
            r,
        ).contains_key(k) by {
            if has_key(rows, k) {
                let i = index_of(rows, k);
                assert(new_rows[i].key() == k);
            }
            if k == r.key() {
                assert(new_rows[n].key() == k);
            }
            if has_key(new_rows, k) {
                let i = index_of(new_rows, k);
                if i < n {
                    assert(rows[i].key() == k);
                }
            }
        }
        assert forall|k: K| #[trigger] keyed(new_rows).contains_key(k) implies keyed(new_rows)[k]
            == keyed(rows).insert(r.key(), r)[k] by {
            let i = index_of(new_rows, k);
            assert(new_rows[i].key() == k);
            if k == r.key() {
                assert(new_rows[n].key() == k);
                lemma_index_of_unique(new_rows, n);
            } else {
                assert(i != n);
                assert(rows[i].key() == k);
                lemma_index_of_unique(rows, i);
            }
        }
        assert(keyed(new_rows) =~= keyed(rows).insert(r.key(), r));
    }
}

/// Where a row with the key exists at `i`, writing replaces that row.
pub proof fn lemma_upsert_at<K, R: Keyed<K>>(rows: Seq<R>, i: int, r: R)
    requires
        unique_keys(rows),
        0 <= i < rows.len(),
        rows[i].key() == r.key(),
    ensures
        upsert(rows, r) == rows.update(i, r),
{
    lemma_index_of_unique(rows, i);
}

} // verus!
