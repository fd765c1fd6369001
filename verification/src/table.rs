//! Rows kept in a vector and read as a table: a map from each row's key to
//! the row. The lemmas relate the two readings.

use vstd::prelude::*;

verus! {

/// No two rows have the same key.
pub open spec fn unique_keys<T>(rows: Seq<T>, key: spec_fn(T) -> u128) -> bool {
    forall|i: int, j: int|
        0 <= i < j < rows.len() ==> key(#[trigger] rows[i]) != key(#[trigger] rows[j])
}

/// `i` is an index of a row with key `k`.
pub open spec fn is_row_of<T>(rows: Seq<T>, key: spec_fn(T) -> u128, k: u128, i: int) -> bool {
    0 <= i < rows.len() && key(rows[i]) == k
}

/// Some row has key `k`.
pub open spec fn has_key<T>(rows: Seq<T>, key: spec_fn(T) -> u128, k: u128) -> bool {
    exists|i: int| is_row_of(rows, key, k, i)
}

/// The table that the rows make up.
pub open spec fn table_of<T>(rows: Seq<T>, key: spec_fn(T) -> u128) -> Map<u128, T> {
    Map::new(
        |k: u128| has_key(rows, key, k),
        |k: u128| rows[choose|i: int| is_row_of(rows, key, k, i)],
    )
}

/// Each row is the table's entry under its key.
pub proof fn lemma_table_row<T>(rows: Seq<T>, key: spec_fn(T) -> u128, i: int)
    requires
        unique_keys(rows, key),
        0 <= i < rows.len(),
    ensures
        table_of(rows, key).dom().contains(key(rows[i])),
        table_of(rows, key)[key(rows[i])] == rows[i],
{
    let k = key(rows[i]);
    assert(is_row_of(rows, key, k, i));
    let c = choose|c: int| is_row_of(rows, key, k, c);
    assert(is_row_of(rows, key, k, c));
    if c < i {
        assert(key(rows[c]) != key(rows[i]));
    }
    if i < c {
        assert(key(rows[i]) != key(rows[c]));
    }
}

/// A key that the table lacks is the key of no row.
pub proof fn lemma_table_lacks<T>(rows: Seq<T>, key: spec_fn(T) -> u128, k: u128)
    requires
        !table_of(rows, key).dom().contains(k),
    ensures
        forall|i: int| 0 <= i < rows.len() ==> key(#[trigger] rows[i]) != k,
{
    assert forall|i: int| 0 <= i < rows.len() implies key(#[trigger] rows[i]) != k by {
        if key(rows[i]) == k {
            assert(is_row_of(rows, key, k, i));
        }
    }
}

/// No rows make the empty table.
pub proof fn lemma_table_empty<T>(key: spec_fn(T) -> u128)
    ensures
        unique_keys(Seq::<T>::empty(), key),
        table_of(Seq::<T>::empty(), key) =~= Map::<u128, T>::empty(),
{
    assert forall|k: u128| !has_key(Seq::<T>::empty(), key, k) by {
        if has_key(Seq::<T>::empty(), key, k) {
            let i = choose|i: int| is_row_of(Seq::<T>::empty(), key, k, i);
            assert(is_row_of(Seq::<T>::empty(), key, k, i));
        }
    }
}

/// Appending a row with a new key inserts it into the table.
pub proof fn lemma_table_push<T>(rows: Seq<T>, key: spec_fn(T) -> u128, row: T)
    requires
        unique_keys(rows, key),
        !table_of(rows, key).dom().contains(key(row)),
    ensures
        unique_keys(rows.push(row), key),
        table_of(rows.push(row), key) =~= table_of(rows, key).insert(key(row), row),
{
    let grown = rows.push(row);
    lemma_table_lacks(rows, key, key(row));
    assert(unique_keys(grown, key)) by {
        assert forall|i: int, j: int| 0 <= i < j < grown.len() implies key(
            #[trigger] grown[i],
        ) != key(#[trigger] grown[j]) by {
            assert(grown[i] == rows[i]);
            if j < rows.len() {
                assert(grown[j] == rows[j]);
            }
        }
    }
    assert forall|k: u128|
        has_key(grown, key, k) <==> (k == key(row) || has_key(rows, key, k)) by {
        if has_key(grown, key, k) {
            let i = choose|i: int| is_row_of(grown, key, k, i);
            assert(is_row_of(grown, key, k, i));
            if i < rows.len() {
                assert(is_row_of(rows, key, k, i));
            }
        }
        if k == key(row) {
            assert(is_row_of(grown, key, k, rows.len() as int));
        }
        if has_key(rows, key, k) {
            let i = choose|i: int| is_row_of(rows, key, k, i);
            assert(is_row_of(rows, key, k, i));
            assert(is_row_of(grown, key, k, i));
        }
    }
    assert forall|k: u128| has_key(grown, key, k) implies table_of(grown, key)[k] == table_of(
        rows,
        key,
    ).insert(key(row), row)[k] by {
        let i = choose|i: int| is_row_of(grown, key, k, i);
        assert(is_row_of(grown, key, k, i));
        lemma_table_row(grown, key, i);
        if i < rows.len() {
            assert(grown[i] == rows[i]);
            lemma_table_row(rows, key, i);
        }
    }
}

/// The table has as many entries as there are rows.
pub proof fn lemma_table_size<T>(rows: Seq<T>, key: spec_fn(T) -> u128)
    requires
        unique_keys(rows, key),
    ensures
        table_of(rows, key).dom().finite(),
        table_of(rows, key).dom().len() == rows.len(),
    decreases rows.len(),
{
    if rows.len() == 0 {
        lemma_table_empty(key);
        assert(rows =~= Seq::<T>::empty());
    } else {
        let init = rows.drop_last();
        let last = rows.last();
        assert(unique_keys(init, key)) by {
            assert forall|i: int, j: int| 0 <= i < j < init.len() implies key(
                #[trigger] init[i],
            ) != key(#[trigger] init[j]) by {
                assert(init[i] == rows[i]);
                assert(init[j] == rows[j]);
            }
        }
        lemma_table_size(init, key);
        let last_key = key(last);
        assert(!table_of(init, key).dom().contains(last_key)) by {
            if has_key(init, key, last_key) {
                let i = choose|i: int| is_row_of(init, key, last_key, i);
                assert(is_row_of(init, key, last_key, i));
                assert(init[i] == rows[i]);
                assert(key(rows[i]) != key(rows[rows.len() - 1]));
            }
        }
        lemma_table_push(init, key, last);
        assert(rows =~= init.push(last));
    }
}

/// Removing a row removes its key from the table.
pub proof fn lemma_table_remove<T>(rows: Seq<T>, key: spec_fn(T) -> u128, at: int)
    requires
        unique_keys(rows, key),
        0 <= at < rows.len(),
    ensures
        unique_keys(rows.remove(at), key),
        table_of(rows.remove(at), key) =~= table_of(rows, key).remove(key(rows[at])),
{
    let rest = rows.remove(at);
    let gone = key(rows[at]);
    assert forall|i: int| 0 <= i < rest.len() implies #[trigger] rest[i] == rows[if i < at {
        i
    } else {
        i + 1
    }] by {}
    assert(unique_keys(rest, key)) by {
        assert forall|i: int, j: int| 0 <= i < j < rest.len() implies key(#[trigger] rest[i])
            != key(#[trigger] rest[j]) by {
            let a = if i < at {
                i
            } else {
                i + 1
            };
            let b = if j < at {
                j
            } else {
                j + 1
            };
            assert(rest[i] == rows[a]);
            assert(rest[j] == rows[b]);
            assert(key(rows[a]) != key(rows[b]));
        }
    }
    assert forall|k: u128| has_key(rest, key, k) <==> (k != gone && has_key(rows, key, k)) by {
        if has_key(rest, key, k) {
            let i = choose|i: int| is_row_of(rest, key, k, i);
            assert(is_row_of(rest, key, k, i));
            let a = if i < at {
                i
            } else {
                i + 1
            };
            assert(rest[i] == rows[a]);
            assert(is_row_of(rows, key, k, a));
            if a < at {
                assert(key(rows[a]) != key(rows[at]));
            } else {
                assert(key(rows[at]) != key(rows[a]));
            }
        }
        if k != gone && has_key(rows, key, k) {
            let a = choose|a: int| is_row_of(rows, key, k, a);
            assert(is_row_of(rows, key, k, a));
            let i = if a < at {
                a
            } else {
                a - 1
            };
            assert(rest[i] == rows[a]);
            assert(is_row_of(rest, key, k, i));
        }
    }
    assert forall|k: u128| has_key(rest, key, k) implies table_of(rest, key)[k] == table_of(
        rows,
        key,
    )[k] by {
        let i = choose|i: int| is_row_of(rest, key, k, i);
        assert(is_row_of(rest, key, k, i));
        lemma_table_row(rest, key, i);
        let a = if i < at {
            i
        } else {
            i + 1
        };
        assert(rest[i] == rows[a]);
        lemma_table_row(rows, key, a);
    }
}

} // verus!
