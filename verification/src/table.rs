//! Rows that are found by a textual key, and the map that a list of such rows
//! stands for.

use vstd::prelude::*;
use crate::text::str_equal;

verus! {

/// A row of a table whose primary key is a string.
pub trait Keyed: View {
    /// The key of this row.
    spec fn key(&self) -> Seq<char>;

    /// The key of this row, for comparisons at run time.
    fn key_str(&self) -> (k: &str)
        ensures
            k@ == self.key(),
    ;
}

/// The keys of `rows`, in row order.
pub open spec fn keys<R: Keyed>(rows: Seq<R>) -> Seq<Seq<char>> {
    Seq::new(rows.len(), |i: int| rows[i].key())
}

/// Whether `rows[i]` is the first row whose key is `key`.
pub open spec fn first_at<R: Keyed>(rows: Seq<R>, key: Seq<char>, i: int) -> bool {
    &&& 0 <= i < rows.len()
    &&& rows[i].key() == key
    &&& forall|j: int| 0 <= j < i ==> rows[j].key() != key
}

/// The map from key to row content that `rows` stands for. Where a key
/// occurs more than once, the first row with it counts.
pub open spec fn table<R: Keyed>(rows: Seq<R>) -> Map<Seq<char>, R::V> {
    Map::new(
        |key: Seq<char>| exists|i: int| first_at(rows, key, i),
        |key: Seq<char>| rows[choose|i: int| first_at(rows, key, i)]@,
    )
}

/// No key occurs in two rows.
pub open spec fn keys_distinct<R: Keyed>(rows: Seq<R>) -> bool {
    forall|i: int, j: int| 0 <= i < j < rows.len() ==> rows[i].key() != rows[j].key()
}

/// The position of the first row with the given key, if there is one.
pub fn position<R: Keyed>(rows: &Vec<R>, key: &str) -> (found: Option<usize>)
    ensures
        match found {
            Some(i) => first_at(rows@, key@, i as int),
            None => forall|j: int| 0 <= j < rows.len() ==> rows[j].key() != key@,
        },
{
    let mut i: usize = 0;
    while i < rows.len()
        invariant
            i <= rows.len(),
            forall|j: int| 0 <= j < i ==> rows[j].key() != key@,
        decreases rows.len() - i,
    {
        if str_equal(rows[i].key_str(), key) {
            return Some(i);
        }
        i = i + 1;
    }
    None
}

/// The first row with the given key, if there is one.
pub fn find_row<'a, R: Keyed>(rows: &'a Vec<R>, key: &str) -> (found: Option<&'a R>)
    ensures
        match found {
            Some(row) => table(rows@).contains_key(key@) && row@ == table(rows@)[key@] && row.key()
                == key@,
            None => !table(rows@).contains_key(key@),
        },
{
    match position(rows, key) {
        Some(i) => {
            proof {
                lemma_table_at(rows@, key@, i as int);
            }
            Some(&rows[i])
        },
        None => {
            proof {
                lemma_table_absent(rows@, key@);
            }
            None
        },
    }
}

/// Appends a row unless a row with its key is there already.
pub fn insert_row<R: Keyed>(rows: &mut Vec<R>, row: R) -> (inserted: bool)
    requires
        keys_distinct(old(rows)@),
    ensures
        keys_distinct(final(rows)@),
        inserted == !table(old(rows)@).contains_key(row.key()),
        inserted ==> final(rows)@ == old(rows)@.push(row),
        inserted ==> table(final(rows)@) == table(old(rows)@).insert(row.key(), row@),
        !inserted ==> final(rows)@ == old(rows)@,
{
    match position(rows, row.key_str()) {
        Some(i) => {
            proof {
                lemma_table_at(rows@, row.key(), i as int);
            }
            false
        },
        None => {
            proof {
                lemma_table_absent(rows@, row.key());
                lemma_table_push(rows@, row);
            }
            rows.push(row);
            true
        },
    }
}

/// Puts `row` in the place of the row at `i`, which has the same key.
pub fn replace_row<R: Keyed>(rows: &mut Vec<R>, i: usize, row: R)
    requires
        keys_distinct(old(rows)@),
        i < old(rows).len(),
        row.key() == old(rows)[i as int].key(),
    ensures
        keys_distinct(final(rows)@),
        final(rows)@ == old(rows)@.update(i as int, row),
        table(final(rows)@) == table(old(rows)@).insert(row.key(), row@),
{
    proof {
        lemma_table_update(rows@, i as int, row);
    }
    rows.set(i, row);
}

/// The first row with a key is the only index that `first_at` accepts.
pub proof fn lemma_first_at_unique<R: Keyed>(rows: Seq<R>, key: Seq<char>, i: int, j: int)
    requires
        first_at(rows, key, i),
        first_at(rows, key, j),
    ensures
        i == j,
{
}

/// What the table holds under a key that some row has.
pub proof fn lemma_table_at<R: Keyed>(rows: Seq<R>, key: Seq<char>, i: int)
    requires
        first_at(rows, key, i),
    ensures
        table(rows).contains_key(key),
        table(rows)[key] == rows[i]@,
{
    let c = choose|c: int| first_at(rows, key, c);
    lemma_first_at_unique(rows, key, i, c);
}

/// Every entry of the table is the content of the first row with its key.
pub proof fn lemma_table_row<R: Keyed>(rows: Seq<R>, key: Seq<char>) -> (i: int)
    requires
        table(rows).contains_key(key),
    ensures
        first_at(rows, key, i),
        table(rows)[key] == rows[i]@,
{
    choose|i: int| first_at(rows, key, i)
}

/// A key that no row has is not in the table.
pub proof fn lemma_table_absent<R: Keyed>(rows: Seq<R>, key: Seq<char>)
    requires
        forall|j: int| 0 <= j < rows.len() ==> rows[j].key() != key,
    ensures
        !table(rows).contains_key(key),
{
}

/// The table has finitely many keys.
pub proof fn lemma_table_finite<R: Keyed>(rows: Seq<R>)
    ensures
        table(rows).dom().finite(),
{
    let all = keys(rows).to_set();
    vstd::seq_lib::seq_to_set_is_finite(keys(rows));
    assert forall|key: Seq<char>| table(rows).dom().contains(key) implies all.contains(key) by {
        let i = choose|i: int| first_at(rows, key, i);
        assert(keys(rows)[i] == key);
    }
    vstd::set_lib::lemma_len_subset(table(rows).dom(), all);
}

/// Appending a row with a new key adds exactly that entry.
pub proof fn lemma_table_push<R: Keyed>(rows: Seq<R>, row: R)
    requires
        !table(rows).contains_key(row.key()),
    ensures
        table(rows.push(row)) == table(rows).insert(row.key(), row@),
{
    let after = rows.push(row);
    let last = rows.len() as int;
    let expected = table(rows).insert(row.key(), row@);
    assert forall|j: int| 0 <= j < rows.len() implies rows[j].key() != row.key() by {
        if rows[j].key() == row.key() {
            lemma_has_first(rows, row.key(), j);
        }
    }
    assert forall|key: Seq<char>| #[trigger]
        table(after).dom().contains(key) == expected.dom().contains(key) by {
        if key == row.key() {
            assert(first_at(after, key, last));
        } else if table(rows).dom().contains(key) {
            let i = choose|i: int| first_at(rows, key, i);
            lemma_first_extends(rows, row, key, i);
        } else if table(after).dom().contains(key) {
            let i = choose|i: int| first_at(after, key, i);
            assert forall|j: int| 0 <= j < i implies rows[j].key() != key by {
                assert(after[j] == rows[j]);
            }
            assert(first_at(rows, key, i));
        }
    }
    assert forall|key: Seq<char>| #[trigger] expected.dom().contains(key) implies table(after)[key]
        == expected[key] by {
        if key == row.key() {
            lemma_table_at(after, key, last);
        } else {
            let i = choose|i: int| first_at(rows, key, i);
            lemma_first_extends(rows, row, key, i);
            lemma_table_at(after, key, i);
            lemma_table_at(rows, key, i);
        }
    }
}

/// The first row with a key stays the first when a row is appended.
proof fn lemma_first_extends<R: Keyed>(rows: Seq<R>, row: R, key: Seq<char>, i: int)
    requires
        first_at(rows, key, i),
    ensures
        first_at(rows.push(row), key, i),
{
    let after = rows.push(row);
    assert forall|j: int| 0 <= j < i implies after[j].key() != key by {
        assert(after[j] == rows[j]);
    }
}

/// Where some row has the key, some row is the first with it.
pub proof fn lemma_has_first<R: Keyed>(rows: Seq<R>, key: Seq<char>, j: int)
    requires
        0 <= j < rows.len(),
        rows[j].key() == key,
    ensures
        table(rows).contains_key(key),
    decreases j,
{
    if forall|k: int| 0 <= k < j ==> rows[k].key() != key {
        assert(first_at(rows, key, j));
    } else {
        let k = choose|k: int| 0 <= k < j && rows[k].key() == key;
        lemma_has_first(rows, key, k);
    }
}

/// Replacing a row by one with the same key replaces exactly that entry,
/// provided no other row shares the key.
pub proof fn lemma_table_update<R: Keyed>(rows: Seq<R>, i: int, row: R)
    requires
        keys_distinct(rows),
        0 <= i < rows.len(),
        row.key() == rows[i].key(),
    ensures
        keys_distinct(rows.update(i, row)),
        table(rows.update(i, row)) == table(rows).insert(row.key(), row@),
{
    let after = rows.update(i, row);
    let expected = table(rows).insert(row.key(), row@);
    assert forall|k: int| 0 <= k < rows.len() implies #[trigger] after[k].key() == rows[k].key() by {}
    assert forall|key: Seq<char>, k: int| first_at(rows, key, k) == first_at(after, key, k) by {
        if first_at(rows, key, k) {
            assert forall|j: int| 0 <= j < k implies after[j].key() != key by {
                assert(after[j].key() == rows[j].key());
            }
        }
        if first_at(after, key, k) {
            assert forall|j: int| 0 <= j < k implies rows[j].key() != key by {
                assert(after[j].key() == rows[j].key());
            }
        }
    }
    assert forall|key: Seq<char>| #[trigger]
        table(after).dom().contains(key) == expected.dom().contains(key) by {
        if key == row.key() {
            assert(first_at(after, key, i));
        }
    }
    assert forall|key: Seq<char>| #[trigger] expected.dom().contains(key) implies table(after)[key]
        == expected[key] by {
        if key == row.key() {
            lemma_table_at(after, key, i);
        } else {
            let k = choose|k: int| first_at(rows, key, k);
            lemma_table_at(after, key, k);
            lemma_table_at(rows, key, k);
        }
    }
}

} // verus!
