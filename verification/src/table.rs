//! Lists of rows with distinct keys, read as maps from key to value.
//!
//! Registry and router keep their entries in a vector and speak of them as
//! a map. This module holds what the two share: the reading of a list as a
//! map, and what pushing, changing and removing a row does to that map.
use vstd::prelude::*;

verus! {

/// A row of a table: something with a key that stands for a value.
pub trait Row: Sized {
    /// What the row stands for.
    type Value;

    /// The key of the row.
    spec fn key(self) -> u64;

    /// What the row stands for.
    spec fn value(self) -> Self::Value;

    /// The key of the row.
    fn id(&self) -> (r: u64)
        ensures
            r == self.key(),
    ;
}

/// True where some row has the key.
pub open spec fn has_key<R: Row>(rows: Seq<R>, key: u64) -> bool {
    exists|i: int| 0 <= i < rows.len() && (#[trigger] rows[i]).key() == key
}

/// A place where the key stands, if it stands anywhere.
pub open spec fn position<R: Row>(rows: Seq<R>, key: u64) -> int {
    choose|i: int| 0 <= i < rows.len() && (#[trigger] rows[i]).key() == key
}

/// True where no two rows share a key.
pub open spec fn distinct<R: Row>(rows: Seq<R>) -> bool {
    forall|i: int, j: int|
        0 <= i < j < rows.len() ==> (#[trigger] rows[i]).key() != (#[trigger] rows[j]).key()
}

/// The rows as a map from each key to the value of its row.
pub open spec fn table<R: Row>(rows: Seq<R>) -> Map<u64, R::Value> {
    Map::new(|key: u64| has_key(rows, key), |key: u64| rows[position(rows, key)].value())
}

/// Every row is found under its key.
pub proof fn lemma_row<R: Row>(rows: Seq<R>, i: int)
    requires
        distinct(rows),
        0 <= i < rows.len(),
    ensures
        table(rows).contains_key(rows[i].key()),
        table(rows)[rows[i].key()] == rows[i].value(),
        position(rows, rows[i].key()) == i,
{
    let key = rows[i].key();
    assert(has_key(rows, key));
    let p = position(rows, key);
    assert(p == i) by {
        if p < i {
            assert(rows[p].key() != rows[i].key());
        } else if i < p {
            assert(rows[i].key() != rows[p].key());
        }
    }
}

/// Pushing a row with a new key inserts its value.
pub proof fn lemma_pushed<R: Row>(rows: Seq<R>, row: R)
    requires
        distinct(rows),
        !has_key(rows, row.key()),
    ensures
        distinct(rows.push(row)),
        table(rows.push(row)) == table(rows).insert(row.key(), row.value()),
{
    let after = rows.push(row);
    let target = table(rows).insert(row.key(), row.value());
    assert forall|i: int, j: int| 0 <= i < j < after.len() implies (#[trigger] after[i]).key() != (
    #[trigger] after[j]).key() by {
        if j == rows.len() {
            assert(rows[i].key() != row.key());
        } else {
            assert(rows[i].key() != rows[j].key());
        }
    }
    assert forall|key: u64| #[trigger] table(after).contains_key(key) <==> target.contains_key(
        key,
    ) by {
        if has_key(after, key) {
            let p = position(after, key);
            if p < rows.len() {
                assert(rows[p].key() == key);
            }
        }
        if has_key(rows, key) {
            let p = position(rows, key);
            assert(after[p].key() == key);
        }
        if key == row.key() {
            assert(after[rows.len() as int].key() == key);
        }
    }
    assert forall|key: u64| #[trigger] table(after).contains_key(key) implies table(after)[key]
        == target[key] by {
        let p = position(after, key);
        lemma_row(after, p);
        if p < rows.len() {
            assert(rows[p] == after[p]);
            lemma_row(rows, p);
        }
    }
    assert(table(after) =~= target);
}

/// Removing a row removes its key.
pub proof fn lemma_removed<R: Row>(rows: Seq<R>, i: int)
    requires
        distinct(rows),
        0 <= i < rows.len(),
    ensures
        distinct(rows.remove(i)),
        table(rows.remove(i)) == table(rows).remove(rows[i].key()),
{
    let after = rows.remove(i);
    let target = table(rows).remove(rows[i].key());
    assert forall|a: int| 0 <= a < after.len() implies #[trigger] after[a] == rows[if a < i {
        a
    } else {
        a + 1
    }] by {}
    assert forall|a: int, b: int| 0 <= a < b < after.len() implies (#[trigger] after[a]).key() != (
    #[trigger] after[b]).key() by {
        let a0 = if a < i { a } else { a + 1 };
        let b0 = if b < i { b } else { b + 1 };
        assert(rows[a0].key() != rows[b0].key());
    }
    assert forall|key: u64| #[trigger] table(after).contains_key(key) <==> target.contains_key(
        key,
    ) by {
        if has_key(after, key) {
            let p = position(after, key);
            let p0 = if p < i { p } else { p + 1 };
            assert(rows[p0].key() == key);
            if p0 < i {
                assert(rows[p0].key() != rows[i].key());
            } else {
                assert(rows[i].key() != rows[p0].key());
            }
        }
        if has_key(rows, key) && key != rows[i].key() {
            let p = position(rows, key);
            let q = if p < i { p } else { p - 1 };
            assert(after[q].key() == key);
        }
    }
    assert forall|key: u64| #[trigger] table(after).contains_key(key) implies table(after)[key]
        == target[key] by {
        let p = position(after, key);
        let p0 = if p < i { p } else { p + 1 };
        lemma_row(after, p);
        lemma_row(rows, p0);
    }
    assert(table(after) =~= target);
}

/// Changing values in place changes the map value by value: where two lists
/// hold the same keys in the same places and each value after is what
/// `change` makes of the value before, the map after is the map before with
/// `change` applied to every value.
pub proof fn lemma_changed<R: Row>(
    before: Seq<R>,
    after: Seq<R>,
    change: spec_fn(u64, R::Value) -> R::Value,
)
    requires
        distinct(before),
        after.len() == before.len(),
        forall|k: int| 0 <= k < before.len() ==> (#[trigger] after[k]).key() == before[k].key(),
        forall|k: int|
            0 <= k < before.len() ==> (#[trigger] after[k]).value() == change(
                before[k].key(),
                before[k].value(),
            ),
    ensures
        distinct(after),
        table(after) == Map::new(
            |key: u64| table(before).contains_key(key),
            |key: u64| change(key, table(before)[key]),
        ),
{
    assert forall|a: int, b: int| 0 <= a < b < after.len() implies (#[trigger] after[a]).key() != (
    #[trigger] after[b]).key() by {
        assert(before[a].key() != before[b].key());
    }
    let target = Map::new(
        |key: u64| table(before).contains_key(key),
        |key: u64| change(key, table(before)[key]),
    );
    assert forall|key: u64| #[trigger] table(after).contains_key(key) <==> target.contains_key(
        key,
    ) by {
        if has_key(after, key) {
            let p = position(after, key);
            assert(before[p].key() == key);
        }
        if has_key(before, key) {
            let p = position(before, key);
            assert(after[p].key() == key);
        }
    }
    assert forall|key: u64| #[trigger] table(after).contains_key(key) implies table(after)[key]
        == target[key] by {
        let p = position(after, key);
        lemma_row(after, p);
        lemma_row(before, p);
    }
    assert(table(after) =~= target);
}

/// A table has as many keys as rows.
pub proof fn lemma_size<R: Row>(rows: Seq<R>)
    requires
        distinct(rows),
    ensures
        table(rows).dom().finite(),
        table(rows).dom().len() == rows.len(),
    decreases rows.len(),
{
    if rows.len() == 0 {
        assert(table(rows).dom() =~= Set::<u64>::empty());
    } else {
        let last = rows.len() - 1;
        let front = rows.remove(last);
        lemma_removed(rows, last);
        lemma_size(front);
        lemma_row(rows, last);
        assert(table(rows).dom() =~= table(front).dom().insert(rows[last].key()));
    }
}

/// Finds the place of a key.
pub fn find<R: Row>(rows: &Vec<R>, key: u64) -> (r: Option<usize>)
    ensures
        match r {
            Some(i) => i < rows@.len() && rows@[i as int].key() == key,
            None => !has_key(rows@, key),
        },
{
    let mut i: usize = 0;
    while i < rows.len()
        invariant
            i <= rows@.len(),
            forall|k: int| 0 <= k < i ==> (#[trigger] rows@[k]).key() != key,
        decreases rows@.len() - i,
    {
        if rows[i].id() == key {
            return Some(i);
        }
        i += 1;
    }
    None
}

} // verus!
