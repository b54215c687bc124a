use vstd::prelude::*;

use crate::storage::{
    after_delete, after_set, lists_table, stored, table_of, with_table, StoreView,
};
use crate::value::ValueView;

verus! {

/// A value that was set is what a read of the same table and key gives back.
pub proof fn law_get_after_set(s: StoreView, table: Seq<char>, key: Seq<char>, value: ValueView)
    ensures
        stored(after_set(s, table, key, value), table, key) == Some(value),
{
}

/// Setting a key twice: the second set returns the first value, and the
/// store ends as if only the second had been made.
pub proof fn law_overwrite_returns_prior(
    s: StoreView,
    table: Seq<char>,
    key: Seq<char>,
    first: ValueView,
    second: ValueView,
)
    ensures
        stored(after_set(s, table, key, first), table, key) == Some(first),
        after_set(after_set(s, table, key, first), table, key, second) == after_set(s, table, key, second),
{
    let t = table_of(s, table);
    assert(t.insert(key, first).insert(key, second) =~= t.insert(key, second));
    assert(after_set(after_set(s, table, key, first), table, key, second) =~= after_set(s, table, key, second));
}

/// Deleting an absent key returns nothing and leaves the table as it was
/// (creating it if it was new).
pub proof fn law_delete_absent(s: StoreView, table: Seq<char>, key: Seq<char>)
    requires
        stored(s, table, key) is None,
    ensures
        after_delete(s, table, key) == with_table(s, table),
        table_of(after_delete(s, table, key), table) == table_of(s, table),
{
    assert(table_of(s, table).remove(key) =~= table_of(s, table));
    assert(after_delete(s, table, key) =~= with_table(s, table));
}

/// Deleting a present key twice: the first delete returns its value, the
/// second returns nothing and changes nothing.
pub proof fn law_delete_twice(s: StoreView, table: Seq<char>, key: Seq<char>, value: ValueView)
    requires
        stored(s, table, key) == Some(value),
    ensures
        stored(after_delete(s, table, key), table, key) is None,
        after_delete(after_delete(s, table, key), table, key) == after_delete(s, table, key),
{
    let once = after_delete(s, table, key);
    law_delete_absent(once, table, key);
}

/// Creating a table is done once: a second creation changes nothing, and a
/// table that exists is never replaced.
pub proof fn law_table_created_once(s: StoreView, table: Seq<char>)
    ensures
        with_table(with_table(s, table), table) == with_table(s, table),
        with_table(s, table).contains_key(table),
        s.contains_key(table) ==> with_table(s, table)[table] == s[table],
{
}

/// A listing taken before a write to a new key does not hold that key, and
/// no longer lists the table once the write is made.
pub proof fn law_snapshot_isolated(
    s: StoreView,
    table: Seq<char>,
    snapshot: Seq<(Seq<char>, ValueView)>,
    key: Seq<char>,
    value: ValueView,
)
    requires
        lists_table(snapshot, table_of(s, table)),
        !table_of(s, table).contains_key(key),
    ensures
        forall|i: int| 0 <= i < snapshot.len() ==> (#[trigger] snapshot[i]).0 != key,
        !lists_table(snapshot, table_of(after_set(s, table, key, value), table)),
{
    let later = table_of(after_set(s, table, key, value), table);
    assert(later.contains_key(key));
}

/// A write to one table leaves every other table as it was.
pub proof fn law_tables_independent(
    s: StoreView,
    written: Seq<char>,
    other: Seq<char>,
    key: Seq<char>,
    value: ValueView,
)
    requires
        written != other,
    ensures
        table_of(after_set(s, written, key, value), other) == table_of(s, other),
        table_of(after_delete(s, written, key), other) == table_of(s, other),
        table_of(with_table(s, written), other) == table_of(s, other),
{
}

} // verus!
