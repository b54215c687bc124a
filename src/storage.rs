use vstd::prelude::*;

use crate::error::KvError;
use crate::value::{Kvpair, Value, ValueView};

verus! {

/// The contents of one table: keys to values.
pub type TableView = Map<Seq<char>, ValueView>;

/// The contents of a store: the tables that exist, by name.
pub type StoreView = Map<Seq<char>, TableView>;

/// The value under `key` in table `t`, if there is one.
pub open spec fn lookup(t: TableView, key: Seq<char>) -> Option<ValueView> {
    if t.contains_key(key) {
        Some(t[key])
    } else {
        None
    }
}

/// The table of that name; a table not created yet reads as empty.
pub open spec fn table_of(s: StoreView, name: Seq<char>) -> TableView {
    if s.contains_key(name) {
        s[name]
    } else {
        Map::empty()
    }
}

/// The store once the table of that name exists: an unknown name gets an empty table.
pub open spec fn with_table(s: StoreView, name: Seq<char>) -> StoreView {
    if s.contains_key(name) {
        s
    } else {
        s.insert(name, Map::empty())
    }
}

/// The value stored under `key` in table `name`.
pub open spec fn stored(s: StoreView, name: Seq<char>, key: Seq<char>) -> Option<ValueView> {
    lookup(table_of(s, name), key)
}

/// The store after `value` is set under `key` in table `name`.
pub open spec fn after_set(s: StoreView, name: Seq<char>, key: Seq<char>, value: ValueView) -> StoreView {
    s.insert(name, table_of(s, name).insert(key, value))
}

/// The store after `key` is deleted from table `name`.
pub open spec fn after_delete(s: StoreView, name: Seq<char>, key: Seq<char>) -> StoreView {
    s.insert(name, table_of(s, name).remove(key))
}

pub open spec fn opt_view(o: Option<Value>) -> Option<ValueView> {
    match o {
        Some(v) => Some(v@),
        None => None,
    }
}

pub open spec fn pairs_view(pairs: Seq<Kvpair>) -> Seq<(Seq<char>, ValueView)> {
    pairs.map_values(|p: Kvpair| p@)
}

/// `pairs` holds each entry of `t` exactly once, in some order.
pub open spec fn lists_table(pairs: Seq<(Seq<char>, ValueView)>, t: TableView) -> bool {
    &&& forall|i: int| 0 <= i < pairs.len() ==> t.contains_key(#[trigger] pairs[i].0) && t[pairs[i].0] == pairs[i].1
    &&& forall|i: int, j: int| 0 <= i < j < pairs.len() ==> pairs[i].0 != pairs[j].0
    &&& forall|k: Seq<char>| #[trigger] t.contains_key(k) ==> exists|i: int| 0 <= i < pairs.len() && pairs[i].0 == k
}

/// Listing a table backwards still lists it.
pub proof fn lemma_lists_table_reverse(s: Seq<(Seq<char>, ValueView)>, t: TableView)
    requires
        lists_table(s, t),
    ensures
        lists_table(s.reverse(), t),
{
    let r = s.reverse();
    assert forall|i: int| 0 <= i < r.len() implies t.contains_key(#[trigger] r[i].0) && t[r[i].0] == r[i].1 by {
        assert(r[i] == s[s.len() - 1 - i]);
    }
    assert forall|i: int, j: int| 0 <= i < j < r.len() implies r[i].0 != r[j].0 by {
        assert(r[i] == s[s.len() - 1 - i]);
        assert(r[j] == s[s.len() - 1 - j]);
    }
    assert forall|k: Seq<char>| #[trigger] t.contains_key(k) implies exists|i: int| 0 <= i < r.len() && r[i].0 == k by {
        let i = choose|i: int| 0 <= i < s.len() && s[i].0 == k;
        assert(r[s.len() - 1 - i] == s[i]);
    }
}

/// A one-shot sequence over a copy of a table taken when it was made:
/// later writes to the table do not reach it.
pub struct StorageIter {
    items: Vec<Kvpair>,
}

impl View for StorageIter {
    type V = Seq<(Seq<char>, ValueView)>;

    /// The pairs not handed out yet; `next` takes them from the end.
    closed spec fn view(&self) -> Seq<(Seq<char>, ValueView)> {
        pairs_view(self.items@)
    }
}

impl StorageIter {
    pub fn new(items: Vec<Kvpair>) -> (r: StorageIter)
        ensures
            r@ == pairs_view(items@),
    {
        StorageIter { items }
    }

    /// Hands out the next pair, or `None` once all have been handed out.
    pub fn next(&mut self) -> (r: Option<Kvpair>)
        ensures
            old(self)@.len() == 0 ==> r is None && final(self)@ == old(self)@,
            old(self)@.len() > 0 ==> (r matches Some(p) && p@ == old(self)@.last()
                && final(self)@ == old(self)@.drop_last()),
    {
        let r = self.items.pop();
        proof {
            if old(self).items@.len() > 0 {
                assert(self@ =~= old(self)@.drop_last());
            }
        }
        r
    }
}

/// The operations that a storage engine offers. A call that returns `Ok`
/// has done its work; an engine that can fail reports the fault as
/// `KvError::EngineFailure`. Every call creates the table it names if it
/// does not exist yet.
pub trait Storage {
    /// The tables that exist, with their contents.
    spec fn tables(&self) -> StoreView;

    /// The value under `key` in `table`.
    fn get(&mut self, table: &str, key: &str) -> (r: Result<Option<Value>, KvError>)
        ensures
            r matches Ok(v) ==> opt_view(v) == stored(old(self).tables(), table@, key@)
                && final(self).tables() == with_table(old(self).tables(), table@),
            r matches Err(e) ==> e is EngineFailure,
    ;

    /// Sets `value` under `key` in `table`; returns the value it replaced.
    fn set(&mut self, table: &str, key: String, value: Value) -> (r: Result<Option<Value>, KvError>)
        ensures
            r matches Ok(v) ==> opt_view(v) == stored(old(self).tables(), table@, key@)
                && final(self).tables() == after_set(old(self).tables(), table@, key@, value@),
            r matches Err(e) ==> e is EngineFailure,
    ;

    /// Whether `table` holds `key`.
    fn contains(&mut self, table: &str, key: &str) -> (r: Result<bool, KvError>)
        ensures
            r matches Ok(b) ==> b == table_of(old(self).tables(), table@).contains_key(key@)
                && final(self).tables() == with_table(old(self).tables(), table@),
            r matches Err(e) ==> e is EngineFailure,
    ;

    /// Removes `key` from `table`; returns the value it held.
    fn del(&mut self, table: &str, key: &str) -> (r: Result<Option<Value>, KvError>)
        ensures
            r matches Ok(v) ==> opt_view(v) == stored(old(self).tables(), table@, key@)
                && final(self).tables() == after_delete(old(self).tables(), table@, key@),
            r matches Err(e) ==> e is EngineFailure,
    ;

    /// Every pair of `table`, in no particular order.
    fn get_all(&mut self, table: &str) -> (r: Result<Vec<Kvpair>, KvError>)
        ensures
            r matches Ok(pairs) ==> lists_table(pairs_view(pairs@), table_of(old(self).tables(), table@))
                && final(self).tables() == with_table(old(self).tables(), table@),
            r matches Err(e) ==> e is EngineFailure,
    ;

    /// A one-shot sequence over the pairs that `table` holds now.
    fn get_iter(&mut self, table: &str) -> (r: Result<StorageIter, KvError>)
        ensures
            r matches Ok(it) ==> lists_table(it@, table_of(old(self).tables(), table@))
                && final(self).tables() == with_table(old(self).tables(), table@),
            r matches Err(e) ==> e is EngineFailure,
    ;
}

} // verus!
