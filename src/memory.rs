use vstd::prelude::*;

use dashmap::DashMap;

use crate::error::KvError;
use crate::storage::{
    after_delete, after_set, lemma_lists_table_reverse, lists_table, lookup, opt_view, pairs_view,
    table_of, with_table, Storage, StorageIter, StoreView, TableView,
};
use crate::value::{Kvpair, Value, ValueView};

verus! {

/// dashmap's concurrent hash map, opaque to proofs: what one holds is
/// stated through `store_contents`.
#[verifier::external_type_specification]
#[verifier::external_body]
#[verifier::reject_recursive_types(K)]
#[verifier::reject_recursive_types(V)]
#[verifier::reject_recursive_types(S)]
pub struct ExDashMap<K, V, S>(DashMap<K, V, S>);

/// Tables by name, each a map from keys to values.
pub type Tables = DashMap<String, DashMap<String, Value>>;

/// What a map of tables holds: each table's name, with the keys and values of that table.
pub uninterp spec fn store_contents(tables: Tables) -> StoreView;

pub open spec fn entries_view(entries: Seq<(String, Value)>) -> Seq<(Seq<char>, ValueView)> {
    entries.map_values(|e: (String, Value)| (e.0@, e.1@))
}

/// Relies on DashMap::new: a map with no entries.
#[verifier::external_body]
fn tables_new() -> (r: Tables)
    ensures
        store_contents(r) =~= Map::empty(),
{
    DashMap::new()
}

/// Relies on DashMap::contains_key: whether a table of that name exists.
#[verifier::external_body]
fn tables_contain(tables: &Tables, name: &str) -> (r: bool)
    ensures
        r == store_contents(*tables).contains_key(name@),
{
    tables.contains_key(name)
}

/// Relies on DashMap::entry with Entry::or_default: a vacant entry gets an
/// empty table (DashMap's Default), an occupied one is left as it is.
#[verifier::external_body]
fn tables_create(tables: &mut Tables, name: String)
    ensures
        store_contents(*final(tables)) == with_table(store_contents(*old(tables)), name@),
{
    tables.entry(name).or_default();
}

/// Relies on DashMap::get, for the table and then for the key in it, and on
/// Value's Clone: a copy of the value stored under the key, if any.
#[verifier::external_body]
fn table_get(tables: &Tables, name: &str, key: &str) -> (r: Option<Value>)
    requires
        store_contents(*tables).contains_key(name@),
    ensures
        opt_view(r) == lookup(store_contents(*tables)[name@], key@),
{
    match tables.get(name) {
        Some(table) => match table.get(key) {
            Some(v) => Some(v.value().clone()),
            None => None,
        },
        None => None,
    }
}

/// Relies on DashMap::get for the table and DashMap::insert in it: the key
/// now holds the value, and the value it held before is returned.
#[verifier::external_body]
fn table_insert(
    tables: &mut Tables,
    name: &str,
    key: String,
    value: Value,
) -> (r: Option<Value>)
    requires
        store_contents(*old(tables)).contains_key(name@),
    ensures
        opt_view(r) == lookup(store_contents(*old(tables))[name@], key@),
        store_contents(*final(tables)) == after_set(store_contents(*old(tables)), name@, key@, value@),
{
    match tables.get(name) {
        Some(table) => table.insert(key, value),
        None => None,
    }
}

/// Relies on DashMap::get for the table and DashMap::contains_key in it.
#[verifier::external_body]
fn table_contains(tables: &Tables, name: &str, key: &str) -> (r: bool)
    requires
        store_contents(*tables).contains_key(name@),
    ensures
        r == store_contents(*tables)[name@].contains_key(key@),
{
    match tables.get(name) {
        Some(table) => table.contains_key(key),
        None => false,
    }
}

/// Relies on DashMap::get for the table and DashMap::remove in it: the key
/// is gone, and the value it held is returned.
#[verifier::external_body]
fn table_remove(tables: &mut Tables, name: &str, key: &str) -> (r: Option<Value>)
    requires
        store_contents(*old(tables)).contains_key(name@),
    ensures
        opt_view(r) == lookup(store_contents(*old(tables))[name@], key@),
        store_contents(*final(tables)) == after_delete(store_contents(*old(tables)), name@, key@),
{
    match tables.get(name) {
        Some(table) => table.remove(key).map(|(_k, v)| v),
        None => None,
    }
}

/// Relies on DashMap::get for the table and DashMap::iter over it, which
/// visits each entry once: copies of all its keys and values.
#[verifier::external_body]
fn table_entries(tables: &Tables, name: &str) -> (r: Vec<(String, Value)>)
    requires
        store_contents(*tables).contains_key(name@),
    ensures
        lists_table(entries_view(r@), store_contents(*tables)[name@]),
{
    match tables.get(name) {
        Some(table) => table.iter().map(|e| (e.key().clone(), e.value().clone())).collect(),
        None => Vec::new(),
    }
}

/// Storage in memory: a concurrent map from table names to tables, each
/// table a concurrent map from keys to values.
#[derive(Debug)]
pub struct MemTable {
    tables: Tables,
}

impl View for MemTable {
    type V = StoreView;

    closed spec fn view(&self) -> StoreView {
        store_contents(self.tables)
    }
}

impl MemTable {
    pub fn new() -> (r: MemTable)
        ensures
            r@ == Map::<Seq<char>, TableView>::empty(),
    {
        MemTable { tables: tables_new() }
    }

    /// Makes sure that the table `name` exists, empty if it is new.
    fn get_or_create_table(&mut self, name: &str)
        ensures
            final(self)@ == with_table(old(self)@, name@),
            final(self)@.contains_key(name@),
    {
        if !tables_contain(&self.tables, name) {
            tables_create(&mut self.tables, name.to_owned());
        }
    }
}

impl Default for MemTable {
    fn default() -> (r: MemTable)
        ensures
            r@ == Map::<Seq<char>, TableView>::empty(),
    {
        MemTable::new()
    }
}

/// Turns copied entries into pairs, taking them from the back.
fn into_pairs(entries: Vec<(String, Value)>) -> (r: Vec<Kvpair>)
    ensures
        pairs_view(r@) == entries_view(entries@).reverse(),
{
    let ghost all = entries_view(entries@);
    let ghost n = entries@.len();
    let mut entries = entries;
    let mut pairs: Vec<Kvpair> = Vec::new();
    while entries.len() > 0
        invariant
            pairs@.len() + entries@.len() == n,
            all.len() == n,
            forall|i: int| 0 <= i < entries@.len() ==> (#[trigger] entries@[i]).0@ == all[i].0 && entries@[i].1@ == all[i].1,
            forall|j: int| 0 <= j < pairs@.len() ==> (#[trigger] pairs@[j])@ == all[n - 1 - j],
        decreases entries@.len(),
    {
        let e = entries.pop().unwrap();
        pairs.push(Kvpair::from(e));
    }
    assert(pairs_view(pairs@) =~= all.reverse());
    pairs
}

impl Storage for MemTable {
    open spec fn tables(&self) -> StoreView {
        self@
    }

    fn get(&mut self, table: &str, key: &str) -> (r: Result<Option<Value>, KvError>)
        ensures
            r is Ok,
    {
        self.get_or_create_table(table);
        Ok(table_get(&self.tables, table, key))
    }

    fn set(&mut self, table: &str, key: String, value: Value) -> (r: Result<Option<Value>, KvError>)
        ensures
            r is Ok,
    {
        self.get_or_create_table(table);
        let prior = table_insert(&mut self.tables, table, key, value);
        assert(self@ =~= after_set(old(self)@, table@, key@, value@));
        Ok(prior)
    }

    fn contains(&mut self, table: &str, key: &str) -> (r: Result<bool, KvError>)
        ensures
            r is Ok,
    {
        self.get_or_create_table(table);
        Ok(table_contains(&self.tables, table, key))
    }

    fn del(&mut self, table: &str, key: &str) -> (r: Result<Option<Value>, KvError>)
        ensures
            r is Ok,
    {
        self.get_or_create_table(table);
        let prior = table_remove(&mut self.tables, table, key);
        assert(self@ =~= after_delete(old(self)@, table@, key@));
        Ok(prior)
    }

    fn get_all(&mut self, table: &str) -> (r: Result<Vec<Kvpair>, KvError>)
        ensures
            r is Ok,
    {
        self.get_or_create_table(table);
        let entries = table_entries(&self.tables, table);
        let pairs = into_pairs(entries);
        proof {
            lemma_lists_table_reverse(entries_view(entries@), table_of(old(self)@, table@));
        }
        Ok(pairs)
    }

    fn get_iter(&mut self, table: &str) -> (r: Result<StorageIter, KvError>)
        ensures
            r is Ok,
    {
        self.get_or_create_table(table);
        let entries = table_entries(&self.tables, table);
        let ghost listed = entries_view(entries@);
        let pairs = into_pairs(entries);
        proof {
            lemma_lists_table_reverse(listed, table_of(old(self)@, table@));
        }
        Ok(StorageIter::new(pairs))
    }
}

} // verus!
