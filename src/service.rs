use vstd::prelude::*;

use crate::error::{Field, KvError};
use crate::storage::{
    after_delete, after_set, lemma_lists_table_reverse, lists_table, opt_view, pairs_view,
    stored, table_of, with_table, Storage, StorageIter, StoreView,
};
use crate::value::{Kvpair, Value};

verus! {

/// Which storage operation a command asks for.
#[derive(Debug, Clone, Copy, PartialEq, Eq, Structural)]
pub enum CommandKind {
    /// GET: the value under a key.
    Hget,
    /// SET: a value under a key.
    Hset,
    /// CONTAINS: whether a key is there.
    Hexist,
    /// DELETE: removes a key.
    Hdel,
    /// GET_ALL: every pair of a table.
    Hgetall,
    /// GET_ITER: every pair of a table, taken from a one-shot sequence.
    Hiter,
}

/// A decoded request. `key` is needed by all kinds but `Hgetall` and
/// `Hiter`, `value` by `Hset` alone; a field that a kind does not need is
/// ignored.
#[derive(Debug)]
pub struct Command {
    pub kind: CommandKind,
    pub table: String,
    pub key: Option<String>,
    pub value: Option<Value>,
}

/// What a served command hands back.
#[derive(Debug, PartialEq)]
pub enum Payload {
    /// A value, or its absence: from `Hget`, `Hset` and `Hdel`.
    Value(Option<Value>),
    /// From `Hexist`.
    Flag(bool),
    /// From `Hgetall` and `Hiter`.
    Pairs(Vec<Kvpair>),
}

/// The single answer to a command.
#[derive(Debug, PartialEq)]
pub enum CommandResponse {
    Success(Payload),
    Failure(KvError),
}

pub open spec fn needs_key(kind: CommandKind) -> bool {
    match kind {
        CommandKind::Hgetall | CommandKind::Hiter => false,
        _ => true,
    }
}

/// The first field that makes the command malformed, if any: an empty
/// table name, a missing or empty key where the kind needs one, or a `Hset`
/// without a value.
pub open spec fn malformation(c: Command) -> Option<Field> {
    if c.table@.len() == 0 {
        Some(Field::Table)
    } else if needs_key(c.kind) && (c.key is None || c.key->Some_0@.len() == 0) {
        Some(Field::Key)
    } else if c.kind == CommandKind::Hset && c.value is None {
        Some(Field::Value)
    } else {
        None
    }
}

/// `r` is a correct answer to the well-formed command `c`, which took the
/// store from `before` to `after`: a failure is a fault of the engine, and a
/// success carries what the matching storage operation returned.
pub open spec fn served(c: Command, before: StoreView, after: StoreView, r: CommandResponse) -> bool {
    let t = c.table@;
    let k = c.key->Some_0@;
    match r {
        CommandResponse::Failure(e) => e is EngineFailure,
        CommandResponse::Success(p) => match c.kind {
            CommandKind::Hget => p matches Payload::Value(v) && opt_view(v) == stored(before, t, k)
                && after == with_table(before, t),
            CommandKind::Hset => p matches Payload::Value(v) && opt_view(v) == stored(before, t, k)
                && after == after_set(before, t, k, c.value->Some_0@),
            CommandKind::Hexist => p matches Payload::Flag(b) && b == table_of(before, t).contains_key(k)
                && after == with_table(before, t),
            CommandKind::Hdel => p matches Payload::Value(v) && opt_view(v) == stored(before, t, k)
                && after == after_delete(before, t, k),
            CommandKind::Hgetall | CommandKind::Hiter => p matches Payload::Pairs(pairs)
                && lists_table(pairs_view(pairs@), table_of(before, t)) && after == with_table(before, t),
        },
    }
}

impl Command {
    pub fn get(table: String, key: String) -> (r: Command)
        ensures
            r == (Command { kind: CommandKind::Hget, table, key: Some(key), value: None }),
    {
        Command { kind: CommandKind::Hget, table, key: Some(key), value: None }
    }

    pub fn set(table: String, key: String, value: Value) -> (r: Command)
        ensures
            r == (Command { kind: CommandKind::Hset, table, key: Some(key), value: Some(value) }),
    {
        Command { kind: CommandKind::Hset, table, key: Some(key), value: Some(value) }
    }

    pub fn contains(table: String, key: String) -> (r: Command)
        ensures
            r == (Command { kind: CommandKind::Hexist, table, key: Some(key), value: None }),
    {
        Command { kind: CommandKind::Hexist, table, key: Some(key), value: None }
    }

    pub fn delete(table: String, key: String) -> (r: Command)
        ensures
            r == (Command { kind: CommandKind::Hdel, table, key: Some(key), value: None }),
    {
        Command { kind: CommandKind::Hdel, table, key: Some(key), value: None }
    }

    pub fn get_all(table: String) -> (r: Command)
        ensures
            r == (Command { kind: CommandKind::Hgetall, table, key: None, value: None }),
    {
        Command { kind: CommandKind::Hgetall, table, key: None, value: None }
    }

    pub fn get_iter(table: String) -> (r: Command)
        ensures
            r == (Command { kind: CommandKind::Hiter, table, key: None, value: None }),
    {
        Command { kind: CommandKind::Hiter, table, key: None, value: None }
    }
}

impl CommandResponse {
    /// The answer to an operation that returns a value or its absence.
    pub fn from_value(result: Result<Option<Value>, KvError>) -> (r: CommandResponse)
        ensures
            result matches Ok(v) ==> r == CommandResponse::Success(Payload::Value(v)),
            result matches Err(e) ==> r == CommandResponse::Failure(e),
    {
        match result {
            Ok(v) => CommandResponse::Success(Payload::Value(v)),
            Err(e) => CommandResponse::Failure(e),
        }
    }

    /// The answer to an operation that returns a flag.
    pub fn from_flag(result: Result<bool, KvError>) -> (r: CommandResponse)
        ensures
            result matches Ok(b) ==> r == CommandResponse::Success(Payload::Flag(b)),
            result matches Err(e) ==> r == CommandResponse::Failure(e),
    {
        match result {
            Ok(b) => CommandResponse::Success(Payload::Flag(b)),
            Err(e) => CommandResponse::Failure(e),
        }
    }

    /// The answer to an operation that returns pairs.
    pub fn from_pairs(result: Result<Vec<Kvpair>, KvError>) -> (r: CommandResponse)
        ensures
            result matches Ok(pairs) ==> r == CommandResponse::Success(Payload::Pairs(pairs)),
            result matches Err(e) ==> r == CommandResponse::Failure(e),
    {
        match result {
            Ok(pairs) => CommandResponse::Success(Payload::Pairs(pairs)),
            Err(e) => CommandResponse::Failure(e),
        }
    }
}

/// Consumes a sequence, gathering its pairs into one batch.
pub fn drain(it: StorageIter) -> (r: Vec<Kvpair>)
    ensures
        pairs_view(r@) == it@.reverse(),
{
    let ghost all = it@;
    let mut it = it;
    let mut pairs: Vec<Kvpair> = Vec::new();
    loop
        invariant
            pairs@.len() + it@.len() == all.len(),
            it@ == all.take(it@.len() as int),
            forall|j: int| 0 <= j < pairs@.len() ==> (#[trigger] pairs@[j])@ == all[all.len() - 1 - j],
        ensures
            pairs@.len() == all.len(),
            forall|j: int| 0 <= j < pairs@.len() ==> (#[trigger] pairs@[j])@ == all[all.len() - 1 - j],
        decreases it@.len(),
    {
        match it.next() {
            Some(p) => {
                pairs.push(p);
            },
            None => {
                break;
            },
        }
    }
    assert(pairs_view(pairs@) =~= all.reverse());
    pairs
}

/// A whole sequence from a storage call, gathered into one batch.
fn drained(result: Result<StorageIter, KvError>) -> (r: Result<Vec<Kvpair>, KvError>)
    ensures
        result matches Ok(it) ==> (r matches Ok(pairs) && pairs_view(pairs@) == it@.reverse()),
        result matches Err(e) ==> r == Err::<Vec<Kvpair>, KvError>(e),
{
    match result {
        Ok(it) => Ok(drain(it)),
        Err(e) => Err(e),
    }
}

fn has_key(key: &Option<String>) -> (r: bool)
    ensures
        r == (key is Some && key->Some_0@.len() > 0),
{
    match key {
        Some(k) => !k.as_str().is_empty(),
        None => false,
    }
}

/// Serves a command against a store, with one storage operation at most.
pub trait CommandService {
    fn execute<S: Storage>(self, store: &mut S) -> CommandResponse;
}

impl CommandService for Command {
    /// A malformed command is answered with the field at fault and leaves the
    /// store as it was; a well-formed one is served by its storage operation.
    fn execute<S: Storage>(self, store: &mut S) -> (r: CommandResponse)
        ensures
            malformation(self) matches Some(f) ==> (r matches CommandResponse::Failure(
                KvError::MalformedRequest(g),
            ) && g == f && final(store).tables() == old(store).tables()),
            malformation(self) is None ==> served(self, old(store).tables(), final(store).tables(), r),
    {
        let ghost c = self;
        let Command { kind, table, key, value } = self;
        if table.as_str().is_empty() {
            return CommandResponse::Failure(KvError::MalformedRequest(Field::Table));
        }
        match kind {
            CommandKind::Hgetall => CommandResponse::from_pairs(store.get_all(table.as_str())),
            CommandKind::Hiter => {
                let scan = store.get_iter(table.as_str());
                let ghost snapshot = scan;
                let result = drained(scan);
                proof {
                    if snapshot is Ok {
                        lemma_lists_table_reverse(snapshot->Ok_0@, table_of(old(store).tables(), table@));
                    }
                }
                CommandResponse::from_pairs(result)
            },
            _ => {
                if !has_key(&key) {
                    return CommandResponse::Failure(KvError::MalformedRequest(Field::Key));
                }
                let key = key.unwrap();
                match kind {
                    CommandKind::Hget => CommandResponse::from_value(store.get(table.as_str(), key.as_str())),
                    CommandKind::Hexist => CommandResponse::from_flag(store.contains(table.as_str(), key.as_str())),
                    CommandKind::Hdel => CommandResponse::from_value(store.del(table.as_str(), key.as_str())),
                    _ => match value {
                        Some(v) => CommandResponse::from_value(store.set(table.as_str(), key, v)),
                        None => CommandResponse::Failure(KvError::MalformedRequest(Field::Value)),
                    },
                }
            },
        }
    }
}

} // verus!
