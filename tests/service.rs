use kv::{
    drain, Command, CommandKind, CommandResponse, CommandService, Field, KvError, Kvpair,
    MemTable, Payload, Storage, StorageIter, Value,
};

fn s(x: &str) -> String {
    x.to_string()
}

fn malformed(f: Field) -> CommandResponse {
    CommandResponse::Failure(KvError::MalformedRequest(f))
}

#[test]
fn users_scenario() {
    let mut store = MemTable::new();
    let r = Command::set(s("users"), s("alice"), Value::Str(s("admin"))).execute(&mut store);
    assert_eq!(r, CommandResponse::Success(Payload::Value(None)));
    let r = Command::get(s("users"), s("alice")).execute(&mut store);
    assert_eq!(r, CommandResponse::Success(Payload::Value(Some(Value::Str(s("admin"))))));
    let r = Command::get(s("users"), s("bob")).execute(&mut store);
    assert_eq!(r, CommandResponse::Success(Payload::Value(None)));
    let r = Command::contains(s("users"), s("alice")).execute(&mut store);
    assert_eq!(r, CommandResponse::Success(Payload::Flag(true)));
}

#[test]
fn set_returns_prior_and_delete_removes() {
    let mut store = MemTable::new();
    Command::set(s("t"), s("k"), Value::Integer(1)).execute(&mut store);
    let r = Command::set(s("t"), s("k"), Value::Integer(2)).execute(&mut store);
    assert_eq!(r, CommandResponse::Success(Payload::Value(Some(Value::Integer(1)))));
    let r = Command::delete(s("t"), s("k")).execute(&mut store);
    assert_eq!(r, CommandResponse::Success(Payload::Value(Some(Value::Integer(2)))));
    let r = Command::delete(s("t"), s("k")).execute(&mut store);
    assert_eq!(r, CommandResponse::Success(Payload::Value(None)));
    let r = Command::contains(s("t"), s("k")).execute(&mut store);
    assert_eq!(r, CommandResponse::Success(Payload::Flag(false)));
}

fn pairs_of(r: CommandResponse) -> Vec<Kvpair> {
    match r {
        CommandResponse::Success(Payload::Pairs(mut p)) => {
            p.sort_by(|a, b| a.key.cmp(&b.key));
            p
        }
        other => panic!("not a pair list: {:?}", other),
    }
}

#[test]
fn get_all_and_get_iter_return_the_table() {
    let mut store = MemTable::new();
    Command::set(s("t"), s("b"), Value::Integer(2)).execute(&mut store);
    Command::set(s("t"), s("a"), Value::Integer(1)).execute(&mut store);
    let want = vec![
        Kvpair::new(s("a"), Value::Integer(1)),
        Kvpair::new(s("b"), Value::Integer(2)),
    ];
    assert_eq!(pairs_of(Command::get_all(s("t")).execute(&mut store)), want);
    assert_eq!(pairs_of(Command::get_iter(s("t")).execute(&mut store)), want);
    assert_eq!(pairs_of(Command::get_iter(s("empty")).execute(&mut store)), vec![]);
}

#[test]
fn empty_table_name_is_malformed() {
    let mut store = MemTable::new();
    assert_eq!(Command::get(s(""), s("k")).execute(&mut store), malformed(Field::Table));
    assert_eq!(Command::get_all(s("")).execute(&mut store), malformed(Field::Table));
}

#[test]
fn missing_or_empty_key_is_malformed() {
    let mut store = MemTable::new();
    let no_key = Command { kind: CommandKind::Hget, table: s("t"), key: None, value: None };
    assert_eq!(no_key.execute(&mut store), malformed(Field::Key));
    assert_eq!(Command::delete(s("t"), s("")).execute(&mut store), malformed(Field::Key));
    assert_eq!(Command::contains(s("t"), s("")).execute(&mut store), malformed(Field::Key));
}

#[test]
fn set_without_value_is_malformed() {
    let mut store = MemTable::new();
    let c = Command { kind: CommandKind::Hset, table: s("t"), key: Some(s("k")), value: None };
    assert_eq!(c.execute(&mut store), malformed(Field::Value));
    assert_eq!(store.contains("t", "k"), Ok(false));
}

#[test]
fn malformed_command_leaves_store_alone() {
    let mut store = MemTable::new();
    store.set("t", s("k"), Value::Integer(1)).unwrap();
    Command::set(s("t"), s(""), Value::Integer(9)).execute(&mut store);
    assert_eq!(store.get_all("t").unwrap(), vec![Kvpair::new(s("k"), Value::Integer(1))]);
}

#[test]
fn key_is_ignored_by_table_commands() {
    let mut store = MemTable::new();
    store.set("t", s("k"), Value::Bool(true)).unwrap();
    let c = Command { kind: CommandKind::Hgetall, table: s("t"), key: Some(s("x")), value: None };
    assert_eq!(pairs_of(c.execute(&mut store)), vec![Kvpair::new(s("k"), Value::Bool(true))]);
}

#[test]
fn engine_errors_pass_through() {
    let e = || Err(KvError::EngineFailure(s("disk gone")));
    assert_eq!(
        CommandResponse::from_value(e()),
        CommandResponse::Failure(KvError::EngineFailure(s("disk gone")))
    );
    assert_eq!(
        CommandResponse::from_flag(Err(KvError::EngineFailure(s("x")))),
        CommandResponse::Failure(KvError::EngineFailure(s("x")))
    );
    assert_eq!(
        CommandResponse::from_pairs(Err(KvError::EngineFailure(s("y")))),
        CommandResponse::Failure(KvError::EngineFailure(s("y")))
    );
    assert_eq!(
        CommandResponse::from_flag(Ok(true)),
        CommandResponse::Success(Payload::Flag(true))
    );
}

#[test]
fn drain_takes_every_pair() {
    let it = StorageIter::new(vec![
        Kvpair::new(s("a"), Value::Integer(1)),
        Kvpair::new(s("b"), Value::Integer(2)),
    ]);
    assert_eq!(
        drain(it),
        vec![Kvpair::new(s("b"), Value::Integer(2)), Kvpair::new(s("a"), Value::Integer(1))]
    );
}

#[test]
fn error_messages() {
    assert_eq!(
        KvError::MalformedRequest(Field::Table).message(),
        "malformed request: no table name"
    );
    assert_eq!(KvError::MalformedRequest(Field::Key).message(), "malformed request: no key");
    assert_eq!(KvError::MalformedRequest(Field::Value).message(), "malformed request: no value");
    assert_eq!(KvError::EngineFailure(s("disk gone")).message(), "disk gone");
}
