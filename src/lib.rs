//! An in-memory key-value store: values grouped in lazily created tables,
//! a storage interface with a concurrent map behind it, and a command layer
//! that turns requests into storage calls and responses.

mod error;
mod laws;
mod memory;
mod service;
mod storage;
mod value;

pub use error::{message_of, Field, KvError};
pub use laws::{
    law_delete_absent, law_delete_twice, law_get_after_set, law_overwrite_returns_prior,
    law_snapshot_isolated, law_table_created_once, law_tables_independent,
};
pub use memory::MemTable;
pub use service::{
    drain, malformation, needs_key, served, Command, CommandKind, CommandResponse, CommandService,
    Payload,
};
pub use storage::{
    after_delete, after_set, lists_table, lookup, opt_view, pairs_view, stored, table_of,
    with_table, Storage, StorageIter, StoreView, TableView,
};
pub use value::{Kvpair, Value, ValueView};
