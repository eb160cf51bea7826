//! A read-mostly configuration store.
//!
//! Named sources hold JSON text; the store parses each source once, caches
//! the resulting document for the life of the process, and answers typed,
//! dot-path-addressed queries into the cached trees. Many readers may query
//! concurrently; a first load for a name runs under the store's exclusive
//! lock, and an entry, once made, is never changed.

use vstd::prelude::*;
use vstd::rwlock::{RwLock, RwLockPredicate};

pub mod extract;
pub mod json;
pub mod node;
pub mod path;
pub mod source;
pub mod table;

use extract::FromDocument;
use node::Node;
use source::SourceReader;
use table::{typed_answer, Table};

verus! {

/// Why a source could not be turned into a cached document.
#[derive(Clone, Copy, Debug, PartialEq, Eq, Structural)]
pub enum ConfigError {
    /// No content could be obtained for the requested source name.
    SourceUnavailable,
    /// Content was obtained but is not well-formed JSON.
    MalformedSource,
}

/// An abstract directory of configuration texts, for callers that hand the
/// store's surroundings out behind an interface of their own.
pub trait ConfigModule {
    /// The text filed under `name`, if any.
    fn get(&self, name: &str) -> Option<&str>;
}

/// What every table inside a store satisfies, readers and writer alike.
pub struct TableInv {}

impl RwLockPredicate<Table> for TableInv {
    open spec fn inv(self, t: Table) -> bool {
        t.wf()
    }
}

/// The shared cache: one table of documents behind a reader-writer lock.
/// Readers check and query entries together; a first load for a name holds
/// the lock exclusively while it fetches, parses and inserts.
pub struct ConfigStore {
    lock: RwLock<Table, TableInv>,
}

impl ConfigStore {
    /// A store with no cached documents.
    pub fn new() -> ConfigStore {
        ConfigStore { lock: RwLock::new(Table::new(), Ghost(TableInv {})) }
    }
}

/// A lightweight handle to one named document in a store. It owns no data;
/// every query resolves through the store it is given.
pub struct Config {
    name: String,
}

impl Config {
    /// The source name this handle is bound to.
    pub closed spec fn id(&self) -> Seq<char> {
        self.name@
    }

    /// Bind a handle to `name`, loading the source through `reader` if no
    /// document for `name` is cached yet: an optimistic check under the
    /// shared lock, then, only when absent, a re-check, fetch, parse and
    /// insert under the exclusive lock. A failed load caches nothing and is
    /// reported to this caller alone.
    pub fn new<S: SourceReader>(store: &ConfigStore, name: &str, reader: &S) -> (r: Result<
        Config,
        ConfigError,
    >)
        ensures
            r matches Ok(c) ==> c.id() == name@,
    {
        let read = store.lock.acquire_read();
        let present = read.borrow().contains(name);
        read.release_read();
        if !present {
            let (mut table, write) = store.lock.acquire_write();
            let outcome = table.ensure(name, reader);
            write.release_write(table);
            if let Err(e) = outcome {
                return Err(e);
            }
        }
        Ok(Config { name: name.to_owned() })
    }

    /// The value at `path` in this handle's document, extracted as a `T`.
    /// `None` uniformly when the document holds no such path or the terminal
    /// node does not have the requested shape. The result is the typed
    /// answer owed by the table this call observes under the shared lock;
    /// reads never mutate the store.
    pub fn get<T: FromDocument>(&self, store: &ConfigStore, path: &str) -> (r: Option<T>)
        ensures
            exists|m: Map<Seq<char>, Node>| #[trigger] typed_answer::<T>(m, self.id(), path@, r),
    {
        let read = store.lock.acquire_read();
        let r = read.borrow().get::<T>(self.name.as_str(), path);
        proof {
            assert(typed_answer::<T>(read.view()@, self.id(), path@, r));
        }
        read.release_read();
        r
    }
}

} // verus!
