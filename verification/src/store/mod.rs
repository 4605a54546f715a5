//! The record, the capabilities every backend offers, and the registry.

use vstd::prelude::*;

pub mod decimal;
pub mod error;
pub mod library;
pub mod relocation;

pub use self::error::{InternalError, StoreError};
pub use self::library::WordLibrary;

verus! {

/// A record: `name` identifies it within one backend, `message` is its content.
#[derive(Debug)]
pub struct World {
    pub name: String,
    pub message: String,
}

/// Reading from a backend or from a transaction on it.
///
/// What a backend holds lives outside the program, behind `&self`, and may
/// change between two calls. A contract therefore cannot speak of contents.
/// Each operation instead comes with a relation, `may_*`, that says which
/// answers the implementation can give to a call with given arguments; callers
/// state their own results through these relations. An implementation that
/// does not define a relation promises nothing through it: every answer is
/// then one that it may give.
pub trait Read<T, E> {
    /// Whether `r` is an answer that `get` may give for the key `id`.
    open spec fn may_get(&self, id: Seq<char>, r: Result<World, E>) -> bool {
        true
    }

    /// Whether `r` is an answer that `list` may give for the limit `size`.
    open spec fn may_list(&self, size: i64, r: Result<Vec<World>, E>) -> bool {
        true
    }

    /// The record stored under `id`. A record that is returned carries the
    /// key that was asked for.
    fn get(&self, id: &str) -> (r: Result<World, E>)
        ensures
            self.may_get(id@, r),
            r matches Ok(w) ==> w.name@ == id@,
    ;

    /// The records of the backend, in an order that the backend chooses: all
    /// of them when `size <= 0`, at most `size` of them otherwise.
    fn list(&self, size: i64) -> (r: Result<Vec<World>, E>)
        ensures
            self.may_list(size, r),
            r matches Ok(v) ==> size > 0 ==> v.len() <= size,
    ;
}

/// Writing to a backend or to a transaction on it.
pub trait Write<T, E> {
    /// Whether `r` is an answer that `insert` may give for `word`.
    open spec fn may_insert(&self, word: World, r: Result<Option<T>, E>) -> bool {
        true
    }

    /// Whether `r` is an answer that `update` may give for `word`.
    open spec fn may_update(&self, word: World, r: Result<Option<T>, E>) -> bool {
        true
    }

    /// Whether `r` is an answer that `delete` may give for the key `word`.
    open spec fn may_delete(&self, word: Seq<char>, r: Result<Option<T>, E>) -> bool {
        true
    }

    /// Stores a new record; fails when its key is already taken.
    fn insert(&self, word: &World) -> (r: Result<Option<T>, E>)
        ensures
            self.may_insert(*word, r),
    ;

    /// Replaces the content stored under the record's key; no record is
    /// created when the key is absent.
    fn update(&self, word: &World) -> (r: Result<Option<T>, E>)
        ensures
            self.may_update(*word, r),
    ;

    /// Removes the record stored under the key `word`, if there is one.
    fn delete(&self, word: &str) -> (r: Result<Option<T>, E>)
        ensures
            self.may_delete(word@, r),
    ;
}

/// A transaction on one backend. Committing or rolling back consumes it, so a
/// finished transaction cannot be used again.
pub trait Transaction<T, E>: Write<T, E> + Read<T, E> {
    /// Whether `r` is an answer that `rollback` may give.
    open spec fn may_rollback(&self, r: Result<(), E>) -> bool {
        true
    }

    /// Whether `r` is an answer that `commit` may give.
    open spec fn may_commit(&self, r: Result<(), E>) -> bool {
        true
    }

    /// Discards what was written through this transaction.
    fn rollback(self) -> (r: Result<(), E>)
        ensures
            self.may_rollback(r),
    ;

    /// Makes what was written through this transaction visible to others.
    fn commit(self) -> (r: Result<(), E>)
        ensures
            self.may_commit(r),
    ;
}

/// A backend: it reads, writes, and opens transactions of the type `F`.
pub trait Store<T, E, F: Transaction<T, E>>: Write<T, E> + Read<T, E> {
    /// Whether `r` is an answer that `begin` may give.
    open spec fn may_begin(&self, r: Result<F, E>) -> bool {
        true
    }

    /// Opens a transaction that works on the same medium through a handle of
    /// its own.
    fn begin(&self) -> (r: Result<F, E>)
        ensures
            self.may_begin(r),
    ;
}

} // verus!
