//! The registry of backends.

use vstd::prelude::*;
use vstd::hash_map::StringHashMap;
use crate::store::{Read, Store, Transaction, World, Write};
use crate::store::error::InternalError;
use crate::store::relocation::MoveLog;

verus! {

/// The backends of a program, each under the name it was registered with.
#[verifier::reject_recursive_types(T)]
#[verifier::reject_recursive_types(E)]
#[verifier::reject_recursive_types(F)]
pub struct WordLibrary<T, E, F> where F: Transaction<T, InternalError<E>> {
    stores: StringHashMap<Slot<T, E, F>>,
}

/// One entry of the registry: the backend behind a name.
#[verifier::reject_recursive_types(T)]
#[verifier::reject_recursive_types(E)]
#[verifier::reject_recursive_types(F)]
pub struct Slot<T, E, F> where F: Transaction<T, InternalError<E>> {
    pub store: Box<dyn Store<T, InternalError<E>, F>>,
}

impl<T, E, F: Transaction<T, InternalError<E>>> WordLibrary<T, E, F> {
    /// The names under which a backend is registered.
    pub closed spec fn names(&self) -> Set<Seq<char>> {
        self.stores@.dom()
    }

    /// The entry under `key`, where `key` is one of the names.
    pub closed spec fn slot(&self, key: Seq<char>) -> Slot<T, E, F> {
        self.stores@[key]
    }

    /// Whether a backend is registered under `key`.
    pub open spec fn has(&self, key: Seq<char>) -> bool {
        self.names().contains(key)
    }

    /// A registry without backends.
    pub fn new() -> (r: Self)
        ensures
            r.names() == Set::<Seq<char>>::empty(),
    {
        WordLibrary { stores: StringHashMap::new() }
    }

    /// Registers `store` under `key`. A backend registered under that name
    /// before is dropped; the other names keep their backends.
    pub fn register(&mut self, key: String, store: Box<dyn Store<T, InternalError<E>, F>>)
        ensures
            final(self).names() == old(self).names().insert(key@),
            final(self).slot(key@) == (Slot { store }),
            forall|other: Seq<char>|
                other != key@ ==> #[trigger] final(self).slot(other) == old(self).slot(other),
    {
        let ghost before = self.stores@;
        let ghost slot = Slot { store };
        self.stores.insert(key, Slot { store });
        proof {
            // The solver does not apply the map axioms to a value that holds
            // a trait object by itself.
            vstd::map::axiom_map_insert_domain(before, key@, slot);
            vstd::map::axiom_map_insert_same(before, key@, slot);
            assert forall|other: Seq<char>| other != key@ implies self.stores@[other]
                == before[other] by {
                vstd::map::axiom_map_insert_different(before, other, key@, slot);
            }
        }
    }

    /// The backend registered under `key`.
    pub fn get_store(&self, key: &str) -> (r: Result<
        &Box<dyn Store<T, InternalError<E>, F>>,
        InternalError<E>,
    >)
        ensures
            match r {
                Ok(s) => self.has(key@) && *s == self.slot(key@).store,
                Err(e) => !self.has(key@) && e == InternalError::<E>::StoreNotFound,
            },
    {
        match self.stores.get(key) {
            Some(s) => Ok(&s.store),
            None => Err(InternalError::StoreNotFound),
        }
    }

    /// Stores `word` in the backend registered under `key`.
    pub fn insert(&self, word: &World, key: &str) -> (r: Result<Option<T>, InternalError<E>>)
        ensures
            if self.has(key@) {
                self.slot(key@).store.may_insert(*word, r)
            } else {
                r == Err::<Option<T>, InternalError<E>>(InternalError::StoreNotFound)
            },
    {
        let s = self.get_store(key)?;
        s.insert(word)
    }

    /// Replaces the content of `word` in the backend registered under `key`.
    pub fn update(&self, word: &World, key: &str) -> (r: Result<Option<T>, InternalError<E>>)
        ensures
            if self.has(key@) {
                self.slot(key@).store.may_update(*word, r)
            } else {
                r == Err::<Option<T>, InternalError<E>>(InternalError::StoreNotFound)
            },
    {
        let s = self.get_store(key)?;
        s.update(word)
    }

    /// Removes the record `name` from the backend registered under `key`.
    pub fn delete(&self, name: &str, key: &str) -> (r: Result<Option<T>, InternalError<E>>)
        ensures
            if self.has(key@) {
                self.slot(key@).store.may_delete(name@, r)
            } else {
                r == Err::<Option<T>, InternalError<E>>(InternalError::StoreNotFound)
            },
    {
        let s = self.get_store(key)?;
        s.delete(name)
    }

    /// The record `name` of the backend registered under `key`.
    pub fn get(&self, name: &str, key: &str) -> (r: Result<World, InternalError<E>>)
        ensures
            if self.has(key@) {
                &&& self.slot(key@).store.may_get(name@, r)
                &&& r matches Ok(w) ==> w.name@ == name@
            } else {
                r == Err::<World, InternalError<E>>(InternalError::StoreNotFound)
            },
    {
        match self.stores.get(key) {
            Some(s) => s.store.get(name),
            None => Err(InternalError::StoreNotFound),
        }
    }

    /// The records of the backend registered under `key`: all of them when
    /// `size <= 0`, at most `size` of them otherwise.
    pub fn list(&self, size: i64, key: &str) -> (r: Result<Vec<World>, InternalError<E>>)
        ensures
            if self.has(key@) {
                &&& self.slot(key@).store.may_list(size, r)
                &&& r matches Ok(v) ==> size > 0 ==> v.len() <= size
            } else {
                r == Err::<Vec<World>, InternalError<E>>(InternalError::StoreNotFound)
            },
    {
        match self.stores.get(key) {
            Some(s) => s.store.list(size),
            None => Err(InternalError::StoreNotFound),
        }
    }

    /// Whether `r` is a result of moving the record `name` from the backend
    /// `src` to the backend `dst`: the outcome of a run of the move protocol
    /// on the two backends, or `StoreNotFound` when one of the names is not
    /// registered.
    pub open spec fn moved(
        &self,
        name: Seq<char>,
        src: Seq<char>,
        dst: Seq<char>,
        r: Result<Option<T>, InternalError<E>>,
    ) -> bool {
        if self.has(src) && self.has(dst) {
            exists|log: MoveLog<T, InternalError<E>, F>|
                {
                    &&& #[trigger] log.follows(
                        &*self.slot(src).store,
                        &*self.slot(dst).store,
                        name,
                    )
                    &&& r == log.outcome()
                }
        } else {
            r == Err::<Option<T>, InternalError<E>>(InternalError::StoreNotFound)
        }
    }

    /// Moves the record `name` from the backend `src` to the backend `dst`.
    ///
    /// The two backends commit one after the other. When the commit on `src`
    /// fails after the commit on `dst` has succeeded, the error is returned
    /// and the record stays in both backends.
    pub fn move_to(&self, name: &str, src: &str, dst: &str) -> (r: Result<
        Option<T>,
        InternalError<E>,
    >)
        ensures
            self.moved(name@, src@, dst@, r),
    {
        let s = self.get_store(src)?;
        let d = self.get_store(dst)?;
        let ghost mut log;

        let t0 = match s.begin() {
            Ok(t) => t,
            Err(err) => {
                proof {
                    log = MoveLog::begun(Err(err));
                    assert(log.follows(&*self.slot(src@).store, &*self.slot(dst@).store, name@));
                }
                return Err(err);
            },
        };
        proof {
            log = MoveLog::begun(Ok(t0));
        }

        let word = match t0.get(name) {
            Ok(w) => w,
            Err(err) => {
                let undone = t0.rollback();
                proof {
                    log = MoveLog { fetch: Some(Err(err)), rollback_source: Some(undone), ..log };
                    assert(log.follows(&*self.slot(src@).store, &*self.slot(dst@).store, name@));
                }
                return Err(err);
            },
        };
        proof {
            log = MoveLog { fetch: Some(Ok(word)), ..log };
        }

        let t1 = match d.begin() {
            Ok(t) => t,
            Err(err) => {
                let undone = t0.rollback();
                proof {
                    log = MoveLog {
                        begin_destination: Some(Err(err)),
                        rollback_source: Some(undone),
                        ..log
                    };
                    assert(log.follows(&*self.slot(src@).store, &*self.slot(dst@).store, name@));
                }
                return Err(err);
            },
        };
        proof {
            log = MoveLog { begin_destination: Some(Ok(t1)), ..log };
        }

        match t1.insert(&word) {
            Ok(stored) => {
                proof {
                    log = MoveLog { insert: Some(Ok(stored)), ..log };
                }
            },
            Err(err) => {
                let undone = t0.rollback();
                let dropped = t1.rollback();
                proof {
                    log = MoveLog {
                        insert: Some(Err(err)),
                        rollback_source: Some(undone),
                        rollback_destination: Some(dropped),
                        ..log
                    };
                    assert(log.follows(&*self.slot(src@).store, &*self.slot(dst@).store, name@));
                }
                return Err(err);
            },
        }

        match t0.delete(word.name.as_str()) {
            Ok(removed) => {
                proof {
                    log = MoveLog { delete: Some(Ok(removed)), ..log };
                }
            },
            Err(err) => {
                let undone = t0.rollback();
                let dropped = t1.rollback();
                proof {
                    log = MoveLog {
                        delete: Some(Err(err)),
                        rollback_source: Some(undone),
                        rollback_destination: Some(dropped),
                        ..log
                    };
                    assert(log.follows(&*self.slot(src@).store, &*self.slot(dst@).store, name@));
                }
                return Err(err);
            },
        }

        // Once the destination has committed, the record is there for good.
        let sealed = t1.commit();
        proof {
            log = MoveLog { commit_destination: Some(sealed), ..log };
        }
        if let Err(err) = sealed {
            let undone = t0.rollback();
            proof {
                log = MoveLog { rollback_source: Some(undone), ..log };
                assert(log.follows(&*self.slot(src@).store, &*self.slot(dst@).store, name@));
            }
            return Err(err);
        }

        // A failure here leaves the record in both backends.
        let committed = t0.commit();
        proof {
            log = MoveLog { commit_source: Some(committed), ..log };
            assert(log.follows(&*self.slot(src@).store, &*self.slot(dst@).store, name@));
        }
        match committed {
            Ok(()) => Ok(None),
            Err(err) => Err(err),
        }
    }
}

} // verus!
