//! The protocol by which a record moves from one backend to another.
//!
//! Two backends cannot commit together, so a move works through one
//! transaction on each: it reads the record in the source transaction, inserts
//! it in the destination transaction, deletes it in the source transaction,
//! commits the destination and then the source. The first call that fails ends
//! the move, and the transactions that are still open are rolled back. Only a
//! failure of the last commit leaves a trace: the record is then in both
//! backends.

use vstd::prelude::*;
use crate::store::{Store, Transaction, World};

verus! {

/// The call was made and succeeded.
pub open spec fn succeeded<A, E>(call: Option<Result<A, E>>) -> bool {
    call is Some && call->Some_0 is Ok
}

/// The call was made and failed.
pub open spec fn failed<A, E>(call: Option<Result<A, E>>) -> bool {
    call is Some && call->Some_0 is Err
}

/// What the calls of one move answered, `None` where the move did not come to
/// make the call. The answers to the rollbacks are kept though the move does
/// not act on them.
pub struct MoveLog<T, E, F> {
    pub begin_source: Result<F, E>,
    pub fetch: Option<Result<World, E>>,
    pub begin_destination: Option<Result<F, E>>,
    pub insert: Option<Result<Option<T>, E>>,
    pub delete: Option<Result<Option<T>, E>>,
    pub commit_destination: Option<Result<(), E>>,
    pub commit_source: Option<Result<(), E>>,
    pub rollback_source: Option<Result<(), E>>,
    pub rollback_destination: Option<Result<(), E>>,
}

impl<T, E, F: Transaction<T, E>> MoveLog<T, E, F> {
    /// The log of a move that has made its first call and no other.
    pub open spec fn begun(begin_source: Result<F, E>) -> Self {
        MoveLog {
            begin_source,
            fetch: None,
            begin_destination: None,
            insert: None,
            delete: None,
            commit_destination: None,
            commit_source: None,
            rollback_source: None,
            rollback_destination: None,
        }
    }

    /// Each call is made if and only if the call before it succeeded.
    pub open spec fn in_order(self) -> bool {
        &&& self.fetch is Some <==> self.begin_source is Ok
        &&& self.begin_destination is Some <==> succeeded(self.fetch)
        &&& self.insert is Some <==> succeeded(self.begin_destination)
        &&& self.delete is Some <==> succeeded(self.insert)
        &&& self.commit_destination is Some <==> succeeded(self.delete)
        &&& self.commit_source is Some <==> succeeded(self.commit_destination)
    }

    /// The source transaction is rolled back when a call fails while it is
    /// open, the destination transaction likewise. A transaction whose own
    /// commit failed is over and is not rolled back.
    pub open spec fn compensated(self) -> bool {
        &&& self.rollback_source is Some <==> {
            ||| failed(self.fetch)
            ||| failed(self.begin_destination)
            ||| failed(self.insert)
            ||| failed(self.delete)
            ||| failed(self.commit_destination)
        }
        &&& self.rollback_destination is Some <==> {
            ||| failed(self.insert)
            ||| failed(self.delete)
        }
    }

    /// Each answer is one that the backend or transaction may give to the call
    /// that the protocol makes at that point: reads, deletes and the last
    /// commit go to the transaction on `source`, the insert of the record that
    /// was read and the first commit to the transaction on `destination`.
    pub open spec fn answered_by<S, D>(self, source: &S, destination: &D, name: Seq<char>) -> bool
        where S: Store<T, E, F> + ?Sized, D: Store<T, E, F> + ?Sized
    {
        &&& source.may_begin(self.begin_source)
        &&& self.fetch matches Some(g) ==> {
            &&& self.begin_source->Ok_0.may_get(name, g)
            &&& g matches Ok(w) ==> w.name@ == name
        }
        &&& self.begin_destination matches Some(b) ==> destination.may_begin(b)
        &&& self.insert matches Some(i) ==> self.begin_destination->Some_0->Ok_0.may_insert(
            self.fetch->Some_0->Ok_0,
            i,
        )
        &&& self.delete matches Some(d) ==> self.begin_source->Ok_0.may_delete(
            self.fetch->Some_0->Ok_0.name@,
            d,
        )
        &&& self.commit_destination matches Some(c)
            ==> self.begin_destination->Some_0->Ok_0.may_commit(c)
        &&& self.commit_source matches Some(c) ==> self.begin_source->Ok_0.may_commit(c)
        &&& self.rollback_source matches Some(c) ==> self.begin_source->Ok_0.may_rollback(c)
        &&& self.rollback_destination matches Some(c)
            ==> self.begin_destination->Some_0->Ok_0.may_rollback(c)
    }

    /// The log is one of a move of the record `name` from `source` to
    /// `destination`.
    pub open spec fn follows<S, D>(self, source: &S, destination: &D, name: Seq<char>) -> bool
        where S: Store<T, E, F> + ?Sized, D: Store<T, E, F> + ?Sized
    {
        &&& self.in_order()
        &&& self.compensated()
        &&& self.answered_by(source, destination, name)
    }

    /// The error of the call that ended the move, if one failed.
    pub open spec fn failure(self) -> Option<E> {
        match self.begin_source {
            Err(e) => Some(e),
            Ok(_) => match self.fetch {
                Some(Err(e)) => Some(e),
                _ => match self.begin_destination {
                    Some(Err(e)) => Some(e),
                    _ => match self.insert {
                        Some(Err(e)) => Some(e),
                        _ => match self.delete {
                            Some(Err(e)) => Some(e),
                            _ => match self.commit_destination {
                                Some(Err(e)) => Some(e),
                                _ => match self.commit_source {
                                    Some(Err(e)) => Some(e),
                                    _ => None,
                                },
                            },
                        },
                    },
                },
            },
        }
    }

    /// What the move returns: the error of the first call that failed, and
    /// success without a value when none did. What the rollbacks answered has
    /// no part in it.
    pub open spec fn outcome(self) -> Result<Option<T>, E> {
        match self.failure() {
            Some(e) => Err(e),
            None => Ok(None),
        }
    }
}

/// A move ends every transaction that it opened, by a commit or by a
/// rollback and never by both, whatever fails on the way.
pub proof fn lemma_move_ends_its_transactions<T, E, F: Transaction<T, E>>(log: MoveLog<T, E, F>)
    requires
        log.in_order(),
        log.compensated(),
    ensures
        log.begin_source is Ok ==> (log.commit_source is Some) != (log.rollback_source is Some),
        succeeded(log.begin_destination) ==> (log.commit_destination is Some) != (
        log.rollback_destination is Some),
        log.begin_source is Err ==> log.commit_source is None && log.rollback_source is None,
        !succeeded(log.begin_destination) ==> log.commit_destination is None
            && log.rollback_destination is None,
{
}

/// Nothing is committed before the record has been inserted in the
/// destination and deleted in the source, and the source commits only after
/// the destination has committed.
pub proof fn lemma_commits_come_last<T, E, F: Transaction<T, E>>(log: MoveLog<T, E, F>)
    requires
        log.in_order(),
        log.compensated(),
    ensures
        log.commit_destination is Some ==> succeeded(log.insert) && succeeded(log.delete),
        log.commit_source is Some ==> succeeded(log.commit_destination),
{
}

/// A move succeeds if and only if each of its seven calls succeeded, and it
/// then rolls nothing back.
pub proof fn lemma_move_succeeds_when_all_calls_do<T, E, F: Transaction<T, E>>(
    log: MoveLog<T, E, F>,
)
    requires
        log.in_order(),
        log.compensated(),
    ensures
        log.outcome() is Ok <==> succeeded(log.commit_source),
        log.outcome() is Ok ==> {
            &&& log.begin_source is Ok
            &&& succeeded(log.fetch)
            &&& succeeded(log.begin_destination)
            &&& succeeded(log.insert)
            &&& succeeded(log.delete)
            &&& succeeded(log.commit_destination)
            &&& log.rollback_source is None
            &&& log.rollback_destination is None
        },
{
}

/// A move that fails has committed in neither backend, with one exception:
/// when the commit on the source fails, the destination has committed
/// already, and the record is then in both.
pub proof fn lemma_failed_move_commits_nothing_but_at_the_end<T, E, F: Transaction<T, E>>(
    log: MoveLog<T, E, F>,
)
    requires
        log.in_order(),
        log.compensated(),
        log.outcome() is Err,
    ensures
        !succeeded(log.commit_source),
        succeeded(log.commit_destination) <==> failed(log.commit_source),
{
}

} // verus!
