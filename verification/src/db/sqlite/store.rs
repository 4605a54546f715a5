//! The backend itself and its transactions.

use vstd::prelude::*;
use vstd::string::StringExecFns;
use crate::db::sqlite::{is_too_long, lift, too_long, Result};
use crate::db::sqlite::request::{text_fits, Argument, ArgumentView, Request};
use crate::db::sqlite::engine::{
    bind_integer, bind_text, execute, no_flags, open_with_flags, prepare, read_text, set_create,
    set_read_write, step, Step,
};
use crate::store::{InternalError, Read, Store, Transaction as StoreTransaction, World, Write};

verus! {

/// The table that holds the records of a backend.
pub const LIBNAME: &'static str = "library";

/// The statement that makes the table where the database has none.
pub open spec fn create_sql() -> Seq<char> {
    "CREATE TABLE IF NOT EXISTS "@ + LIBNAME@ + " (key TEXT PRIMARY KEY, value TEXT NOT NULL)"@
}

/// The statement that stores a record: key first, content second.
pub open spec fn insert_sql() -> Seq<char> {
    "INSERT INTO "@ + LIBNAME@ + " (key, value) VALUES (?, ?);"@
}

/// The statement that removes the record of a key.
pub open spec fn delete_sql() -> Seq<char> {
    "DELETE FROM "@ + LIBNAME@ + " WHERE key=?"@
}

/// The statement that replaces the content of a key: content first, key
/// second.
pub open spec fn update_sql() -> Seq<char> {
    "UPDATE "@ + LIBNAME@ + " SET value=? WHERE key=?;"@
}

/// The statement that reads the content of a key.
pub open spec fn get_sql() -> Seq<char> {
    "SELECT value FROM "@ + LIBNAME@ + " WHERE key=?"@
}

/// The statement that reads every record.
pub open spec fn dump_sql() -> Seq<char> {
    "SELECT key, value from "@ + LIBNAME@
}

/// The statement that reads records up to a number.
pub open spec fn dump_size_sql() -> Seq<char> {
    "SELECT key, value from "@ + LIBNAME@ + " LIMIT ?"@
}

/// The statement that starts a transaction.
pub open spec fn begin_sql() -> Seq<char> {
    "BEGIN"@
}

/// The statement that makes the writes of a transaction last.
pub open spec fn commit_sql() -> Seq<char> {
    "COMMIT"@
}

/// The statement that discards the writes of a transaction.
pub open spec fn rollback_sql() -> Seq<char> {
    "ROLLBACK"@
}

/// How many rows `list` takes for the limit `size`: `size` of them where it
/// is positive, else as many as a vector holds.
pub open spec fn row_limit(size: i64) -> int {
    if 0 < size <= usize::MAX {
        size as int
    } else {
        usize::MAX as int
    }
}

/// The answers of a read of one key: the record under that key, that there is
/// none, or a failure of SQLite. A key that is too long is refused before
/// SQLite is asked.
pub open spec fn read_answer(id: Seq<char>, r: Result<World>) -> bool {
    if text_fits(id) {
        match r {
            Ok(w) => w.name@ == id,
            Err(e) => e is NotFound || e.from_medium(),
        }
    } else {
        r matches Err(e) && is_too_long(e)
    }
}

/// The answers of a listing with the limit `size`: no more records than the
/// limit allows, or a failure of SQLite.
pub open spec fn list_answer(size: i64, r: Result<Vec<World>>) -> bool {
    match r {
        Ok(v) => v.len() <= row_limit(size),
        Err(e) => e.from_medium(),
    }
}

/// The answers of a write whose texts fit or do not: success without a value,
/// or a failure of SQLite. A text that is too long is refused before SQLite is
/// asked.
pub open spec fn write_answer(fits: bool, r: Result<Option<World>>) -> bool {
    if fits {
        match r {
            Ok(stored) => stored is None,
            Err(e) => e.from_medium(),
        }
    } else {
        r matches Err(e) && is_too_long(e)
    }
}

/// The answers of a statement that ends a transaction: success, or a failure
/// of SQLite.
pub open spec fn end_answer(r: Result<()>) -> bool {
    r matches Err(e) ==> e.from_medium()
}

/// A backend on the SQLite database at one path. It keeps one connection for
/// its own reads and writes; each transaction gets a connection of its own.
pub struct Sqlite {
    _path: String,
    connect: ::sqlite::Connection,
    _insert_stmt: String,
    _delete_stmt: String,
    _update_stmt: String,
    _get_stmt: String,
    _dump_stmt: String,
    _dump_size_stmt: String,
}

impl Sqlite {
    /// The statements of a backend are the fixed texts above: none is ever
    /// put together from what a caller passes in.
    #[verifier::type_invariant]
    spec fn statements_fixed(&self) -> bool {
        &&& self._insert_stmt@ == insert_sql()
        &&& self._delete_stmt@ == delete_sql()
        &&& self._update_stmt@ == update_sql()
        &&& self._get_stmt@ == get_sql()
        &&& self._dump_stmt@ == dump_sql()
        &&& self._dump_size_stmt@ == dump_size_sql()
    }

    /// The path of the database that this backend works on.
    pub closed spec fn location(&self) -> Seq<char> {
        self._path@
    }

    /// The statement that `new` runs to make the table.
    pub fn create_statement() -> (sql: String)
        ensures
            sql@ == create_sql(),
    {
        String::from_str("CREATE TABLE IF NOT EXISTS ").concat(LIBNAME).concat(
            " (key TEXT PRIMARY KEY, value TEXT NOT NULL)",
        )
    }

    fn create_table(&self) -> (r: Result<()>)
        ensures
            r matches Err(e) ==> e.from_medium(),
    {
        lift(execute(&self.connect, Sqlite::create_statement().as_str()))
    }

    /// Opens the database at `path`, creating the file and the table where
    /// they are missing.
    pub fn new(path: String) -> (r: Result<Sqlite>)
        ensures
            match r {
                Ok(s) => s.location() == path@,
                Err(e) => e.from_medium(),
            },
    {
        let s = Sqlite::new_conn(path)?;
        s.create_table()?;
        Ok(s)
    }

    fn new_conn(path: String) -> (r: Result<Sqlite>)
        ensures
            match r {
                Ok(s) => s.location() == path@,
                Err(e) => e.from_medium(),
            },
    {
        let con = lift(open_with_flags(path.as_str(), set_create(set_read_write(no_flags()))))?;
        let s = Sqlite {
            connect: con,
            _path: path,
            _insert_stmt: String::from_str("INSERT INTO ").concat(LIBNAME).concat(
                " (key, value) VALUES (?, ?);",
            ),
            _delete_stmt: String::from_str("DELETE FROM ").concat(LIBNAME).concat(" WHERE key=?"),
            _update_stmt: String::from_str("UPDATE ").concat(LIBNAME).concat(
                " SET value=? WHERE key=?;",
            ),
            _get_stmt: String::from_str("SELECT value FROM ").concat(LIBNAME).concat(
                " WHERE key=?",
            ),
            _dump_stmt: String::from_str("SELECT key, value from ").concat(LIBNAME),
            _dump_size_stmt: String::from_str("SELECT key, value from ").concat(LIBNAME).concat(
                " LIMIT ?",
            ),
        };
        Ok(s)
    }

    /// What `insert` asks of SQLite for `word`.
    pub fn insert_request<'a>(&'a self, word: &'a World) -> (q: Request<'a>)
        ensures
            q.asks(
                insert_sql(),
                seq![ArgumentView::Text(word.name@), ArgumentView::Text(word.message@)],
            ),
            q.fits() <==> text_fits(word.name@) && text_fits(word.message@),
    {
        proof {
            use_type_invariant(self);
        }
        let mut arguments = Vec::new();
        arguments.push(Argument::Text(word.name.as_str()));
        arguments.push(Argument::Text(word.message.as_str()));
        let q = Request { sql: self._insert_stmt.as_str(), arguments };
        assert(q.bound() =~= seq![
            ArgumentView::Text(word.name@),
            ArgumentView::Text(word.message@),
        ]);
        assert(q.fits() ==> q.bound()[0].fits() && q.bound()[1].fits());
        q
    }

    /// What `update` asks of SQLite for `word`.
    pub fn update_request<'a>(&'a self, word: &'a World) -> (q: Request<'a>)
        ensures
            q.asks(
                update_sql(),
                seq![ArgumentView::Text(word.message@), ArgumentView::Text(word.name@)],
            ),
            q.fits() <==> text_fits(word.name@) && text_fits(word.message@),
    {
        proof {
            use_type_invariant(self);
        }
        let mut arguments = Vec::new();
        arguments.push(Argument::Text(word.message.as_str()));
        arguments.push(Argument::Text(word.name.as_str()));
        let q = Request { sql: self._update_stmt.as_str(), arguments };
        assert(q.bound() =~= seq![
            ArgumentView::Text(word.message@),
            ArgumentView::Text(word.name@),
        ]);
        assert(q.fits() ==> q.bound()[0].fits() && q.bound()[1].fits());
        q
    }

    /// What `delete` asks of SQLite for the key `word`.
    pub fn delete_request<'a>(&'a self, word: &'a str) -> (q: Request<'a>)
        ensures
            q.asks(delete_sql(), seq![ArgumentView::Text(word@)]),
            q.fits() <==> text_fits(word@),
    {
        proof {
            use_type_invariant(self);
        }
        let mut arguments = Vec::new();
        arguments.push(Argument::Text(word));
        let q = Request { sql: self._delete_stmt.as_str(), arguments };
        assert(q.bound() =~= seq![ArgumentView::Text(word@)]);
        assert(q.fits() ==> q.bound()[0].fits());
        q
    }

    /// What `get` asks of SQLite for the key `id`.
    pub fn get_request<'a>(&'a self, id: &'a str) -> (q: Request<'a>)
        ensures
            q.asks(get_sql(), seq![ArgumentView::Text(id@)]),
            q.fits() <==> text_fits(id@),
    {
        proof {
            use_type_invariant(self);
        }
        let mut arguments = Vec::new();
        arguments.push(Argument::Text(id));
        let q = Request { sql: self._get_stmt.as_str(), arguments };
        assert(q.bound() =~= seq![ArgumentView::Text(id@)]);
        assert(q.fits() ==> q.bound()[0].fits());
        q
    }

    /// What `list` asks of SQLite for the limit `size`: every record where
    /// `size` is not positive, else no more than `size` of them.
    pub fn list_request<'a>(&'a self, size: i64) -> (q: Request<'a>)
        ensures
            size <= 0 ==> q.asks(dump_sql(), Seq::<ArgumentView>::empty()),
            size > 0 ==> q.asks(dump_size_sql(), seq![ArgumentView::Integer(size as int)]),
            q.fits(),
    {
        proof {
            use_type_invariant(self);
        }
        let mut arguments = Vec::new();
        if size <= 0 {
            let q = Request { sql: self._dump_stmt.as_str(), arguments };
            assert(q.bound() =~= Seq::<ArgumentView>::empty());
            q
        } else {
            arguments.push(Argument::Integer(size));
            let q = Request { sql: self._dump_size_stmt.as_str(), arguments };
            assert(q.bound() =~= seq![ArgumentView::Integer(size as int)]);
            q
        }
    }

    /// Prepares the statement of `request` on the connection of this backend
    /// and binds its values. A request with a text that is too long is
    /// refused before SQLite is asked.
    fn ready<'c>(&'c self, request: &Request<'_>) -> (r: Result<::sqlite::Statement<'c>>)
        ensures
            match r {
                Ok(_) => request.fits(),
                Err(e) => if request.fits() {
                    e.from_medium()
                } else {
                    is_too_long(e)
                },
            },
    {
        if !request.can_bind() {
            return Err(too_long());
        }
        let mut stmt = lift(prepare(&self.connect, request.sql))?;
        let mut i: usize = 0;
        while i < request.arguments.len()
            invariant
                i <= request.arguments.len(),
                request.fits(),
            decreases request.arguments.len() - i,
        {
            assert(request.bound()[i as int].fits());
            stmt = match &request.arguments[i] {
                Argument::Text(value) => lift(bind_text(stmt, i + 1, value))?,
                Argument::Integer(value) => lift(bind_integer(stmt, i + 1, *value))?,
            };
            i += 1;
        }
        Ok(stmt)
    }

    /// The answer to `get` for the key `id` once the statement has taken its
    /// step: the record with the content of the row where there is one, else
    /// that there is no such record.
    pub fn found(id: &str, row: Option<String>) -> (r: Result<World>)
        ensures
            match row {
                Some(message) => r matches Ok(w) && w.name@ == id@ && w.message == message,
                None => r matches Err(e) && e is NotFound,
            },
    {
        match row {
            Some(message) => Ok(World { name: String::from_str(id), message }),
            None => Err(InternalError::NotFound),
        }
    }

    /// The record that `list` makes of one row: the first column is the key,
    /// the second the content.
    pub fn listed(key: String, value: String) -> (w: World)
        ensures
            w.name == key,
            w.message == value,
    {
        World { name: key, message: value }
    }

    /// The statement that `begin` runs on the connection of the transaction.
    pub fn begin_statement() -> (sql: &'static str)
        ensures
            sql@ == begin_sql(),
    {
        "BEGIN"
    }

    /// The number of rows at which `list` stops for the limit `size`.
    pub fn row_cap(size: i64) -> (cap: usize)
        ensures
            cap == row_limit(size),
    {
        if size <= 0 {
            usize::MAX
        } else if size as u64 > usize::MAX as u64 {
            usize::MAX
        } else {
            size as usize
        }
    }
}

impl Write<World, InternalError<::sqlite::Error>> for Sqlite {
    open spec fn may_insert(&self, word: World, r: Result<Option<World>>) -> bool {
        write_answer(text_fits(word.name@) && text_fits(word.message@), r)
    }

    open spec fn may_update(&self, word: World, r: Result<Option<World>>) -> bool {
        write_answer(text_fits(word.name@) && text_fits(word.message@), r)
    }

    open spec fn may_delete(&self, word: Seq<char>, r: Result<Option<World>>) -> bool {
        write_answer(text_fits(word), r)
    }

    fn insert(&self, word: &World) -> (r: Result<Option<World>>) {
        let mut stmt = self.ready(&self.insert_request(word))?;
        lift(step(&mut stmt))?;
        Ok(None)
    }

    fn update(&self, word: &World) -> (r: Result<Option<World>>) {
        let mut stmt = self.ready(&self.update_request(word))?;
        lift(step(&mut stmt))?;
        Ok(None)
    }

    fn delete(&self, word: &str) -> (r: Result<Option<World>>) {
        let mut stmt = self.ready(&self.delete_request(word))?;
        lift(step(&mut stmt))?;
        Ok(None)
    }
}

impl Read<World, InternalError<::sqlite::Error>> for Sqlite {
    open spec fn may_get(&self, id: Seq<char>, r: Result<World>) -> bool {
        read_answer(id, r)
    }

    open spec fn may_list(&self, size: i64, r: Result<Vec<World>>) -> bool {
        list_answer(size, r)
    }

    fn get(&self, id: &str) -> (r: Result<World>) {
        let mut stmt = self.ready(&self.get_request(id))?;
        match lift(step(&mut stmt))? {
            Step::Done => Sqlite::found(id, None),
            Step::Row => Sqlite::found(id, Some(lift(read_text(&stmt, 0))?)),
        }
    }

    fn list(&self, size: i64) -> (r: Result<Vec<World>>) {
        let cap = Sqlite::row_cap(size);
        let mut stmt = self.ready(&self.list_request(size))?;

        let mut res: Vec<World> = Vec::new();
        while res.len() < cap
            invariant
                res.len() <= cap,
            decreases cap - res.len(),
        {
            match lift(step(&mut stmt))? {
                Step::Done => {
                    break ;
                },
                Step::Row => {
                    let key = lift(read_text(&stmt, 0))?;
                    let value = lift(read_text(&stmt, 1))?;
                    res.push(Sqlite::listed(key, value));
                },
            }
        }

        Ok(res)
    }
}

impl Store<World, InternalError<::sqlite::Error>, Tansaction> for Sqlite {
    open spec fn may_begin(&self, r: Result<Tansaction>) -> bool {
        match r {
            Ok(t) => t.stmt.location() == self.location(),
            Err(e) => e.from_medium(),
        }
    }

    fn begin(&self) -> (r: Result<Tansaction>) {
        let s = Sqlite::new_conn(String::from_str(self._path.as_str()))?;
        {
            let mut state = lift(prepare(&s.connect, Sqlite::begin_statement()))?;
            lift(step(&mut state))?;
        }

        Ok(Tansaction { stmt: s })
    }
}

/// A transaction on an SQLite backend: a second connection to the same
/// database, on which a transaction has been started.
pub struct Tansaction {
    pub stmt: Sqlite,
}

impl Tansaction {
    /// The statement that `commit` runs.
    pub fn commit_statement() -> (sql: &'static str)
        ensures
            sql@ == commit_sql(),
    {
        "COMMIT"
    }

    /// The statement that `rollback` runs.
    pub fn rollback_statement() -> (sql: &'static str)
        ensures
            sql@ == rollback_sql(),
    {
        "ROLLBACK"
    }
}

impl Read<World, InternalError<::sqlite::Error>> for Tansaction {
    open spec fn may_get(&self, id: Seq<char>, r: Result<World>) -> bool {
        read_answer(id, r)
    }

    open spec fn may_list(&self, size: i64, r: Result<Vec<World>>) -> bool {
        list_answer(size, r)
    }

    fn get(&self, id: &str) -> (r: Result<World>) {
        self.stmt.get(id)
    }

    fn list(&self, size: i64) -> (r: Result<Vec<World>>) {
        self.stmt.list(size)
    }
}

impl Write<World, InternalError<::sqlite::Error>> for Tansaction {
    open spec fn may_insert(&self, word: World, r: Result<Option<World>>) -> bool {
        write_answer(text_fits(word.name@) && text_fits(word.message@), r)
    }

    open spec fn may_update(&self, word: World, r: Result<Option<World>>) -> bool {
        write_answer(text_fits(word.name@) && text_fits(word.message@), r)
    }

    open spec fn may_delete(&self, word: Seq<char>, r: Result<Option<World>>) -> bool {
        write_answer(text_fits(word), r)
    }

    fn insert(&self, word: &World) -> (r: Result<Option<World>>) {
        self.stmt.insert(word)
    }

    fn update(&self, word: &World) -> (r: Result<Option<World>>) {
        self.stmt.update(word)
    }

    fn delete(&self, word: &str) -> (r: Result<Option<World>>) {
        self.stmt.delete(word)
    }
}

impl StoreTransaction<World, InternalError<::sqlite::Error>> for Tansaction {
    open spec fn may_rollback(&self, r: Result<()>) -> bool {
        end_answer(r)
    }

    open spec fn may_commit(&self, r: Result<()>) -> bool {
        end_answer(r)
    }

    fn rollback(self) -> (r: Result<()>) {
        lift(execute(&self.stmt.connect, Tansaction::rollback_statement()))
    }

    fn commit(self) -> (r: Result<()>) {
        lift(execute(&self.stmt.connect, Tansaction::commit_statement()))
    }
}

} // verus!
