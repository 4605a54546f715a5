//! The calls into the SQLite binding. Nothing here is proved: each contract
//! says what the binding's source shows, and what a call answers depends on
//! the database file, so no contract speaks of it.

use vstd::prelude::*;
use vstd::string::StringSliceAdditionalSpecFns;

verus! {

/// `sqlite::Connection`, a handle to an open database.
#[verifier::external_type_specification]
#[verifier::external_body]
pub struct ExConnection(::sqlite::Connection);

/// `sqlite::Statement`, a prepared statement of a connection.
#[verifier::external_type_specification]
#[verifier::external_body]
pub struct ExStatement<'l>(::sqlite::Statement<'l>);

/// `sqlite::Error`, the error of every call into the binding.
#[verifier::external_type_specification]
#[verifier::external_body]
pub struct ExError(::sqlite::Error);

/// `sqlite::OpenFlags`, the flags that a database is opened with.
#[verifier::external_type_specification]
#[verifier::external_body]
pub struct ExOpenFlags(::sqlite::OpenFlags);

/// `OpenFlags::new`: flags with nothing set.
#[verifier::external_body]
pub(crate) fn no_flags() -> ::sqlite::OpenFlags {
    ::sqlite::OpenFlags::new()
}

/// `OpenFlags::set_create`: adds the flag that creates a missing database.
#[verifier::external_body]
pub(crate) fn set_create(flags: ::sqlite::OpenFlags) -> ::sqlite::OpenFlags {
    flags.set_create()
}

/// `OpenFlags::set_read_write`: adds the flag that opens for reading and
/// writing.
#[verifier::external_body]
pub(crate) fn set_read_write(flags: ::sqlite::OpenFlags) -> ::sqlite::OpenFlags {
    flags.set_read_write()
}

/// Where a statement stands after a step.
pub enum Step {
    /// A row is there to be read.
    Row,
    /// The statement has run to its end.
    Done,
}

/// `Connection::open_with_flags`: opens the database at `path`. A path that
/// cannot be handed to SQLite and a failure to open both come back as errors.
#[verifier::external_body]
pub(crate) fn open_with_flags(path: &str, flags: ::sqlite::OpenFlags) -> Result<
    ::sqlite::Connection,
    ::sqlite::Error,
> {
    ::sqlite::Connection::open_with_flags(path, flags)
}

/// `Connection::execute`: runs the statements in `sql` and drops their rows.
#[verifier::external_body]
pub(crate) fn execute(con: &::sqlite::Connection, sql: &str) -> Result<(), ::sqlite::Error> {
    con.execute(sql)
}

/// `Connection::prepare`: compiles the first statement in `sql`.
#[verifier::external_body]
pub(crate) fn prepare<'c>(con: &'c ::sqlite::Connection, sql: &str) -> Result<
    ::sqlite::Statement<'c>,
    ::sqlite::Error,
> {
    con.prepare(sql)
}

/// `Statement::bind` with a string: binds `value` to the parameter `i` and
/// hands the statement back. Parameters count from 1; the binding asserts
/// that `i` is not 0. It passes the length of `value` in bytes to SQLite as a
/// signed number of 32 bits, so a longer text is kept out.
#[verifier::external_body]
pub(crate) fn bind_text<'c>(stmt: ::sqlite::Statement<'c>, i: usize, value: &str) -> Result<
    ::sqlite::Statement<'c>,
    ::sqlite::Error,
>
    requires
        i > 0,
        value.spec_bytes().len() <= i32::MAX,
{
    stmt.bind(i, value)
}

/// `Statement::bind` with an integer: binds `value` to the parameter `i` and
/// hands the statement back. Parameters count from 1; the binding asserts
/// that `i` is not 0.
#[verifier::external_body]
pub(crate) fn bind_integer<'c>(stmt: ::sqlite::Statement<'c>, i: usize, value: i64) -> Result<
    ::sqlite::Statement<'c>,
    ::sqlite::Error,
>
    requires
        i > 0,
{
    stmt.bind(i, value)
}

/// `Statement::next`: takes one step and says whether it reached a row or
/// the end.
#[verifier::external_body]
pub(crate) fn step(stmt: &mut ::sqlite::Statement) -> Result<Step, ::sqlite::Error> {
    match stmt.next() {
        Ok(::sqlite::State::Row) => Ok(Step::Row),
        Ok(::sqlite::State::Done) => Ok(Step::Done),
        Err(e) => Err(e),
    }
}

/// `Readable::read` for `String`, the function that `Statement::read` hands
/// its arguments to: the text in column `i` of the current row, columns
/// counting from 0. Where SQLite has no text to give, an error comes back.
#[verifier::external_body]
pub(crate) fn read_text(stmt: &::sqlite::Statement, i: usize) -> Result<String, ::sqlite::Error> {
    ::sqlite::Readable::read(stmt, i)
}

} // verus!
