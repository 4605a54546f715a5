//! The backend that keeps its records in a table of an SQLite database.

use vstd::prelude::*;
use vstd::string::StringExecFns;
use vstd::std_specs::convert::FromSpecImpl;
use crate::store::{InternalError, StoreError};

mod engine;
pub mod request;
pub mod store;

verus! {

/// What the operations of this backend return.
pub type Result<T> = std::result::Result<T, InternalError<::sqlite::Error>>;

/// The code of SQLite for a value that is over its limit.
pub const TOO_BIG: i32 = 18;

impl FromSpecImpl<::sqlite::Error> for InternalError<::sqlite::Error> {
    /// Two strings with the same text need not be the same value, so `from`
    /// is specified by `wraps` and not by equality with `from_spec`.
    open spec fn obeys_from_spec() -> bool {
        false
    }

    open spec fn from_spec(v: ::sqlite::Error) -> Self {
        choose|out: Self| out.wraps(v)
    }
}

impl From<::sqlite::Error> for InternalError<::sqlite::Error> {
    /// An error of SQLite becomes the cause of an `Unknow`.
    fn from(err: ::sqlite::Error) -> (out: Self)
        ensures
            out.wraps(err),
    {
        InternalError::Unknow(
            StoreError { message: String::from_str("unKnow"), code: 0, err: Some(err) },
        )
    }
}

/// This is the error for a text that is too long to be handed to SQLite.
pub open spec fn is_too_long(e: InternalError<::sqlite::Error>) -> bool {
    &&& e matches InternalError::Unknow(x)
    &&& x.message@ == "text too long"@
    &&& x.code == TOO_BIG
    &&& x.err is None
}

/// The error for a text that is too long to be handed to SQLite. It carries
/// the code that SQLite has for a value over its limit, and no cause: SQLite
/// was not asked.
pub fn too_long() -> (e: InternalError<::sqlite::Error>)
    ensures
        is_too_long(e),
{
    InternalError::Unknow(
        StoreError { message: String::from_str("text too long"), code: TOO_BIG, err: None },
    )
}

/// Passes on what a call into SQLite gave, its error wrapped.
pub fn lift<X>(r: std::result::Result<X, ::sqlite::Error>) -> (out: Result<X>)
    ensures
        match r {
            Ok(x) => out == Ok::<X, InternalError<::sqlite::Error>>(x),
            Err(e) => out matches Err(f) && f.wraps(e),
        },
{
    match r {
        Ok(x) => Ok(x),
        Err(e) => Err(InternalError::from(e)),
    }
}

} // verus!
