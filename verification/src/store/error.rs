//! The errors that operations on backends and on the registry return.

use vstd::prelude::*;
use vstd::string::{to_string_from_display_ensures, StringExecFns};
use crate::store::decimal::{decimal, to_decimal};

verus! {

/// A failure of the medium beneath a backend, with the medium's own error as
/// its cause where there is one.
#[derive(Debug)]
pub struct StoreError<E> {
    pub message: String,
    pub code: i32,
    pub err: Option<E>,
}

/// Why an operation did not succeed.
#[derive(Debug)]
pub enum InternalError<E> {
    /// The backend holds no record under the key.
    NotFound,
    /// No backend is registered under the name.
    StoreNotFound,
    /// The medium failed.
    Unknow(StoreError<E>),
}

impl<E> StoreError<E> {
    /// The text of the message and the code.
    pub open spec fn head(self) -> Seq<char> {
        "msg: "@ + self.message@ + ", code: "@ + decimal(self.code as int)
    }

    /// Whether `text` is what this error reads as: message and code, and
    /// behind them the cause as it prints itself, where there is one.
    pub open spec fn reads_as(self, text: Seq<char>) -> bool where E: core::fmt::Display {
        match self.err {
            Some(cause) => exists|raw: String| #[trigger]
                to_string_from_display_ensures::<E>(&cause, raw) && text == self.head()
                    + ", raw: "@ + raw@,
            None => text == self.head(),
        }
    }

    /// This error as text.
    pub fn to_string(&self) -> (r: String) where E: core::fmt::Display
        ensures
            self.reads_as(r@),
    {
        let head = String::from_str("msg: ").concat(self.message.as_str()).concat(
            ", code: ",
        ).concat(to_decimal(self.code).as_str());
        match &self.err {
            Some(cause) => {
                let raw = cause.to_string();
                head.concat(", raw: ").concat(raw.as_str())
            },
            None => head,
        }
    }
}

impl<E> InternalError<E> {
    /// Whether `text` is what this error reads as.
    pub open spec fn reads_as(self, text: Seq<char>) -> bool where E: core::fmt::Display {
        match self {
            InternalError::NotFound => text == "internal error for item not found"@,
            InternalError::StoreNotFound => text == "internal error for item not found"@,
            InternalError::Unknow(err) => exists|inner: Seq<char>| #[trigger]
                err.reads_as(inner) && text == "internal error for unknow "@ + inner,
        }
    }

    /// This error as text.
    pub fn to_string(&self) -> (r: String) where E: core::fmt::Display
        ensures
            self.reads_as(r@),
    {
        match self {
            InternalError::NotFound => String::from_str("internal error for item not found"),
            InternalError::StoreNotFound => String::from_str("internal error for item not found"),
            InternalError::Unknow(err) => {
                let inner = err.to_string();
                String::from_str("internal error for unknow ").concat(inner.as_str())
            },
        }
    }

    /// This is the error that stands for the failure `cause` of the medium.
    pub open spec fn wraps(self, cause: E) -> bool {
        &&& self matches InternalError::Unknow(e)
        &&& e.message@ == "unKnow"@
        &&& e.code == 0
        &&& e.err == Some(cause)
    }

    /// This error stands for a failure of the medium.
    pub open spec fn from_medium(self) -> bool {
        exists|cause: E| self.wraps(cause)
    }
}

} // verus!
