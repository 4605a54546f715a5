//! What the backend asks of SQLite: the text of a statement and the values
//! for its parameters.

use vstd::prelude::*;
use vstd::string::StringSliceAdditionalSpecFns;
use vstd::utf8::encode_utf8;

verus! {

/// The longest text, in bytes, that can be bound to a parameter.
pub const TEXT_LIMIT: usize = 0x7fff_ffff;

/// Whether `text` is short enough to be bound to a parameter.
pub open spec fn text_fits(text: Seq<char>) -> bool {
    encode_utf8(text).len() <= TEXT_LIMIT
}

/// Whether a text of `bytes` bytes is short enough to be bound to a
/// parameter.
pub fn length_fits(bytes: usize) -> (b: bool)
    ensures
        b == (bytes <= TEXT_LIMIT),
{
    bytes <= TEXT_LIMIT
}

/// A value for one parameter of a statement.
#[derive(Debug)]
pub enum Argument<'a> {
    Text(&'a str),
    Integer(i64),
}

/// A value for one parameter of a statement, as mathematics sees it.
pub enum ArgumentView {
    Text(Seq<char>),
    Integer(int),
}

impl<'a> View for Argument<'a> {
    type V = ArgumentView;

    open spec fn view(&self) -> ArgumentView {
        match *self {
            Argument::Text(s) => ArgumentView::Text(s@),
            Argument::Integer(n) => ArgumentView::Integer(n as int),
        }
    }
}

impl ArgumentView {
    /// Whether this value can be bound: a number always, a text where it is
    /// short enough.
    pub open spec fn fits(self) -> bool {
        match self {
            ArgumentView::Text(s) => text_fits(s),
            ArgumentView::Integer(_) => true,
        }
    }
}

impl<'a> Argument<'a> {
    /// Whether this value can be bound.
    pub fn can_bind(&self) -> (b: bool)
        ensures
            b == self@.fits(),
    {
        match self {
            Argument::Text(s) => length_fits(s.as_bytes().len()),
            Argument::Integer(_) => true,
        }
    }
}

/// A statement and the values for its parameters: `arguments[i]` is bound to
/// the parameter `i + 1`, the `i + 1`-th question mark in `sql`.
#[derive(Debug)]
pub struct Request<'a> {
    pub sql: &'a str,
    pub arguments: Vec<Argument<'a>>,
}

impl<'a> Request<'a> {
    /// The values for the parameters, in their order.
    pub open spec fn bound(&self) -> Seq<ArgumentView> {
        Seq::new(self.arguments@.len(), |i: int| self.arguments@[i]@)
    }

    /// Whether each value of this request can be bound.
    pub open spec fn fits(&self) -> bool {
        forall|i: int| 0 <= i < self.bound().len() ==> (#[trigger] self.bound()[i]).fits()
    }

    /// Whether each value of this request can be bound.
    pub fn can_bind(&self) -> (b: bool)
        ensures
            b == self.fits(),
    {
        let mut i: usize = 0;
        while i < self.arguments.len()
            invariant
                i <= self.arguments.len(),
                forall|j: int| 0 <= j < i ==> (#[trigger] self.bound()[j]).fits(),
            decreases self.arguments.len() - i,
        {
            if !self.arguments[i].can_bind() {
                assert(!self.bound()[i as int].fits());
                return false;
            }
            assert(self.bound()[i as int].fits());
            i += 1;
        }
        true
    }

    /// This request is for the statement `sql` with the values `bound`.
    pub open spec fn asks(&self, sql: Seq<char>, bound: Seq<ArgumentView>) -> bool {
        self.sql@ == sql && self.bound() == bound
    }
}

} // verus!
