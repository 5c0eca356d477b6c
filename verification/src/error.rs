//! What can go wrong in this layer.

use crate::text::{NulError, NulErrorView};
use vstd::prelude::*;

verus! {

/// A failure of the operating system, by its error code.
#[derive(Debug, Clone, Copy, PartialEq, Eq, Structural)]
pub struct OsError {
    pub code: i32,
}

/// Possible errors.
#[derive(Debug, PartialEq, Eq)]
pub enum Error {
    /// A path's bytes are not text.
    CantConvertToString,
    /// The engine reported a failure; this is its message.
    TSNet(String),
    /// The operating system reported a failure.
    IO(OsError),
    /// A string holds a zero byte.
    NullInString(NulError),
}

/// What an `Error` stands for.
pub ghost enum ErrorView {
    CantConvertToString,
    TSNet(Seq<char>),
    IO(OsError),
    NullInString(NulErrorView),
}

impl View for Error {
    type V = ErrorView;

    open spec fn view(&self) -> ErrorView {
        match self {
            Error::CantConvertToString => ErrorView::CantConvertToString,
            Error::TSNet(message) => ErrorView::TSNet(message@),
            Error::IO(failure) => ErrorView::IO(*failure),
            Error::NullInString(refused) => ErrorView::NullInString(refused@),
        }
    }
}

/// The encoding error for `bytes`: they hold a zero byte, whose first place
/// the error names.
pub open spec fn is_nul_error(error: ErrorView, bytes: Seq<u8>) -> bool {
    &&& error is NullInString
    &&& error->NullInString_0.bytes == bytes
    &&& crate::text::first_nul_at(bytes, error->NullInString_0.position)
}

} // verus!
