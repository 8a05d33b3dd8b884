//! Errors that the library reports.

use vstd::prelude::*;

verus! {

/// What the platform reported for a call that failed.
#[derive(Clone, Copy, Debug, PartialEq, Eq, Structural)]
pub struct OsError {
    /// The platform's error code.
    pub code: i32,
    /// Whether the code says that the call would have had to wait.
    pub would_block: bool,
}

/// An error of one of the library's operations.
#[derive(Clone, Copy, Debug, PartialEq, Eq, Structural)]
pub enum Error {
    /// The platform refused a call; its report is passed on unchanged.
    Os(OsError),
    /// A watch descriptor was used with a handle that did not issue it.
    InvalidInput,
    /// A read returned no bytes at all.
    UnexpectedEof,
}

} // verus!
