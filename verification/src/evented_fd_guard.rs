//! A share in a session, for an event loop to read from.

use crate::error::{Error, OsError};
use crate::handle::Handle;
use vstd::prelude::*;

verus! {

/// A share in a session, in the shape that an event loop registers and
/// reads from.
#[derive(Debug, PartialEq)]
pub struct EventedFdGuard(pub Handle);

impl EventedFdGuard {
    /// Takes what a read of the session's descriptor returned: the number of
    /// bytes read, or a negative number for a failure, which `error`
    /// describes.
    pub fn read(&self, result: isize, error: OsError) -> (r: Result<usize, Error>)
        ensures
            r == if result >= 0 {
                Ok::<_, Error>(result as usize)
            } else {
                Err(Error::Os(error))
            },
    {
        if result >= 0 {
            Ok(result as usize)
        } else {
            Err(Error::Os(error))
        }
    }

    /// The share that is held.
    pub fn deref(&self) -> (fd: &Handle)
        ensures
            *fd == self.0,
    {
        &self.0
    }
}

} // verus!
