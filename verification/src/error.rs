//! The error surfaced when a platform query fails for good.

use vstd::prelude::*;

verus! {

/// An operating-system level error: the platform's last-error code together
/// with its rendered message.  The library never fabricates one of these; a
/// value of this type always originates from the platform's last-error
/// accessor and is carried through unchanged to the caller.
#[derive(Debug, Clone, PartialEq, Eq)]
pub struct OsError {
    pub code: u32,
    pub message: String,
}

impl OsError {
    /// A rendering of the error for display by unverified callers.
    pub fn describe(&self) -> (r: String)
        ensures
            r@ == self.message@,
    {
        self.message.clone()
    }
}

} // verus!
