//! A file descriptor as a number.

use vstd::prelude::*;

verus! {

/// The number of a file descriptor. Opening and closing it is the business of
/// whoever owns the descriptor; this type only carries the number around.
#[derive(Debug, Copy, Clone, Eq, PartialEq, Hash, Structural)]
pub struct FD {
    pub fd: i32,
}

impl FD {
    pub fn new(fd: i32) -> (this: Self)
        ensures
            this.fd == fd,
    {
        FD { fd }
    }

    pub fn raw(&self) -> (fd: i32)
        ensures
            fd == self.fd,
    {
        self.fd
    }

    pub open spec fn spec_check(&self) -> bool {
        self.fd >= 0
    }

    /// Whether the number can be that of an open descriptor.
    #[verifier::when_used_as_spec(spec_check)]
    pub fn check(&self) -> (valid: bool)
        ensures
            valid == (self.fd >= 0),
    {
        self.fd >= 0
    }
}

} // verus!
