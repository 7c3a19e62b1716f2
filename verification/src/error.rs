//! Error codes returned by the driver's entry points.

use vstd::prelude::*;

verus! {

/// A kernel error code.
#[derive(Clone, Copy, Debug, PartialEq, Eq, Structural)]
pub enum Error {
    /// No such entry.
    ENOENT,
    /// Input/output failure.
    EIO,
    /// Out of memory.
    ENOMEM,
    /// Bad address: a userspace buffer is shorter than announced.
    EFAULT,
    /// Resource busy.
    EBUSY,
    /// Entry already exists.
    EEXIST,
    /// No such device.
    ENODEV,
    /// Invalid argument.
    EINVAL,
    /// No space left.
    ENOSPC,
    /// Argument outside the domain of the operation.
    EDOM,
    /// The system call has to be restarted.
    ERESTARTSYS,
}

/// Result type used throughout the driver.
pub type Result<T = ()> = core::result::Result<T, Error>;

impl Error {
    /// The (positive) errno value of this error.
    pub open spec fn spec_errno(self) -> int {
        match self {
            Error::ENOENT => 2,
            Error::EIO => 5,
            Error::ENOMEM => 12,
            Error::EFAULT => 14,
            Error::EBUSY => 16,
            Error::EEXIST => 17,
            Error::ENODEV => 19,
            Error::EINVAL => 22,
            Error::ENOSPC => 28,
            Error::EDOM => 33,
            Error::ERESTARTSYS => 512,
        }
    }

    /// Returns the kernel return value for this error: the negated errno.
    pub fn to_errno(self) -> (r: i32)
        ensures
            r == -self.spec_errno(),
    {
        match self {
            Error::ENOENT => -2,
            Error::EIO => -5,
            Error::ENOMEM => -12,
            Error::EFAULT => -14,
            Error::EBUSY => -16,
            Error::EEXIST => -17,
            Error::ENODEV => -19,
            Error::EINVAL => -22,
            Error::ENOSPC => -28,
            Error::EDOM => -33,
            Error::ERESTARTSYS => -512,
        }
    }
}

} // verus!
