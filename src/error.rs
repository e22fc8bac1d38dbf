use vstd::prelude::*;

verus! {

/// A failed call, carrying the error code the operating system reported for it.
#[derive(Clone, Copy, Debug, PartialEq, Eq, Structural)]
pub struct SysError {
    pub errno: i32,
}

/// The result of a call: a payload on success, the operating system's error otherwise.
pub type SysResult<T> = Result<T, SysError>;

/// The code the operating system uses for an invalid argument.
pub const EINVAL: i32 = 22;

impl SysError {
    /// The failure that carries the code `errno`.
    pub fn from_errno(errno: i32) -> (r: SysError)
        ensures
            r.errno == errno,
    {
        SysError { errno }
    }

    /// The code carried by this failure.
    pub fn errno(&self) -> (r: i32)
        ensures
            r == self.errno,
    {
        self.errno
    }
}

} // verus!
