use vstd::prelude::*;

verus! {

/// A file descriptor: the kernel's integer handle for an open object.
pub type Fd = i32;

/// A set of open flags, held as the bit mask the kernel takes.
#[derive(Clone, Copy, Debug, PartialEq, Eq, Structural)]
pub struct OFlag {
    pub bits: i32,
}

impl OFlag {
    /// The flag set with no flag in it.
    pub fn empty() -> (r: OFlag)
        ensures
            r.bits == 0,
    {
        OFlag { bits: 0 }
    }

    /// The flag set whose mask is `bits`, kept exactly.
    pub fn from_bits(bits: i32) -> (r: OFlag)
        ensures
            r.bits == bits,
    {
        OFlag { bits }
    }

    /// The mask handed to the kernel.
    pub fn bits(&self) -> (r: i32)
        ensures
            r == self.bits,
    {
        self.bits
    }

    /// Whether every flag of `other` is set here.
    pub fn contains(&self, other: OFlag) -> (r: bool)
        ensures
            r == (self.bits & other.bits == other.bits),
    {
        self.bits & other.bits == other.bits
    }
}

} // verus!
