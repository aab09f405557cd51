use vstd::prelude::*;

verus! {

/// Flag set steering how a device entry is looked up in the cache.
///
/// The values mirror the native library's device-lookup flag constants.
#[derive(Clone, Copy, Debug, PartialEq, Eq, Structural)]
pub struct GetDevFlags {
    bits: i32,
}

impl GetDevFlags {
    /// The raw bit pattern this set stands for.
    pub closed spec fn spec_bits(self) -> i32 {
        self.bits
    }

    /// Just look up a device entry, reporting nothing when it is not found.
    pub fn find() -> (r: Self)
        ensures
            r.spec_bits() == 0x0,
    {
        GetDevFlags { bits: 0x0 }
    }

    /// Create an empty device structure if not found in the cache.
    pub fn create() -> (r: Self)
        ensures
            r.spec_bits() == 0x1,
    {
        GetDevFlags { bits: 0x1 }
    }

    /// Make sure the device structure corresponds with reality.
    pub fn verify() -> (r: Self)
        ensures
            r.spec_bits() == 0x2,
    {
        GetDevFlags { bits: 0x2 }
    }

    /// Get a valid device structure, either from the cache or by probing the
    /// device: CREATE and VERIFY together.
    pub fn normal() -> (r: Self)
        ensures
            r.spec_bits() == (0x1i32 | 0x2),
    {
        GetDevFlags { bits: 0x1 | 0x2 }
    }

    /// The raw bit pattern, as the native call expects it.
    pub fn bits(&self) -> (r: i32)
        ensures
            r == self.spec_bits(),
    {
        self.bits
    }

    /// The union of two flag sets.
    pub fn union(self, other: Self) -> (r: Self)
        ensures
            r.spec_bits() == self.spec_bits() | other.spec_bits(),
    {
        GetDevFlags { bits: self.bits | other.bits }
    }

    /// Whether every flag of `other` is also set in `self`.
    pub fn contains(self, other: Self) -> (r: bool)
        ensures
            r == (self.spec_bits() & other.spec_bits() == other.spec_bits()),
    {
        self.bits & other.bits == other.bits
    }
}

} // verus!
