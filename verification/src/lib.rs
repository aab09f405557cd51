//! Verified value-translation layer around a native block-device
//! identification library.
//!
//! The native probing engine is reached over its C calling convention, which
//! this crate cannot hold; the companion application layer owns the raw
//! handles and performs every native call. Everything the wrapper itself
//! decides — how raw return codes, tri-state results, flag sets and tag names
//! become structured values and errors — lives here, with its behaviour
//! stated in contracts and proved.

pub mod dev;
pub mod error;
pub mod part_table;
pub mod prober;
pub mod tag;

pub use error::{BlkIdError, BlkIdResult};

use vstd::prelude::*;
use vstd::string::StringSliceAdditionalSpecFns;
use vstd::utf8::valid_utf8;

verus! {

broadcast use vstd::slice::group_slice_axioms;

/// Executable string equality, specified by equality of the views.
pub fn str_eq(a: &str, b: &str) -> (r: bool)
    ensures
        r == (a@ == b@),
{
    let owned_a: String = a.to_owned();
    let owned_b: String = b.to_owned();
    owned_a == owned_b
}

/// Position of the first NUL byte of `s`, if there is one.
///
/// A C string cannot carry an interior NUL, so this is exactly the check a
/// string must pass before it is handed to a native call.
pub fn interior_nul_position(s: &str) -> (r: Option<usize>)
    ensures
        match r {
            Some(i) => i < s.spec_bytes().len() && s.spec_bytes()[i as int] == 0 && (forall|
                j: int,
            |
                0 <= j < i ==> s.spec_bytes()[j] != 0),
            None => forall|j: int| 0 <= j < s.spec_bytes().len() ==> s.spec_bytes()[j] != 0,
        },
{
    let bytes: &[u8] = s.as_bytes();
    let n: usize = bytes.len();
    let mut i: usize = 0;
    while i < n
        invariant
            bytes@ == s.spec_bytes(),
            n == bytes@.len(),
            i <= n,
            forall|j: int| 0 <= j < i ==> s.spec_bytes()[j] != 0,
        decreases n - i,
    {
        if bytes[i] == 0 {
            return Some(i);
        }
        i = i + 1;
    }
    None
}

/// Relies on core::str::from_utf8: it returns `Ok` exactly on valid UTF-8,
/// and its error's `valid_up_to` gives the maximum index up to which the
/// input is valid UTF-8.
#[verifier::external_body]
fn utf8_from_bytes(bytes: &[u8]) -> (r: Result<&str, usize>)
    ensures
        match r {
            Ok(s) => valid_utf8(bytes@) && s.spec_bytes() == bytes@,
            Err(i) => !valid_utf8(bytes@) && i <= bytes@.len() && valid_utf8(
                bytes@.subrange(0, i as int),
            ) && (forall|j: int| i < j <= bytes@.len() ==> !valid_utf8(bytes@.subrange(0, j))),
        },
{
    match core::str::from_utf8(bytes) {
        Ok(s) => Ok(s),
        Err(e) => Err(e.valid_up_to()),
    }
}

/// Reads bytes as text, the way every string of the native library is read:
/// valid UTF-8 becomes the text it spells, anything else the `Utf8` error
/// carrying the length of the longest valid prefix.
pub fn utf8_result(bytes: &[u8]) -> (r: BlkIdResult<&str>)
    ensures
        match r {
            Ok(s) => valid_utf8(bytes@) && s.spec_bytes() == bytes@,
            Err(e) => !valid_utf8(bytes@) && (e matches BlkIdError::Utf8(i) && i
                <= bytes@.len() && valid_utf8(bytes@.subrange(0, i as int)) && (forall|j: int|
                i < j <= bytes@.len() ==> !valid_utf8(bytes@.subrange(0, j)))),
        },
{
    match utf8_from_bytes(bytes) {
        Ok(s) => Ok(s),
        Err(i) => Err(BlkIdError::Utf8(i)),
    }
}

/// Checks that `s` can become a C string: `Ok` exactly when `s` holds no
/// interior NUL byte, and otherwise the `Nul` error carrying the position of
/// the first NUL byte.
pub fn check_c_string(s: &str) -> (r: BlkIdResult<()>)
    ensures
        match r {
            Ok(_) => forall|j: int| 0 <= j < s.spec_bytes().len() ==> s.spec_bytes()[j] != 0,
            Err(e) => match e {
                BlkIdError::Nul(i) => i < s.spec_bytes().len() && s.spec_bytes()[i as int] == 0
                    && (forall|j: int| 0 <= j < i ==> s.spec_bytes()[j] != 0),
                _ => false,
            },
        },
{
    match interior_nul_position(s) {
        None => Ok(()),
        Some(i) => Err(BlkIdError::Nul(i)),
    }
}

/// Flag set steering what the superblocks chain reads and reports.
///
/// The values mirror the native library's superblock flag constants.
#[derive(Clone, Copy, Debug, PartialEq, Eq, Structural)]
pub struct SuperblocksFlags {
    bits: i32,
}

impl SuperblocksFlags {
    /// The raw bit pattern this set stands for.
    pub closed spec fn spec_bits(self) -> i32 {
        self.bits
    }

    /// The empty flag set.
    pub fn empty() -> (r: Self)
        ensures
            r.spec_bits() == 0,
    {
        SuperblocksFlags { bits: 0 }
    }

    /// Read LABEL from superblock.
    pub fn label() -> (r: Self)
        ensures
            r.spec_bits() == 0x2,
    {
        SuperblocksFlags { bits: 0x2 }
    }

    /// Read and define LABEL_RAW result value.
    pub fn labelraw() -> (r: Self)
        ensures
            r.spec_bits() == 0x4,
    {
        SuperblocksFlags { bits: 0x4 }
    }

    /// Read UUID from superblock.
    pub fn uuid() -> (r: Self)
        ensures
            r.spec_bits() == 0x8,
    {
        SuperblocksFlags { bits: 0x8 }
    }

    /// Read and define UUID_RAW result value.
    pub fn uuidraw() -> (r: Self)
        ensures
            r.spec_bits() == 0x10,
    {
        SuperblocksFlags { bits: 0x10 }
    }

    /// Define TYPE result value.
    pub fn fs_type() -> (r: Self)
        ensures
            r.spec_bits() == 0x20,
    {
        SuperblocksFlags { bits: 0x20 }
    }

    /// Define compatible fs type (second type).
    pub fn sectype() -> (r: Self)
        ensures
            r.spec_bits() == 0x40,
    {
        SuperblocksFlags { bits: 0x40 }
    }

    /// Define USAGE result value.
    pub fn usage() -> (r: Self)
        ensures
            r.spec_bits() == 0x80,
    {
        SuperblocksFlags { bits: 0x80 }
    }

    /// Read FS version from superblock.
    pub fn version() -> (r: Self)
        ensures
            r.spec_bits() == 0x100,
    {
        SuperblocksFlags { bits: 0x100 }
    }

    /// Define SBMAGIC and SBMAGIC_OFFSET.
    pub fn magic() -> (r: Self)
        ensures
            r.spec_bits() == 0x200,
    {
        SuperblocksFlags { bits: 0x200 }
    }

    /// Allow a bad checksum.
    pub fn badcsum() -> (r: Self)
        ensures
            r.spec_bits() == 0x400,
    {
        SuperblocksFlags { bits: 0x400 }
    }

    /// The default flags: LABEL, UUID, TYPE and SECTYPE together.
    pub fn default_flags() -> (r: Self)
        ensures
            r.spec_bits() == (0x2i32 | 0x8 | 0x20 | 0x40),
    {
        SuperblocksFlags { bits: 0x2 | 0x8 | 0x20 | 0x40 }
    }

    /// The raw bit pattern, as the native call expects it.
    pub fn bits(&self) -> (r: i32)
        ensures
            r == self.spec_bits(),
    {
        self.bits
    }

    /// The union of two flag sets.
    pub fn union(self, other: Self) -> (r: Self)
        ensures
            r.spec_bits() == self.spec_bits() | other.spec_bits(),
    {
        SuperblocksFlags { bits: self.bits | other.bits }
    }

    /// Whether every flag of `other` is also set in `self`.
    pub fn contains(self, other: Self) -> (r: bool)
        ensures
            r == (self.spec_bits() & other.spec_bits() == other.spec_bits()),
    {
        self.bits & other.bits == other.bits
    }

    /// Adds every flag of `other` to this set.
    pub fn insert(&mut self, other: Self)
        ensures
            final(self).spec_bits() == old(self).spec_bits() | other.spec_bits(),
    {
        self.bits = self.bits | other.bits;
    }

    /// Removes every flag of `other` from this set.
    pub fn remove(&mut self, other: Self)
        ensures
            final(self).spec_bits() == old(self).spec_bits() & !other.spec_bits(),
    {
        self.bits = self.bits & !other.bits;
    }
}

impl Default for SuperblocksFlags {
    /// The default flag set reads LABEL, UUID, TYPE and SECTYPE.
    fn default() -> (r: Self)
        ensures
            r.spec_bits() == (0x2i32 | 0x8 | 0x20 | 0x40),
    {
        SuperblocksFlags::default_flags()
    }
}

/// The union of two flag sets contains each of them, in the sense that
/// `contains` decides.
pub proof fn lemma_flags_union_contains(a: SuperblocksFlags, b: SuperblocksFlags)
    ensures
        (a.spec_bits() | b.spec_bits()) & a.spec_bits() == a.spec_bits(),
        (a.spec_bits() | b.spec_bits()) & b.spec_bits() == b.spec_bits(),
{
    let x = a.spec_bits();
    let y = b.spec_bits();
    assert((x | y) & x == x) by (bit_vector);
    assert((x | y) & y == y) by (bit_vector);
}

/// Flag set steering the partitions chain.
///
/// The values mirror the native library's partition flag constants.
#[derive(Clone, Copy, Debug, PartialEq, Eq, Structural)]
pub struct PartitionsFlags {
    bits: i32,
}

impl PartitionsFlags {
    /// The raw bit pattern this set stands for.
    pub closed spec fn spec_bits(self) -> i32 {
        self.bits
    }

    /// The empty flag set.
    pub fn empty() -> (r: Self)
        ensures
            r.spec_bits() == 0,
    {
        PartitionsFlags { bits: 0 }
    }

    /// Ignore hybrid or nested partition tables and force GPT.
    pub fn force_gpt() -> (r: Self)
        ensures
            r.spec_bits() == 0x2,
    {
        PartitionsFlags { bits: 0x2 }
    }

    /// Define entry details such as name, UUID and flags.
    pub fn entry_details() -> (r: Self)
        ensures
            r.spec_bits() == 0x4,
    {
        PartitionsFlags { bits: 0x4 }
    }

    /// Define PTMAGIC and PTMAGIC_OFFSET.
    pub fn magic() -> (r: Self)
        ensures
            r.spec_bits() == 0x8,
    {
        PartitionsFlags { bits: 0x8 }
    }

    /// The raw bit pattern, as the native call expects it.
    pub fn bits(&self) -> (r: i32)
        ensures
            r == self.spec_bits(),
    {
        self.bits
    }

    /// The union of two flag sets.
    pub fn union(self, other: Self) -> (r: Self)
        ensures
            r.spec_bits() == self.spec_bits() | other.spec_bits(),
    {
        PartitionsFlags { bits: self.bits | other.bits }
    }

    /// Whether every flag of `other` is also set in `self`.
    pub fn contains(self, other: Self) -> (r: bool)
        ensures
            r == (self.spec_bits() & other.spec_bits() == other.spec_bits()),
    {
        self.bits & other.bits == other.bits
    }
}

} // verus!
