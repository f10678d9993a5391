//! Byte quantities and the unit a human-readable rendering would pick.

use vstd::prelude::*;

verus! {

/// How many bytes a kilobyte holds.
pub const BYTES_PER_KB: usize = 1024;

/// How many bytes a megabyte holds.
pub const BYTES_PER_MB: usize = 1024 * 1024;

/// A quantity of bytes.
#[derive(Clone, Copy, PartialEq, Eq, Structural, Debug)]
pub struct Bytes(pub usize);

/// A quantity of kilobytes.
#[derive(Clone, Copy, PartialEq, Eq, Structural, Debug)]
pub struct Kilobytes(pub usize);

/// A quantity of megabytes.
#[derive(Clone, Copy, PartialEq, Eq, Structural, Debug)]
pub struct MegaBytes(pub usize);

/// The unit a rendering of a byte quantity picks: the largest unit in
/// which the quantity is at least 1.
#[derive(Clone, Copy, PartialEq, Eq, Structural, Debug)]
pub enum ByteUnit {
    /// Fewer than 1024 bytes: rendered in bytes.
    B,
    /// At least a kilobyte but less than a megabyte: rendered in kilobytes.
    Kb,
    /// At least a megabyte: rendered in megabytes.
    Mb,
}

impl Kilobytes {
    /// The same quantity in bytes.
    pub fn to_bytes(self) -> (b: Bytes)
        requires
            self.0 * BYTES_PER_KB <= usize::MAX,
        ensures
            b.0 == self.0 * BYTES_PER_KB,
    {
        Bytes(self.0 * BYTES_PER_KB)
    }
}

impl MegaBytes {
    /// The same quantity in bytes.
    pub fn to_bytes(self) -> (b: Bytes)
        requires
            self.0 * BYTES_PER_MB <= usize::MAX,
        ensures
            b.0 == self.0 * BYTES_PER_MB,
    {
        Bytes(self.0 * BYTES_PER_MB)
    }
}

impl Bytes {
    /// The quantity scaled to the unit a rendering would pick: megabytes
    /// when at least one whole megabyte fits, else kilobytes when at least
    /// one whole kilobyte fits, else plain bytes.  The value is rounded
    /// down to the chosen unit.
    pub fn scaled(self) -> (r: (usize, ByteUnit))
        ensures
            self.0 >= BYTES_PER_MB ==> r == (self.0 / BYTES_PER_MB, ByteUnit::Mb),
            self.0 < BYTES_PER_MB && self.0 >= BYTES_PER_KB ==> r == (
                self.0 / BYTES_PER_KB,
                ByteUnit::Kb,
            ),
            self.0 < BYTES_PER_KB ==> r == (self.0, ByteUnit::B),
    {
        let kb = self.0 / BYTES_PER_KB;
        let mb = kb / BYTES_PER_KB;
        if mb > 0 {
            (mb, ByteUnit::Mb)
        } else if kb > 0 {
            (kb, ByteUnit::Kb)
        } else {
            (self.0, ByteUnit::B)
        }
    }
}

} // verus!
