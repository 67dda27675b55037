//! Memory allocation primitives.
//!
//! The two native backends (POSIX `mmap`/`munmap` and Windows
//! `VirtualAlloc2`/`VirtualFree`) share one error taxonomy and one
//! protection model; each backend translates them to and from its native
//! encoding in its own module.

pub mod unix;
pub mod windows;

use vstd::prelude::*;

verus! {

/// Common errors from the native virtual-memory calls.
///
/// Error codes on Windows are far more complicated than `errno` on
/// UNIX-like systems, and not every native code has a documented meaning,
/// so codes without a mapping are preserved verbatim in `UnknownError`
/// rather than being folded into a semantically loaded variant.
#[derive(Copy, Clone, Debug, PartialEq, Eq, Structural)]
pub enum MMapError {
    /// Arguments provided to the native call were invalid.
    InvalidArguments,
    /// Transient resource pressure; the caller may retry after backing off.
    TryAgain,
    /// Any of the following applies:
    /// - no memory available, or
    /// - maximum number of mappings exceeded, or
    /// - a resource limit was exceeded.
    NoMemory,
    /// The requested length overflowed the native length type.
    LengthOverflow,
    /// A native code with no known mapping, carried verbatim.
    UnknownError(u32),
    /// No error at all, NOT EXPECTED.
    /// A successful call never rests on this value; whenever it is
    /// received, the error translation itself is defective.
    NoError,
}

/// One memory protection capability of a mapped region.
///
/// Capabilities are combined in a [`ProtectionFlags`] set; a region may
/// also be mapped with no capability at all ([`ProtectionFlags::none`]).
/// Note that not all combinations are honoured natively on Windows:
/// `Write` always implies `Read` there.
#[derive(Copy, Clone, Debug, PartialEq, Eq, Structural)]
pub enum Protection {
    /// Pages may be read.
    Read,
    /// Pages may be written.
    Write,
    /// Pages may be executed.
    Exec,
}

/// A combinable set of [`Protection`] capabilities.
#[derive(Copy, Clone, Debug, PartialEq, Eq, Structural)]
pub struct ProtectionFlags {
    /// Pages may be read.
    pub read: bool,
    /// Pages may be written.
    pub write: bool,
    /// Pages may be executed.
    pub execute: bool,
}

impl ProtectionFlags {
    /// The empty set: pages may not be accessed.
    pub fn none() -> (r: ProtectionFlags)
        ensures
            !r.read && !r.write && !r.execute,
    {
        ProtectionFlags { read: false, write: false, execute: false }
    }

    /// This set with one more capability granted.
    pub fn with(self, p: Protection) -> (r: ProtectionFlags)
        ensures
            r.read == (self.read || p is Read),
            r.write == (self.write || p is Write),
            r.execute == (self.execute || p is Exec),
    {
        match p {
            Protection::Read => ProtectionFlags { read: true, ..self },
            Protection::Write => ProtectionFlags { write: true, ..self },
            Protection::Exec => ProtectionFlags { execute: true, ..self },
        }
    }

    /// Whether the set grants the capability `p`.
    pub fn contains(&self, p: Protection) -> (r: bool)
        ensures
            r == match p {
                Protection::Read => self.read,
                Protection::Write => self.write,
                Protection::Exec => self.execute,
            },
    {
        match p {
            Protection::Read => self.read,
            Protection::Write => self.write,
            Protection::Exec => self.execute,
        }
    }
}

} // verus!
