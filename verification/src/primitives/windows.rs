//! Memory allocation primitives for Windows.
//!
//! The native calls (`VirtualAlloc2`, `VirtualFree`, `GetSystemInfo`,
//! `GetLastError`) cannot be made from verified code, so this module holds
//! the logic around them: the translation of native error codes, the
//! `PAGE_*` protection encoding, and the cached system-information query.
//! Unlike on UNIX-like systems, aligned allocation is supported natively
//! through an extended-parameters request, so no trim protocol exists
//! here; a bad alignment surfaces as `InvalidArguments` from the call.

use vstd::prelude::*;

use crate::primitives::MMapError;
use crate::primitives::ProtectionFlags;

verus! {

/// The native "operation completed successfully" code.
pub const ERROR_SUCCESS: u32 = 0;

/// The native "the parameter is incorrect" code.
pub const ERROR_INVALID_PARAMETER: u32 = 87;

/// Native memory protection constant: pages may not be accessed.
pub const PAGE_NOACCESS: u32 = 0x01;

/// Native memory protection constant: pages may be read.
pub const PAGE_READ: u32 = 0x02;

/// Native memory protection constant: pages may be read and written.
pub const PAGE_READWRITE: u32 = 0x04;

/// Native memory protection constant: pages may be executed.
pub const PAGE_EXECUTE: u32 = 0x10;

/// Native memory protection constant: pages may be executed and read.
pub const PAGE_EXECUTE_READ: u32 = 0x20;

/// Native memory protection constant: pages may be executed, read and
/// written.
pub const PAGE_EXECUTE_READWRITE: u32 = 0x40;

/// Native allocation type: commit the pages.
pub const MEM_COMMIT: u32 = 0x0000_1000;

/// Native allocation type: reserve the address range.
pub const MEM_RESERVE: u32 = 0x0000_2000;

/// Native free type: release the whole allocation.
pub const MEM_RELEASE: u32 = 0x0000_8000;

/// The abstract error for a native error code: "the parameter is
/// incorrect" (87) maps to `InvalidArguments`, "success" (0) is the
/// never-expected `NoError`, and every other code is carried verbatim.
/// The native codes an API call can set are neither documented
/// exhaustively nor stable, so most of them legitimately end up as
/// `UnknownError`.
pub open spec fn error_of_native_code(e: u32) -> MMapError {
    if e == ERROR_INVALID_PARAMETER {
        MMapError::InvalidArguments
    } else if e == ERROR_SUCCESS {
        MMapError::NoError
    } else {
        MMapError::UnknownError(e)
    }
}

impl MMapError {
    /// Get the `MMapError` for a native error code.
    pub fn from_native_code(e: u32) -> (r: MMapError)
        ensures
            r == error_of_native_code(e),
    {
        if e == ERROR_INVALID_PARAMETER {
            MMapError::InvalidArguments
        } else if e == ERROR_SUCCESS {
            MMapError::NoError
        } else {
            MMapError::UnknownError(e)
        }
    }
}

/// The native `PAGE_*` constant for a protection set. Writability always
/// implies readability natively, so `Write` chooses the read-write page
/// protection whether or not `Read` was given, and the executable
/// variants are the same three constants shifted one hexadecimal digit.
pub open spec fn spec_protection_flag(p: ProtectionFlags) -> u32 {
    if p.write {
        if p.execute {
            PAGE_EXECUTE_READWRITE
        } else {
            PAGE_READWRITE
        }
    } else if p.read {
        if p.execute {
            PAGE_EXECUTE_READ
        } else {
            PAGE_READ
        }
    } else {
        if p.execute {
            PAGE_EXECUTE
        } else {
            PAGE_NOACCESS
        }
    }
}

/// Encode a protection set as its native `PAGE_*` constant.
pub fn make_protection_flag(protection: ProtectionFlags) -> (r: u32)
    ensures
        r == spec_protection_flag(protection),
{
    let rw: u32 = if protection.write {
        PAGE_READWRITE
    } else if protection.read {
        PAGE_READ
    } else {
        PAGE_NOACCESS
    };
    if protection.execute {
        rw * 0x10
    } else {
        rw
    }
}

/// The two system parameters this layer reads from the native
/// system-information query.
#[derive(Copy, Clone, Debug, PartialEq, Eq, Structural)]
pub struct SystemInfo {
    /// Size of a page in bytes.
    pub page_size: usize,
    /// The granularity at which virtual memory is allocated; the smallest
    /// alignment legally requestable for a mapping. It generally exceeds
    /// the page size, so the two must not be conflated.
    pub allocation_granularity: usize,
}

/// The cached result of the system-information query. The operating
/// system never changes these parameters at runtime, so the first queried
/// value is kept for the life of the process; the native query itself
/// cannot fail.
pub struct SystemInfoCache {
    cached: Option<SystemInfo>,
}

impl View for SystemInfoCache {
    type V = Option<SystemInfo>;

    closed spec fn view(&self) -> Option<SystemInfo> {
        self.cached
    }
}

/// What one system-information lookup does to the cache: a warm cache
/// answers by itself and ignores the freshly queried value; a cold cache
/// stores the queried value and returns it.
pub open spec fn system_info_outcome(cache: Option<SystemInfo>, queried: SystemInfo) -> (
    Option<SystemInfo>,
    SystemInfo,
) {
    match cache {
        Some(v) => (Some(v), v),
        None => (Some(queried), queried),
    }
}

impl SystemInfoCache {
    /// A cold cache.
    pub fn new() -> (r: SystemInfoCache)
        ensures
            r@ is None,
    {
        SystemInfoCache { cached: None }
    }

    /// Answer a system-information lookup. `queried` is what the native
    /// query reported; it is ignored once the cache is warm.
    pub fn resolve(&mut self, queried: SystemInfo) -> (r: SystemInfo)
        ensures
            (final(self)@, r) == system_info_outcome(old(self)@, queried),
    {
        match self.cached {
            Some(v) => v,
            None => {
                self.cached = Some(queried);
                queried
            },
        }
    }
}

/// Get the page size.
pub fn get_page_size(cache: &mut SystemInfoCache, queried: SystemInfo) -> (r: usize)
    ensures
        final(cache)@ == system_info_outcome(old(cache)@, queried).0,
        r == system_info_outcome(old(cache)@, queried).1.page_size,
{
    cache.resolve(queried).page_size
}

/// Get the minimum alignment of memory chunks: natively this is the
/// allocation granularity, not the page size.
pub fn get_minimum_alignment(cache: &mut SystemInfoCache, queried: SystemInfo) -> (r: usize)
    ensures
        final(cache)@ == system_info_outcome(old(cache)@, queried).0,
        r == system_info_outcome(old(cache)@, queried).1.allocation_granularity,
{
    cache.resolve(queried).allocation_granularity
}

/// Cache coherence law: once a system-information lookup has answered,
/// every later lookup returns the identical parameters and leaves the
/// cache as it is, whatever the later native query reported.
pub proof fn lemma_system_info_stable(
    cache: Option<SystemInfo>,
    queried1: SystemInfo,
    queried2: SystemInfo,
)
    ensures
        ({
            let (cache1, r1) = system_info_outcome(cache, queried1);
            let (cache2, r2) = system_info_outcome(cache1, queried2);
            r2 == r1 && cache2 == cache1
        }),
{
}

} // verus!
