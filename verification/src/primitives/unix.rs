//! Memory allocation primitives for UNIX-like systems.
//!
//! The native calls themselves (`mmap`, `munmap`, `sysconf`) cannot be
//! made from verified code, so this module holds everything around them:
//! the translation of `errno` values into the shared taxonomy, the request
//! prepared for each call, the interpretation of each result, and the
//! over-allocate/trim protocol that yields aligned mappings on an API that
//! cannot grant alignment directly. An unverified shell performs the calls
//! and feeds every result back through these functions.

use vstd::prelude::*;
use vstd::arithmetic::div_mod::lemma_fundamental_div_mod;
use vstd::arithmetic::power2::is_pow2;

use crate::primitives::MMapError;
use crate::primitives::ProtectionFlags;

verus! {

/// Relies on `libc::EINVAL`: the "invalid argument" error number on the
/// Linux targets this backend addresses.
#[verifier::external_body]
fn errno_invalid_argument() -> (r: i32)
    ensures
        r == 22,
{
    libc::EINVAL
}

/// Relies on `libc::EAGAIN`: the "try again" error number on the Linux
/// targets this backend addresses.
#[verifier::external_body]
fn errno_try_again() -> (r: i32)
    ensures
        r == 11,
{
    libc::EAGAIN
}

/// Relies on `libc::ENOMEM`: the "out of memory" error number on the
/// Linux targets this backend addresses.
#[verifier::external_body]
fn errno_no_memory() -> (r: i32)
    ensures
        r == 12,
{
    libc::ENOMEM
}

/// Relies on `libc::EOVERFLOW`: the "value too large" error number on the
/// Linux targets this backend addresses.
#[verifier::external_body]
fn errno_length_overflow() -> (r: i32)
    ensures
        r == 75,
{
    libc::EOVERFLOW
}

/// The abstract error for a native `errno` value, as documented for
/// `mmap(2)`: `EINVAL` (22), `EAGAIN` (11), `ENOMEM` (12) and `EOVERFLOW`
/// (75) have dedicated variants, a zero `errno` is the never-expected
/// `NoError`, and every other number is carried verbatim.
pub open spec fn error_of_errno(e: i32) -> MMapError {
    if e == 22 {
        MMapError::InvalidArguments
    } else if e == 11 {
        MMapError::TryAgain
    } else if e == 12 {
        MMapError::NoMemory
    } else if e == 75 {
        MMapError::LengthOverflow
    } else if e == 0 {
        MMapError::NoError
    } else {
        MMapError::UnknownError(e as u32)
    }
}

impl MMapError {
    /// Get the `MMapError` for an `errno` value.
    pub fn from_errno(e: i32) -> (r: MMapError)
        ensures
            r == error_of_errno(e),
    {
        if e == errno_invalid_argument() {
            MMapError::InvalidArguments
        } else if e == errno_try_again() {
            MMapError::TryAgain
        } else if e == errno_no_memory() {
            MMapError::NoMemory
        } else if e == errno_length_overflow() {
            MMapError::LengthOverflow
        } else if e == 0 {
            MMapError::NoError
        } else {
            MMapError::UnknownError(#[verifier::truncate] (e as u32))
        }
    }
}

/// Whether `x` is a power of two.
pub fn is_power_of_2(x: usize) -> (r: bool)
    ensures
        r <==> is_pow2(x as int),
{
    proof {
        reveal(is_pow2);
    }
    if x == 0 {
        return false;
    }
    let mut y: usize = x;
    while y % 2 == 0
        invariant
            y >= 1,
            is_pow2(x as int) <==> is_pow2(y as int),
        decreases y,
    {
        proof {
            reveal(is_pow2);
        }
        y = y / 2;
    }
    proof {
        reveal(is_pow2);
    }
    y == 1
}

/// A power of two is positive.
pub proof fn lemma_pow2_positive(x: int)
    requires
        is_pow2(x),
    ensures
        x >= 1,
{
    reveal(is_pow2);
}

/// The cached result of the page-size query.
///
/// According to the Linux manual for `_SC_PAGESIZE`:
///   Size of a page in bytes.  Must not be less than 1.
/// The operating system never changes the page size at runtime, so the
/// first successfully queried value is kept for the life of the process;
/// the cache is populated strictly on success.
pub struct PageSizeCache {
    cached: Option<usize>,
}

impl View for PageSizeCache {
    type V = Option<usize>;

    closed spec fn view(&self) -> Option<usize> {
        self.cached
    }
}

/// What one page-size lookup does to the cache: a warm cache answers by
/// itself; otherwise a plausible query result (at least 1, and
/// representable in an address) is stored and returned, and anything else
/// is reported through the accompanying `errno` and leaves the cache
/// cold.
pub open spec fn page_size_outcome(cache: Option<usize>, raw: i64, errno: i32) -> (
    Option<usize>,
    Result<usize, MMapError>,
) {
    match cache {
        Some(v) => (Some(v), Ok(v)),
        None => if 1 <= raw && raw <= usize::MAX {
            (Some(raw as usize), Ok(raw as usize))
        } else {
            (None, Err(error_of_errno(errno)))
        },
    }
}

impl PageSizeCache {
    /// A cold cache.
    pub fn new() -> (r: PageSizeCache)
        ensures
            r@ is None,
    {
        PageSizeCache { cached: None }
    }

    /// Get the page size. `raw` is the value the native query produced
    /// and `errno` the error number it left behind; both are ignored once
    /// the cache is warm.
    pub fn get_page_size(&mut self, raw: i64, errno: i32) -> (r: Result<usize, MMapError>)
        ensures
            final(self)@ == page_size_outcome(old(self)@, raw, errno).0,
            r == page_size_outcome(old(self)@, raw, errno).1,
    {
        match self.cached {
            Some(v) => Ok(v),
            None => {
                if raw >= 1 && raw as u64 <= usize::MAX as u64 {
                    let v = raw as usize;
                    self.cached = Some(v);
                    Ok(v)
                } else {
                    Err(MMapError::from_errno(errno))
                }
            },
        }
    }
}

/// Get the minimum alignment of memory chunks: on POSIX it equals the
/// page size.
pub fn get_minimum_alignment(cache: &mut PageSizeCache, raw: i64, errno: i32) -> (r: Result<
    usize,
    MMapError,
>)
    ensures
        final(cache)@ == page_size_outcome(old(cache)@, raw, errno).0,
        r == page_size_outcome(old(cache)@, raw, errno).1,
{
    cache.get_page_size(raw, errno)
}

/// Relies on `libc::PROT_READ`: the native "pages may be read" protection
/// bit.
#[verifier::external_body]
fn prot_read() -> (r: i32)
    ensures
        r == 1,
{
    libc::PROT_READ
}

/// Relies on `libc::PROT_WRITE`: the native "pages may be written"
/// protection bit.
#[verifier::external_body]
fn prot_write() -> (r: i32)
    ensures
        r == 2,
{
    libc::PROT_WRITE
}

/// Relies on `libc::PROT_EXEC`: the native "pages may be executed"
/// protection bit.
#[verifier::external_body]
fn prot_exec() -> (r: i32)
    ensures
        r == 4,
{
    libc::PROT_EXEC
}

/// The native `PROT_*` encoding of a protection set: one bit per granted
/// capability.
pub open spec fn spec_protection_bits(p: ProtectionFlags) -> int {
    (if p.read {
        1int
    } else {
        0int
    }) + (if p.write {
        2int
    } else {
        0int
    }) + (if p.execute {
        4int
    } else {
        0int
    })
}

/// Encode a protection set as its native `PROT_*` bits.
pub fn protection_bits(protection: ProtectionFlags) -> (r: i32)
    ensures
        r == spec_protection_bits(protection),
{
    let mut r: i32 = 0;
    if protection.read {
        r = r + prot_read();
    }
    if protection.write {
        r = r + prot_write();
    }
    if protection.execute {
        r = r + prot_exec();
    }
    r
}

/// `mmap` flags.
#[derive(Copy, Clone, Debug, PartialEq, Eq, Structural)]
pub enum MapFlags {
    /// Share this mapping (updates visible to other processes).
    Shared,
    /// Private copy-on-write mapping.
    Private,
    /// The mapping is not backed by any file; its contents are
    /// initialized to zero.
    Anonymous,
    /// Do not reserve swap space for this mapping.
    NoReserve,
}

/// A combinable set of [`MapFlags`].
#[derive(Copy, Clone, Debug, PartialEq, Eq, Structural)]
pub struct MapFlagSet {
    /// Share this mapping.
    pub shared: bool,
    /// Private copy-on-write mapping.
    pub private: bool,
    /// Anonymous, zero-initialized mapping.
    pub anonymous: bool,
    /// Do not reserve swap space.
    pub no_reserve: bool,
}

/// Relies on `libc::MAP_SHARED`: the native "shared mapping" flag bit.
#[verifier::external_body]
fn map_shared() -> (r: i32)
    ensures
        r == 0x1,
{
    libc::MAP_SHARED
}

/// Relies on `libc::MAP_PRIVATE`: the native "private mapping" flag bit.
#[verifier::external_body]
fn map_private() -> (r: i32)
    ensures
        r == 0x2,
{
    libc::MAP_PRIVATE
}

/// Relies on `libc::MAP_ANONYMOUS`: the native "anonymous mapping" flag
/// bit on the Linux targets this backend addresses.
#[verifier::external_body]
fn map_anonymous() -> (r: i32)
    ensures
        r == 0x20,
{
    libc::MAP_ANONYMOUS
}

/// Relies on `libc::MAP_NORESERVE`: the native "no swap reservation" flag
/// bit on the Linux targets this backend addresses.
#[verifier::external_body]
fn map_no_reserve() -> (r: i32)
    ensures
        r == 0x4000,
{
    libc::MAP_NORESERVE
}

/// The native `MAP_*` encoding of a flag set: one bit per flag.
pub open spec fn spec_map_flag_bits(f: MapFlagSet) -> int {
    (if f.shared {
        0x1int
    } else {
        0int
    }) + (if f.private {
        0x2int
    } else {
        0int
    }) + (if f.anonymous {
        0x20int
    } else {
        0int
    }) + (if f.no_reserve {
        0x4000int
    } else {
        0int
    })
}

impl MapFlagSet {
    /// The empty set.
    pub fn none() -> (r: MapFlagSet)
        ensures
            !r.shared && !r.private && !r.anonymous && !r.no_reserve,
    {
        MapFlagSet { shared: false, private: false, anonymous: false, no_reserve: false }
    }

    /// This set with one more flag raised.
    pub fn with(self, f: MapFlags) -> (r: MapFlagSet)
        ensures
            r.shared == (self.shared || f is Shared),
            r.private == (self.private || f is Private),
            r.anonymous == (self.anonymous || f is Anonymous),
            r.no_reserve == (self.no_reserve || f is NoReserve),
    {
        match f {
            MapFlags::Shared => MapFlagSet { shared: true, ..self },
            MapFlags::Private => MapFlagSet { private: true, ..self },
            MapFlags::Anonymous => MapFlagSet { anonymous: true, ..self },
            MapFlags::NoReserve => MapFlagSet { no_reserve: true, ..self },
        }
    }

    /// Encode this set as its native `MAP_*` bits.
    pub fn bits(&self) -> (r: i32)
        ensures
            r == spec_map_flag_bits(*self),
    {
        let mut r: i32 = 0;
        if self.shared {
            r = r + map_shared();
        }
        if self.private {
            r = r + map_private();
        }
        if self.anonymous {
            r = r + map_anonymous();
        }
        if self.no_reserve {
            r = r + map_no_reserve();
        }
        r
    }
}

/// One fully prepared `mmap` request: the length to ask for, and the
/// native `PROT_*` and `MAP_*` bits to pass.
#[derive(Copy, Clone, Debug, PartialEq, Eq, Structural)]
pub struct MmapRequest {
    /// Number of bytes to map.
    pub length: usize,
    /// Native protection bits.
    pub protection_bits: i32,
    /// Native mapping flag bits.
    pub flag_bits: i32,
}

/// Build the request for a fresh, zero-initialized, anonymous private
/// mapping of exactly `size` bytes, rejecting a zero size as the native
/// call would accept it only by accident of rounding. The flag bits are
/// `MAP_PRIVATE | MAP_ANONYMOUS` (0x22).
pub fn allocate_request(size: usize, protection: ProtectionFlags) -> (r: Result<
    MmapRequest,
    MMapError,
>)
    ensures
        size == 0 ==> r == Err::<MmapRequest, MMapError>(MMapError::InvalidArguments),
        size > 0 ==> (r matches Ok(q) && q.length == size && q.protection_bits
            == spec_protection_bits(protection) && q.flag_bits == 0x22),
{
    if size == 0 {
        return Err(MMapError::InvalidArguments);
    }
    let flags = MapFlagSet::none().with(MapFlags::Private).with(MapFlags::Anonymous);
    Ok(MmapRequest { length: size, protection_bits: protection_bits(protection), flag_bits: flags.bits() })
}

/// Interpret what `mmap` handed back: the address of the fresh mapping,
/// or, when the call failed, the error its `errno` describes.
pub fn allocate_result(address: Option<usize>, errno: i32) -> (r: Result<usize, MMapError>)
    ensures
        address matches Some(a) ==> r == Ok::<usize, MMapError>(a),
        address is None ==> r == Err::<usize, MMapError>(error_of_errno(errno)),
{
    match address {
        Some(a) => Ok(a),
        None => Err(MMapError::from_errno(errno)),
    }
}

/// Interpret what `munmap` handed back: a negative return value means the
/// call failed with the error its `errno` describes.
pub fn deallocate_result(ret: i32, errno: i32) -> (r: Result<(), MMapError>)
    ensures
        ret >= 0 ==> r is Ok,
        ret < 0 ==> r == Err::<(), MMapError>(error_of_errno(errno)),
{
    if ret < 0 {
        Err(MMapError::from_errno(errno))
    } else {
        Ok(())
    }
}

/// Build the over-allocation request of the aligned-allocation protocol.
/// The native call cannot grant alignment directly, so to produce `size`
/// bytes aligned to `alignment`, `size + alignment` bytes are requested
/// first and the misaligned padding is trimmed afterwards with
/// [`aligned_trim`]. Alignment must be a power of two and `size` a
/// multiple of it.
pub fn aligned_request(alignment: usize, size: usize, protection: ProtectionFlags) -> (r:
    MmapRequest)
    requires
        is_pow2(alignment as int),
        size % alignment == 0,
        size + alignment <= usize::MAX,
    ensures
        r.length == size + alignment,
        r.protection_bits == spec_protection_bits(protection),
        r.flag_bits == 0x22,
{
    let flags = MapFlagSet::none().with(MapFlags::Private).with(MapFlags::Anonymous);
    MmapRequest {
        length: size + alignment,
        protection_bits: protection_bits(protection),
        flag_bits: flags.bits(),
    }
}

/// The trim step of the aligned-allocation protocol, computed from where
/// the over-allocated mapping landed: the `front_padding` bytes at the
/// raw address and the `back_padding` bytes at `start + size` are
/// released by two partial deallocations, and what stays mapped is
/// exactly the `size` bytes at the aligned `start`.
#[derive(Copy, Clone, Debug, PartialEq, Eq, Structural)]
pub struct TrimPlan {
    /// Bytes to release at the raw address.
    pub front_padding: usize,
    /// The aligned start of the region that stays mapped.
    pub start: usize,
    /// Bytes to release at `start + size`; zero when the raw address was
    /// already aligned.
    pub back_padding: usize,
}

/// Compute the trim plan for an over-allocated mapping of
/// `size + alignment` bytes that landed at `raw`.
pub fn aligned_trim(raw: usize, alignment: usize, size: usize) -> (plan: TrimPlan)
    requires
        is_pow2(alignment as int),
        size % alignment == 0,
        raw + size + alignment <= usize::MAX,
    ensures
        plan.start % alignment == 0,
        plan.start == raw + plan.front_padding,
        1 <= plan.front_padding <= alignment,
        plan.front_padding + plan.back_padding == alignment,
        plan.start + size + plan.back_padding == raw + size + alignment,
{
    proof {
        lemma_pow2_positive(alignment as int);
    }
    let back_padding = raw % alignment;
    let front_padding = alignment - back_padding;
    let start = raw + front_padding;
    proof {
        lemma_fundamental_div_mod(raw as int, alignment as int);
        assert(start == alignment * ((raw as int / alignment as int) + 1)) by (nonlinear_arith)
            requires
                alignment >= 1,
                raw == alignment * (raw as int / alignment as int) + (raw as int % alignment
                    as int),
                start == raw + alignment - (raw as int % alignment as int),
        ;
        assert(start as int % alignment as int == 0) by (nonlinear_arith)
            requires
                alignment >= 1,
                start == alignment * ((raw as int / alignment as int) + 1),
        ;
    }
    TrimPlan { front_padding, start, back_padding }
}

/// Whether byte address `b` lies in the region of `len` bytes starting
/// at `lo`.
pub open spec fn in_region(b: int, lo: int, len: int) -> bool {
    lo <= b < lo + len
}

/// The aligned-allocation protocol wastes nothing and leaks nothing:
/// every byte of the over-allocated region lies in exactly one of the
/// released front padding, the live aligned region, and the released back
/// padding, and the three stand in that order.
pub proof fn lemma_trim_partition(raw: usize, alignment: usize, size: usize, plan: TrimPlan)
    requires
        plan.start == raw + plan.front_padding,
        1 <= plan.front_padding,
        plan.front_padding + plan.back_padding == alignment,
        plan.start + size + plan.back_padding == raw + size + alignment,
    ensures
        raw < plan.start <= plan.start + size <= raw + size + alignment,
        forall|b: int|
            #[trigger] in_region(b, raw as int, size + alignment) <==> (in_region(
                b,
                raw as int,
                plan.front_padding as int,
            ) || in_region(b, plan.start as int, size as int) || in_region(
                b,
                plan.start + size,
                plan.back_padding as int,
            )),
{
}

/// Cache coherence law: once a page-size lookup has succeeded, every
/// later lookup returns the identical value and leaves the cache as it
/// is, whatever the later native query produced.
pub proof fn lemma_page_size_stable(
    cache: Option<usize>,
    raw1: i64,
    errno1: i32,
    raw2: i64,
    errno2: i32,
)
    ensures
        ({
            let (cache1, r1) = page_size_outcome(cache, raw1, errno1);
            let (cache2, r2) = page_size_outcome(cache1, raw2, errno2);
            r1 is Ok ==> r2 == r1 && cache2 == cache1
        }),
{
}

} // verus!
