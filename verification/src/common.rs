//! Common memory-related utilities: byte-size units and the `Address`
//! wrapper used for all address arithmetic in this crate.

use vstd::prelude::*;

verus! {

/// size in Bytes
pub const B: usize = 1;

/// size in Kibibytes, as defined in IEC 60027-2
#[allow(non_upper_case_globals)]
pub const KiB: usize = 1024 * B;

/// size in Mebibytes, as defined in IEC 60027-2
#[allow(non_upper_case_globals)]
pub const MiB: usize = 1024 * KiB;

/// size in Gibibytes, as defined in IEC 60027-2
#[allow(non_upper_case_globals)]
pub const GiB: usize = 1024 * MiB;

/// Size of a machine word in bytes, on the 64-bit targets this layer
/// addresses.
pub const WORD_SIZE: usize = 8;

/// A memory address.
///
/// Raw pointers carry no lifetime and no alignment guarantee, so this layer
/// funnels all address arithmetic through this wrapper: reinterpreting an
/// address as a pointer to some type `T` is only permitted when the address
/// is a multiple of `T`'s alignment, and offsets are checked against the
/// address-space bounds. Ordering between two addresses is the total order
/// on their numeric values.
#[derive(Clone, Copy, Debug, PartialEq, Eq, Structural)]
pub struct Address {
    address: usize,
}

impl View for Address {
    type V = int;

    closed spec fn view(&self) -> int {
        self.address as int
    }
}

impl Address {
    /// Wrap a raw numeric address. The caller is responsible for the claim
    /// that the address is meaningful for as long as the wrapper is used.
    pub fn new(address: usize) -> (r: Address)
        ensures
            r@ == address,
    {
        Address { address }
    }

    /// The numeric value of this address, interpreted as a pointer to some
    /// type `T`; only defined for addresses aligned for `T`.
    pub fn as_ptr<T>(&self) -> (r: usize)
        requires
            self@ % (vstd::layout::align_of::<T>() as int) == 0,
        ensures
            r == self@,
    {
        self.address
    }

    /// Add a (possibly negative) byte offset to an `Address`.
    pub fn offset(&self, count: isize) -> (r: Address)
        requires
            0 <= self@ + count <= usize::MAX,
        ensures
            r@ == self@ + count,
    {
        if count >= 0 {
            Address { address: self.address + (count as usize) }
        } else {
            let magnitude: usize = ((-(count + 1)) as usize) + 1;
            Address { address: self.address - magnitude }
        }
    }
}

impl PartialOrd for Address {
    /// Addresses are ordered by the total order on their numeric values.
    fn partial_cmp(&self, other: &Address) -> (r: Option<core::cmp::Ordering>) {
        if self.address < other.address {
            Some(core::cmp::Ordering::Less)
        } else if self.address == other.address {
            Some(core::cmp::Ordering::Equal)
        } else {
            Some(core::cmp::Ordering::Greater)
        }
    }
}

impl vstd::std_specs::cmp::PartialOrdSpecImpl for Address {
    open spec fn obeys_partial_cmp_spec() -> bool {
        true
    }

    open spec fn partial_cmp_spec(&self, other: &Address) -> Option<core::cmp::Ordering> {
        if self@ < other@ {
            Some(core::cmp::Ordering::Less)
        } else if self@ == other@ {
            Some(core::cmp::Ordering::Equal)
        } else {
            Some(core::cmp::Ordering::Greater)
        }
    }
}

/// Check that a memory address is properly aligned for `T` and hand it back
/// for use as a pointer to `T`. Misaligned input is a programming error, not
/// a recoverable condition, so it is excluded outright.
pub fn assert_aligned<T>(mem: usize) -> (r: usize)
    requires
        mem as int % (vstd::layout::align_of::<T>() as int) == 0,
    ensures
        r == mem,
{
    mem
}

/// Consumes a memory chunk as a slice.
///
/// Read `n` words of the word-addressed memory image `words` starting at
/// the current address, then advance the address past them.
pub fn consume_as_slice(mem: &mut Address, words: &Vec<usize>, n: usize) -> (r: Vec<usize>)
    requires
        old(mem)@ + n <= words@.len(),
    ensures
        r@ == words@.subrange(old(mem)@, old(mem)@ + n),
        final(mem)@ == old(mem)@ + n,
{
    let _image_len = words.len();
    let start = mem.address;
    let mut out: Vec<usize> = Vec::new();
    let mut i: usize = 0;
    while i < n
        invariant
            i <= n,
            start + n <= words@.len(),
            words@.len() <= usize::MAX,
            out@ == words@.subrange(start as int, start + i),
        decreases n - i,
    {
        out.push(words[start + i]);
        i = i + 1;
        proof {
            assert(out@ =~= words@.subrange(start as int, start + i));
        }
    }
    *mem = Address { address: start + n };
    out
}

/// Consumes a memory chunk as a reference.
///
/// Read the one word of the word-addressed memory image `words` at the
/// current address, then advance the address past it.
pub fn consume_as_ref(mem: &mut Address, words: &Vec<usize>) -> (r: usize)
    requires
        old(mem)@ < words@.len(),
    ensures
        r == words@[old(mem)@],
        final(mem)@ == old(mem)@ + 1,
{
    let _image_len = words.len();
    let start = mem.address;
    let r = words[start];
    *mem = Address { address: start + 1 };
    r
}

} // verus!
