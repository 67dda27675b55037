//! Memory allocation utilities: owned memory chunks and the mega-block
//! chain they are reserved in.

use vstd::prelude::*;

pub use crate::primitives::MMapError;
pub use crate::primitives::Protection;
pub use crate::primitives::ProtectionFlags;

use crate::common::Address;
use crate::common::MiB;
use crate::common::WORD_SIZE;

verus! {

/// Memory chunk: one live mapping, exclusively owned.
///
/// A chunk records the base address and size of a mapping obtained from
/// the platform primitives. Ownership is single and never duplicated:
/// the only way to give the region up is [`MemoryChunk::release`], which
/// consumes the chunk, so exactly one release can ever happen per chunk
/// — a second one is impossible by construction, not merely forbidden.
#[derive(Debug, PartialEq, Eq, Structural)]
pub struct MemoryChunk {
    data: usize,
    size: usize,
}

impl MemoryChunk {
    /// The base address of the mapping.
    pub closed spec fn spec_base(self) -> int {
        self.data as int
    }

    /// The size of the mapping in bytes.
    pub closed spec fn spec_size(self) -> int {
        self.size as int
    }

    /// A chunk is never empty and fits in the address space.
    pub open spec fn wf(self) -> bool {
        &&& 0 < self.spec_size()
        &&& self.spec_base() + self.spec_size() <= usize::MAX
    }

    /// Take ownership of the mapping of `size` bytes at `data`.
    /// The caller hands over a freshly obtained mapping and must keep no
    /// other handle to it.
    pub fn from_mapping(data: usize, size: usize) -> (r: MemoryChunk)
        requires
            0 < size,
            data + size <= usize::MAX,
        ensures
            r.spec_base() == data,
            r.spec_size() == size,
            r.wf(),
    {
        MemoryChunk { data, size }
    }

    /// Pointer to the starting address of this chunk.
    pub fn data(&self) -> (r: Address)
        ensures
            r@ == self.spec_base(),
    {
        Address::new(self.data)
    }

    /// Length of this chunk.
    pub fn size(&self) -> (r: usize)
        ensures
            r == self.spec_size(),
    {
        self.size
    }

    /// Give the region up for deallocation, handing its base address and
    /// size back to the caller. Consuming the chunk is what makes a
    /// second release of the same region impossible.
    pub fn release(self) -> (r: (usize, usize))
        ensures
            r.0 == self.spec_base(),
            r.1 == self.spec_size(),
    {
        (self.data, self.size)
    }
}

/// Mega-blocks: allocation units; blocks are reserved from mega-blocks.
///
/// Mega-blocks are managed in a forward-chained list: each node owns the
/// chunk beneath it and the rest of the chain after it.
pub struct MegaBlock {
    /// The allocated memory chunk for this mega-block.
    pub chunk: MemoryChunk,
    /// The next mega-block in the list.
    pub next: MegaBlockList,
}

/// Mega-block lists: a singly-forward-traversable, owner-chained list of
/// mega-blocks. Every node is reachable from the head, no two nodes
/// share a chunk, and no cycle can be constructed, since each node owns
/// its tail outright.
pub struct MegaBlockList {
    head: Option<Box<MegaBlock>>,
}

impl MegaBlockList {
    /// The chunks of the list's nodes, in chain order.
    pub closed spec fn spec_chunks(self) -> Seq<MemoryChunk>
        decreases self,
    {
        match self.head {
            None => Seq::empty(),
            Some(b) => seq![b.chunk] + b.next.spec_chunks(),
        }
    }
}

impl View for MegaBlockList {
    type V = Seq<MemoryChunk>;

    closed spec fn view(&self) -> Seq<MemoryChunk> {
        self.spec_chunks()
    }
}

impl MegaBlock {
    /// Size of a `MegaBlock`, in bytes.
    pub const SIZE: usize = 4 * MiB;

    /// Size of a `MegaBlock` in words.
    pub const SIZE_IN_WORDS: usize = Self::SIZE / WORD_SIZE;

    /// A mega-block owns a chunk of exactly [`MegaBlock::SIZE`] bytes,
    /// and a well-formed tail.
    pub open spec fn wf(self) -> bool {
        &&& self.chunk.wf()
        &&& self.chunk.spec_size() == MegaBlock::SIZE
        &&& self.next.wf()
    }

    /// Constructor for `MegaBlock`: wrap a mega-block-sized chunk as a
    /// node with no successor.
    pub fn new(chunk: MemoryChunk) -> (r: MegaBlock)
        requires
            chunk.wf(),
            chunk.spec_size() == MegaBlock::SIZE,
        ensures
            r.chunk == chunk,
            r.next@ == Seq::<MemoryChunk>::empty(),
            r.wf(),
    {
        MegaBlock { chunk, next: MegaBlockList::new() }
    }
}

impl MegaBlockList {
    /// Every chunk in the list is well-formed and of mega-block size.
    pub open spec fn wf(self) -> bool {
        forall|k: int|
            0 <= k < self@.len() ==> (#[trigger] self@[k]).wf() && self@[k].spec_size()
                == MegaBlock::SIZE
    }

    /// Constructor for `MegaBlockList`: the empty list.
    pub fn new() -> (r: MegaBlockList)
        ensures
            r@ == Seq::<MemoryChunk>::empty(),
            r.wf(),
    {
        MegaBlockList { head: None }
    }

    /// Grow the list by one node owning `chunk`, in front of the
    /// existing chain.
    pub fn push(self, chunk: MemoryChunk) -> (r: MegaBlockList)
        requires
            chunk.wf(),
            chunk.spec_size() == MegaBlock::SIZE,
        ensures
            r@ == seq![chunk] + self@,
            self.wf() ==> r.wf(),
    {
        let r = MegaBlockList { head: Some(Box::new(MegaBlock { chunk, next: self })) };
        proof {
            if self.wf() {
                assert forall|k: int| 0 <= k < r@.len() implies (#[trigger] r@[k]).wf()
                    && r@[k].spec_size() == MegaBlock::SIZE by {
                    if k > 0 {
                        assert(r@[k] == self@[k - 1]);
                    }
                }
            }
        }
        r
    }

    /// The first node of this list, if existing.
    pub fn head(&self) -> (r: Option<&MegaBlock>)
        ensures
            self@.len() == 0 ==> r is None,
            self@.len() > 0 ==> (r matches Some(b) && b.chunk == self@[0] && b.next@ == self@
                .drop_first()),
    {
        match &self.head {
            None => None,
            Some(b) => {
                proof {
                    assert(b.next@ =~= self@.drop_first());
                }
                Some(&**b)
            },
        }
    }

    /// The first node of this list, if existing, borrowed mutably; the
    /// list afterwards consists of whatever the caller leaves in that
    /// node, followed by nothing else than the node's own tail.
    pub fn head_mut(&mut self) -> (r: Option<&mut MegaBlock>)
        ensures
            old(self)@.len() == 0 ==> r is None && final(self)@ == old(self)@,
            old(self)@.len() > 0 ==> (r matches Some(m) && m.chunk == old(self)@[0] && m.next@
                == old(self)@.drop_first() && final(self)@ == seq![final(m).chunk]
                + final(m).next@),
    {
        match &mut self.head {
            None => None,
            Some(b) => {
                proof {
                    assert(old(self)@.drop_first() =~= old(self).head->Some_0.next@);
                }
                Some(&mut **b)
            },
        }
    }

    /// Const iterator for traversing the mega-block list.
    pub fn iter(&self) -> (r: MegaBlockIterator<'_>)
        ensures
            r.remaining() == self@,
    {
        MegaBlockIterator { node: self.head() }
    }

    /// Iterating memory chunks.
    pub fn chunks(&self) -> (r: ChunkIterator<'_>)
        ensures
            r.remaining() == self@,
    {
        ChunkIterator { node: self.head() }
    }

    /// Tear the list down into its chunks, in chain order. Consuming the
    /// list hands each chunk out exactly once, so every mapping can be
    /// released exactly once by whoever owns the result.
    pub fn into_chunks(self) -> (r: Vec<MemoryChunk>)
        ensures
            r@ == self@,
    {
        let ghost orig = self@;
        let mut out: Vec<MemoryChunk> = Vec::new();
        let mut cur = self;
        #[verifier::loop_isolation(false)]
        loop
            invariant
                out@ + cur@ == orig,
            decreases cur@.len(),
        {
            match cur.head {
                None => {
                    proof {
                        assert(out@ =~= orig);
                    }
                    return out;
                },
                Some(b) => {
                    let node = *b;
                    out.push(node.chunk);
                    cur = node.next;
                    proof {
                        assert(out@ + cur@ =~= orig);
                    }
                },
            }
        }
    }

    /// Number of mega-blocks in the list. The walk terminates after
    /// exactly the number of live nodes, and is safe on an empty list.
    pub fn len(&self) -> (r: usize)
        requires
            self@.len() <= usize::MAX,
        ensures
            r == self@.len(),
    {
        let mut it = self.iter();
        let mut n: usize = 0;
        loop
            invariant
                n + it.remaining().len() == self@.len(),
                self@.len() <= usize::MAX,
            decreases it.remaining().len(),
        {
            match it.next() {
                Some(_) => {
                    n = n + 1;
                },
                None => {
                    return n;
                },
            }
        }
    }
}

/// Const iterator for mega-blocks.
pub struct MegaBlockIterator<'a> {
    node: Option<&'a MegaBlock>,
}

impl<'a> MegaBlockIterator<'a> {
    /// The chunks of the nodes still to be visited, in chain order.
    pub closed spec fn remaining(self) -> Seq<MemoryChunk> {
        match self.node {
            None => Seq::empty(),
            Some(b) => seq![b.chunk] + b.next@,
        }
    }

    /// Yield the node at the front of the walk and advance past it.
    pub fn next(&mut self) -> (r: Option<&'a MegaBlock>)
        ensures
            old(self).remaining().len() == 0 ==> r is None && final(self).remaining() == old(
                self,
            ).remaining(),
            old(self).remaining().len() > 0 ==> (r matches Some(b) && b.chunk == old(
                self,
            ).remaining()[0] && final(self).remaining() == old(self).remaining().drop_first()),
    {
        match self.node {
            None => None,
            Some(b) => {
                proof {
                    assert(old(self).remaining().drop_first() =~= b.next@);
                }
                self.node = b.next.head();
                Some(b)
            },
        }
    }
}

/// Const iterator for chunks in a mega-block list.
pub struct ChunkIterator<'a> {
    node: Option<&'a MegaBlock>,
}

impl<'a> ChunkIterator<'a> {
    /// The chunks still to be visited, in chain order.
    pub closed spec fn remaining(self) -> Seq<MemoryChunk> {
        match self.node {
            None => Seq::empty(),
            Some(b) => seq![b.chunk] + b.next@,
        }
    }

    /// Yield the chunk at the front of the walk and advance past it.
    pub fn next(&mut self) -> (r: Option<&'a MemoryChunk>)
        ensures
            old(self).remaining().len() == 0 ==> r is None && final(self).remaining() == old(
                self,
            ).remaining(),
            old(self).remaining().len() > 0 ==> (r matches Some(c) && *c == old(
                self,
            ).remaining()[0] && final(self).remaining() == old(self).remaining().drop_first()),
    {
        match self.node {
            None => None,
            Some(b) => {
                proof {
                    assert(old(self).remaining().drop_first() =~= b.next@);
                }
                self.node = b.next.head();
                Some(&b.chunk)
            },
        }
    }
}

} // verus!
