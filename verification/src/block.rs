//! Memory block: a fixed-size region holding a packed sequence of
//! objects.
//!
//! # Block layout
//!
//! ```text
//! +----------+----------+-----+----------+--------------+
//! | reserved | object 0 | ... | object N | not used yet |
//! +----------+----------+-----+----------+--------------+
//!            ^                           ^
//!            |                           |
//!          start                        free
//! ```
//!
//! - Reserved space: some space may be reserved at the front of the
//!   block.
//! - Objects 0 to N: a gapless run of validly laid-out objects.
//! - Not used yet: for future allocation, or wasted due to
//!   fragmentation.
//!
//! As everywhere in this crate, block memory is word-addressed: `start`
//! and `free` are indices into a memory image of machine words.

use vstd::prelude::*;

use crate::common::KiB;
use crate::common::WORD_SIZE;
use crate::object::Object;
use crate::object::ObjectView;
use crate::object::object_view_at;
use crate::object::valid_object_at;

verus! {

/// The block region `[start, free)` holds a gapless run of validly
/// laid-out objects: either it is empty, or a valid object starts at
/// `start` and the rest of the region is again such a run.
pub open spec fn block_wf(mem: Seq<usize>, start: int, free: int) -> bool
    decreases free - start,
{
    if start < free {
        &&& valid_object_at(mem, start)
        &&& start + object_view_at(mem, start).descriptor.spec_total_size() <= free
        &&& block_wf(mem, start + object_view_at(mem, start).descriptor.spec_total_size(), free)
    } else {
        start == free
    }
}

/// The objects laid out consecutively in the region `[start, free)`, in
/// address order.
pub open spec fn objects_seq(mem: Seq<usize>, start: int, free: int) -> Seq<ObjectView>
    decreases free - start,
{
    if start < free && valid_object_at(mem, start) && start + object_view_at(
        mem,
        start,
    ).descriptor.spec_total_size() <= free {
        seq![object_view_at(mem, start)] + objects_seq(
            mem,
            start + object_view_at(mem, start).descriptor.spec_total_size(),
            free,
        )
    } else {
        Seq::empty()
    }
}

/// A block whose free mark sits at its start holds no objects: walking
/// it yields the empty sequence, whatever the memory image holds.
pub proof fn lemma_empty_block(mem: Seq<usize>, start: int)
    ensures
        objects_seq(mem, start, start) == Seq::<ObjectView>::empty(),
        block_wf(mem, start, start),
{
}

/// Memory block: collection of objects.
///
/// A non-owning view into a memory image. `start` and `free` are word
/// addresses; every word in `[start, free)` belongs to exactly one
/// object, and no object extends to or past `free`.
#[derive(Copy, Clone)]
pub struct BlockDescriptor<'a> {
    /// The memory image the block lives in.
    pub mem: &'a Vec<usize>,
    /// The starting address for this block.
    pub start: usize,
    /// The first free address in this block; the high-water allocation
    /// mark.
    pub free: usize,
}

/// Iterator for [`Object`]s: a restartable, read-only walk of the
/// objects between `current` and `boundary`.
pub struct ObjectIterator<'a> {
    /// The memory image being walked.
    pub mem: &'a Vec<usize>,
    /// Address of the next object to yield.
    pub current: usize,
    /// The walk stops here; no object is yielded at or past it.
    pub boundary: usize,
}

impl<'a> ObjectIterator<'a> {
    /// The region still to be walked is a gapless run of valid objects.
    pub open spec fn wf(self) -> bool {
        &&& block_wf(self.mem@, self.current as int, self.boundary as int)
        &&& self.boundary <= self.mem@.len()
    }

    /// The objects the walk has still to yield, in order.
    pub open spec fn remaining(self) -> Seq<ObjectView> {
        objects_seq(self.mem@, self.current as int, self.boundary as int)
    }

    /// Yield the object at `current` and advance past it, or report the
    /// end of the block.
    pub fn next(&mut self) -> (r: Option<Object>)
        requires
            old(self).wf(),
        ensures
            final(self).wf(),
            final(self).mem == old(self).mem,
            final(self).boundary == old(self).boundary,
            old(self).remaining().len() == 0 ==> r is None && final(self).current == old(
                self,
            ).current,
            old(self).remaining().len() > 0 ==> (r matches Some(o) && o.wf() && o@ == old(
                self,
            ).remaining()[0] && final(self).remaining() == old(self).remaining().drop_first()),
    {
        if self.current >= self.boundary {
            return None;
        }
        let obj = Object::read_from(self.mem, self.current);
        let size = obj.total_size();
        proof {
            assert(old(self).remaining() =~= seq![obj@] + objects_seq(
                self.mem@,
                self.current + size,
                self.boundary as int,
            ));
            assert((seq![obj@] + objects_seq(
                self.mem@,
                self.current + size,
                self.boundary as int,
            )).drop_first() =~= objects_seq(
                self.mem@,
                self.current + size,
                self.boundary as int,
            ));
        }
        self.current = self.current + size;
        Some(obj)
    }
}

impl<'a> BlockDescriptor<'a> {
    /// Size of a block, in bytes.
    pub const SIZE: usize = 4 * KiB;

    /// Size of a block in words.
    pub const SIZE_IN_WORDS: usize = Self::SIZE / WORD_SIZE;

    /// The block is a gapless run of valid objects inside its memory
    /// image.
    pub open spec fn wf(self) -> bool {
        &&& block_wf(self.mem@, self.start as int, self.free as int)
        &&& self.free <= self.mem@.len()
    }

    /// The objects currently in the block, in address order.
    pub open spec fn objects_view(self) -> Seq<ObjectView> {
        objects_seq(self.mem@, self.start as int, self.free as int)
    }

    /// Constructor for `BlockDescriptor`: a fresh block holds no objects
    /// yet, so its free mark sits at its start.
    pub fn new(mem: &'a Vec<usize>, start: usize) -> (r: BlockDescriptor<'a>)
        requires
            start <= mem@.len(),
        ensures
            r.mem == mem,
            r.start == start,
            r.free == start,
            r.wf(),
            r.objects_view() =~= Seq::<ObjectView>::empty(),
    {
        BlockDescriptor { mem, start, free: start }
    }

    /// Iterate on the objects in this block. Each call starts a fresh
    /// walk at `start`; iterating mutates nothing.
    pub fn objects(&self) -> (r: ObjectIterator<'a>)
        requires
            self.wf(),
        ensures
            r.wf(),
            r.mem == self.mem,
            r.current == self.start,
            r.boundary == self.free,
            r.remaining() == self.objects_view(),
    {
        ObjectIterator { mem: self.mem, current: self.start, boundary: self.free }
    }

    /// All objects in this block, collected in address order.
    pub fn objects_vec(&self) -> (r: Vec<Object>)
        requires
            self.wf(),
        ensures
            r@.len() == self.objects_view().len(),
            forall|k: int|
                0 <= k < r@.len() ==> #[trigger] r@[k]@ == self.objects_view()[k] && r@[k].wf(),
    {
        let mut out: Vec<Object> = Vec::new();
        let mut it = self.objects();
        loop
            invariant
                it.wf(),
                it.mem == self.mem,
                it.boundary == self.free,
                out@.len() + it.remaining().len() == self.objects_view().len(),
                forall|k: int|
                    0 <= k < out@.len() ==> #[trigger] out@[k]@ == self.objects_view()[k]
                        && out@[k].wf(),
                forall|k: int|
                    0 <= k < it.remaining().len() ==> it.remaining()[k] == self.objects_view()[
                        out@.len() + k
                    ],
            decreases it.remaining().len(),
        {
            let ghost before = it.remaining();
            let ghost done = out@;
            match it.next() {
                Some(obj) => {
                    proof {
                        assert(before[0] == self.objects_view()[done.len() as int]);
                    }
                    out.push(obj);
                    proof {
                        assert forall|k: int| 0 <= k < out@.len() implies #[trigger] out@[k]@
                            == self.objects_view()[k] && out@[k].wf() by {
                            if k < done.len() {
                                assert(out@[k] == done[k]);
                            } else {
                                assert(out@[k] == obj);
                            }
                        }
                        assert forall|k: int| 0 <= k < it.remaining().len() implies #[trigger] it
                            .remaining()[k] == self.objects_view()[out@.len() + k] by {
                            assert(it.remaining()[k] == before[k + 1]);
                        }
                    }
                },
                None => {
                    return out;
                },
            }
        }
    }
}

} // verus!
