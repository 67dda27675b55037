//! An object is effectively a collection of pointers.
//!
//! Heap memory is word-addressed here: a memory image is a sequence of
//! machine words, and every address in this module is an index into that
//! sequence. An object stored at address `a` occupies `1 + u + p`
//! consecutive words: one word holding the address of its descriptor,
//! then `u` unpacked scalar words, then `p` pointer words — in that fixed
//! order, which is the entire reason a descriptor needs only two counts
//! to determine the layout.

use vstd::prelude::*;

use crate::common::Address;
use crate::common::consume_as_ref;
use crate::common::consume_as_slice;

verus! {

/// Object descriptors.
///
/// ```text
/// +-----------------------+-----------------+----------+
/// | pointer to descriptor | unpacked fields | pointers |
/// +-----------------------+-----------------+----------+
/// ```
///
/// All unpacked fields are gathered at the front of the object, so all
/// the pointer fields are left at the back. A descriptor describes a
/// shape shared by many instances, and must stay reachable for the whole
/// lifetime of every object using it.
#[derive(Copy, Clone, Debug, PartialEq, Eq, Structural)]
pub struct ObjectDescriptor {
    /// Number of unpacked fields in objects described by this descriptor.
    pub unpacked_field_count: usize,
    /// Number of boxed fields (i.e. pointers) in objects described by
    /// this descriptor.
    pub pointer_count: usize,
}

impl ObjectDescriptor {
    /// The total object size in words: one word for the descriptor
    /// pointer, one per unpacked field, one per pointer.
    pub open spec fn spec_total_size(self) -> int {
        1 + self.unpacked_field_count + self.pointer_count
    }

    /// The total size occupied by this kind of object, in words.
    /// Always aligned to a word boundary by construction.
    pub fn total_size(&self) -> (r: usize)
        requires
            self.spec_total_size() <= usize::MAX,
        ensures
            r == self.spec_total_size(),
    {
        1 + self.unpacked_field_count + self.pointer_count
    }
}

/// Whether a valid descriptor (two counts whose object size is
/// representable) is stored at word address `d` of the memory image.
pub open spec fn valid_descriptor_at(mem: Seq<usize>, d: int) -> bool {
    &&& 0 <= d
    &&& d + 2 <= mem.len()
    &&& 1 + mem[d] + mem[d + 1] <= usize::MAX
}

/// The descriptor stored at word address `d` of the memory image.
pub open spec fn descriptor_at(mem: Seq<usize>, d: int) -> ObjectDescriptor {
    ObjectDescriptor { unpacked_field_count: mem[d], pointer_count: mem[d + 1] }
}

/// Whether a validly laid-out object starts at word address `a`: its
/// first word names a valid descriptor, and the whole object fits in the
/// memory image.
pub open spec fn valid_object_at(mem: Seq<usize>, a: int) -> bool {
    &&& 0 <= a < mem.len()
    &&& valid_descriptor_at(mem, mem[a] as int)
    &&& a + descriptor_at(mem, mem[a] as int).spec_total_size() <= mem.len()
}

/// The fully decoded shape of one object: where it starts, which
/// descriptor it names, and the contents of its two field regions.
pub struct ObjectView {
    /// Word address of the object.
    pub start: int,
    /// Word address of the descriptor, as stored in the object's first
    /// word.
    pub descriptor_address: int,
    /// The descriptor those two words hold.
    pub descriptor: ObjectDescriptor,
    /// The unpacked scalar words.
    pub unpacked: Seq<usize>,
    /// The pointer words.
    pub pointers: Seq<usize>,
}

/// Decode the object stored at word address `a` of the memory image.
pub open spec fn object_view_at(mem: Seq<usize>, a: int) -> ObjectView {
    let d = mem[a] as int;
    let desc = descriptor_at(mem, d);
    ObjectView {
        start: a,
        descriptor_address: d,
        descriptor: desc,
        unpacked: mem.subrange(a + 1, a + 1 + desc.unpacked_field_count),
        pointers: mem.subrange(
            a + 1 + desc.unpacked_field_count,
            a + 1 + desc.unpacked_field_count + desc.pointer_count,
        ),
    }
}

/// An object, reconstructed from a memory image as an owned record.
#[derive(Clone, Debug, PartialEq, Eq)]
pub struct Object {
    /// Word address the object was read from.
    pub start: usize,
    /// Word address of its descriptor.
    pub descriptor_address: usize,
    /// The descriptor those two words hold.
    pub descriptor: ObjectDescriptor,
    /// The unpacked fields.
    pub unpacked: Vec<usize>,
    /// The boxed fields (i.e. pointers), each a word address of another
    /// object.
    pub pointers: Vec<usize>,
}

impl View for Object {
    type V = ObjectView;

    open spec fn view(&self) -> ObjectView {
        ObjectView {
            start: self.start as int,
            descriptor_address: self.descriptor_address as int,
            descriptor: self.descriptor,
            unpacked: self.unpacked@,
            pointers: self.pointers@,
        }
    }
}

impl Object {
    /// The record agrees with its own descriptor.
    pub open spec fn wf(self) -> bool {
        &&& self.unpacked.len() == self.descriptor.unpacked_field_count
        &&& self.pointers.len() == self.descriptor.pointer_count
        &&& self.descriptor.spec_total_size() <= usize::MAX
    }

    /// The total size for this object, in words.
    /// See also [`ObjectDescriptor::total_size`].
    pub fn total_size(&self) -> (r: usize)
        requires
            self.wf(),
        ensures
            r == self.descriptor.spec_total_size(),
    {
        self.descriptor.total_size()
    }

    /// The starting address of this object, i.e. where the descriptor
    /// pointer is stored.
    pub fn start_address(&self) -> (r: Address)
        ensures
            r@ == self.start,
    {
        Address::new(self.start)
    }

    /// Reconstruct the object stored at word address `address` of the
    /// memory image: read the descriptor address and the two counts it
    /// names, then the two field regions that follow.
    pub fn read_from(mem: &Vec<usize>, address: usize) -> (r: Object)
        requires
            valid_object_at(mem@, address as int),
        ensures
            r.wf(),
            r@ == object_view_at(mem@, address as int),
    {
        let _image_len = mem.len();
        let mut cursor = Address::new(address);
        let descriptor_address = consume_as_ref(&mut cursor, mem);
        let unpacked_field_count = mem[descriptor_address];
        let pointer_count = mem[descriptor_address + 1];
        let descriptor = ObjectDescriptor { unpacked_field_count, pointer_count };
        let unpacked = consume_as_slice(&mut cursor, mem, unpacked_field_count);
        let pointers = consume_as_slice(&mut cursor, mem, pointer_count);
        Object { start: address, descriptor_address, descriptor, unpacked, pointers }
    }
}

/// Store an object at word address `address` of the memory image: its
/// descriptor address in the first word, then the unpacked fields, then
/// the pointer fields. The two counts stored at `descriptor_address`
/// must match the two field runs, and the object must not overwrite its
/// own descriptor. Reading the address back with [`Object::read_from`]
/// yields exactly what was written; no other word of the image changes.
pub fn write_object(
    mem: &mut Vec<usize>,
    address: usize,
    descriptor_address: usize,
    unpacked: &Vec<usize>,
    pointers: &Vec<usize>,
)
    requires
        valid_descriptor_at(old(mem)@, descriptor_address as int),
        old(mem)@[descriptor_address as int] == unpacked@.len(),
        old(mem)@[descriptor_address as int + 1] == pointers@.len(),
        address + 1 + unpacked@.len() + pointers@.len() <= old(mem)@.len(),
        descriptor_address + 2 <= address || address + 1 + unpacked@.len() + pointers@.len()
            <= descriptor_address,
    ensures
        final(mem)@.len() == old(mem)@.len(),
        forall|k: int|
            0 <= k < final(mem)@.len() && !(address <= k < address + 1 + unpacked@.len()
                + pointers@.len()) ==> final(mem)@[k] == old(mem)@[k],
        valid_object_at(final(mem)@, address as int),
        object_view_at(final(mem)@, address as int) == (ObjectView {
            start: address as int,
            descriptor_address: descriptor_address as int,
            descriptor: ObjectDescriptor {
                unpacked_field_count: unpacked@.len() as usize,
                pointer_count: pointers@.len() as usize,
            },
            unpacked: unpacked@,
            pointers: pointers@,
        }),
{
    let _image_len = mem.len();
    let unpacked_field_count = unpacked.len();
    let pointer_count = pointers.len();
    mem.set(address, descriptor_address);
    let mut i: usize = 0;
    while i < unpacked_field_count
        invariant
            i <= unpacked_field_count,
            unpacked_field_count == unpacked@.len(),
            pointer_count == pointers@.len(),
            address + 1 + unpacked_field_count + pointer_count <= mem@.len(),
            mem@.len() <= usize::MAX,
            mem@.len() == old(mem)@.len(),
            mem@[address as int] == descriptor_address,
            forall|k: int|
                0 <= k < mem@.len() && !(address <= k < address + 1 + i) ==> mem@[k] == old(
                    mem,
                )@[k],
            mem@.subrange(address + 1, address + 1 + i) == unpacked@.subrange(0, i as int),
        decreases unpacked_field_count - i,
    {
        mem.set(address + 1 + i, unpacked[i]);
        i = i + 1;
        proof {
            assert(mem@.subrange(address + 1, address + 1 + i) =~= unpacked@.subrange(
                0,
                i as int,
            ));
        }
    }
    let mut j: usize = 0;
    while j < pointer_count
        invariant
            j <= pointer_count,
            unpacked_field_count == unpacked@.len(),
            pointer_count == pointers@.len(),
            address + 1 + unpacked_field_count + pointer_count <= mem@.len(),
            mem@.len() <= usize::MAX,
            mem@.len() == old(mem)@.len(),
            mem@[address as int] == descriptor_address,
            forall|k: int|
                0 <= k < mem@.len() && !(address <= k < address + 1 + unpacked_field_count + j)
                    ==> mem@[k] == old(mem)@[k],
            mem@.subrange(address + 1, address + 1 + unpacked_field_count) == unpacked@,
            mem@.subrange(
                address + 1 + unpacked_field_count,
                address + 1 + unpacked_field_count + j,
            ) == pointers@.subrange(0, j as int),
        decreases pointer_count - j,
    {
        mem.set(address + 1 + unpacked_field_count + j, pointers[j]);
        j = j + 1;
        proof {
            assert(mem@.subrange(address + 1, address + 1 + unpacked_field_count)
                =~= unpacked@);
            assert(mem@.subrange(
                address + 1 + unpacked_field_count,
                address + 1 + unpacked_field_count + j,
            ) =~= pointers@.subrange(0, j as int));
        }
    }
    proof {
        assert(unpacked@.subrange(0, unpacked@.len() as int) =~= unpacked@);
        assert(pointers@.subrange(0, pointers@.len() as int) =~= pointers@);
        assert(object_view_at(mem@, address as int).unpacked =~= unpacked@);
        assert(object_view_at(mem@, address as int).pointers =~= pointers@);
    }
}

} // verus!
