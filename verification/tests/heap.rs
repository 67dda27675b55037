//! Tests for the heap layout layer: addresses, chunks, mega-block lists,
//! blocks and the self-describing object format.

use memory_manager::allocate::MegaBlock;
use memory_manager::allocate::MegaBlockList;
use memory_manager::allocate::MemoryChunk;
use memory_manager::block::BlockDescriptor;
use memory_manager::common::assert_aligned;
use memory_manager::common::consume_as_ref;
use memory_manager::common::consume_as_slice;
use memory_manager::common::Address;
use memory_manager::common::GiB;
use memory_manager::common::KiB;
use memory_manager::common::MiB;
use memory_manager::common::B;
use memory_manager::object::write_object;
use memory_manager::object::Object;
use memory_manager::object::ObjectDescriptor;

#[test]
fn test_size_units() {
    assert_eq!(B, 1);
    assert_eq!(KiB, 1024);
    assert_eq!(MiB, 1024 * 1024);
    assert_eq!(GiB, 1024 * 1024 * 1024);
    assert_eq!(MegaBlock::SIZE, 4 * MiB);
    assert_eq!(MegaBlock::SIZE_IN_WORDS, 4 * MiB / 8);
    assert_eq!(BlockDescriptor::SIZE, 4 * KiB);
    assert_eq!(BlockDescriptor::SIZE_IN_WORDS, 512);
}

#[test]
fn test_address() {
    let a = Address::new(0x1000);
    assert_eq!(a.as_ptr::<usize>(), 0x1000);
    assert_eq!(a.offset(4), Address::new(0x1004));
    assert_eq!(a.offset(-8), Address::new(0xff8));
    assert!(Address::new(0x1000) < Address::new(0x1001));
    assert!(Address::new(0x1001) >= Address::new(0x1000));
    assert_eq!(assert_aligned::<u64>(0x2000), 0x2000);
}

#[test]
fn test_consume() {
    let words: Vec<usize> = vec![10, 20, 30, 40, 50];
    let mut cursor = Address::new(1);
    assert_eq!(consume_as_ref(&mut cursor, &words), 20);
    assert_eq!(consume_as_slice(&mut cursor, &words, 2), vec![30, 40]);
    assert_eq!(cursor, Address::new(4));
}

#[test]
fn test_descriptor_total_size() {
    let descriptor = ObjectDescriptor { unpacked_field_count: 2, pointer_count: 1 };
    assert_eq!(descriptor.total_size(), 4);
    let descriptor = ObjectDescriptor { unpacked_field_count: 0, pointer_count: 0 };
    assert_eq!(descriptor.total_size(), 1);
}

#[test]
fn test_object_round_trip() {
    let mut mem: Vec<usize> = vec![0; 32];
    // The descriptor {unpacked: 2, pointers: 1} lives at word 20.
    mem[20] = 2;
    mem[21] = 1;
    write_object(&mut mem, 3, 20, &vec![7, 8], &vec![42]);
    let object = Object::read_from(&mem, 3);
    assert_eq!(object.start, 3);
    assert_eq!(object.descriptor_address, 20);
    assert_eq!(object.descriptor, ObjectDescriptor { unpacked_field_count: 2, pointer_count: 1 });
    assert_eq!(object.unpacked, vec![7, 8]);
    assert_eq!(object.pointers, vec![42]);
    assert_eq!(object.total_size(), 4);
    assert_eq!(object.start_address(), Address::new(3));
    // No neighbouring word was touched by the write.
    assert_eq!(mem[2], 0);
    assert_eq!(mem[7], 0);
}

#[test]
fn test_empty_block_yields_no_objects() {
    let mem: Vec<usize> = vec![0; 16];
    let block = BlockDescriptor::new(&mem, 0);
    assert_eq!(block.free, block.start);
    let mut objects = block.objects();
    assert!(objects.next().is_none());
    assert!(block.objects_vec().is_empty());
}

#[test]
fn test_two_objects_walk() {
    let mut mem: Vec<usize> = vec![0; 128];
    // Two descriptors stored past the block: {unpacked: 2, pointers: 1}
    // at word 100 and {unpacked: 0, pointers: 3} at word 102.
    mem[100] = 2;
    mem[101] = 1;
    mem[102] = 0;
    mem[103] = 3;
    // Two objects placed consecutively from word 0.
    write_object(&mut mem, 0, 100, &vec![11, 22], &vec![4]);
    write_object(&mut mem, 4, 102, &vec![], &vec![0, 0, 0]);
    let block = BlockDescriptor { mem: &mem, start: 0, free: 8 };
    let mut objects = block.objects();

    let first = objects.next().unwrap();
    assert_eq!(first.descriptor, ObjectDescriptor { unpacked_field_count: 2, pointer_count: 1 });
    assert_eq!(first.unpacked, vec![11, 22]);

    let second = objects.next().unwrap();
    assert_eq!(second.descriptor, ObjectDescriptor { unpacked_field_count: 0, pointer_count: 3 });
    // The second object starts exactly (1 + 2 + 1) words after the first.
    assert_eq!(second.start_address(), Address::new(0 + (1 + 2 + 1)));

    assert!(objects.next().is_none());

    // The walk is restartable: a fresh iterator starts over at `start`.
    let again = block.objects_vec();
    assert_eq!(again.len(), 2);
    assert_eq!(again[0].start, 0);
    assert_eq!(again[1].start, 4);
}

#[test]
fn test_memory_chunk() {
    let chunk = MemoryChunk::from_mapping(0x40_0000, 4 * MiB);
    assert_eq!(chunk.data(), Address::new(0x40_0000));
    assert_eq!(chunk.size(), 4 * MiB);
    // Ownership discipline: releasing consumes the chunk, so exactly one
    // release can happen per mapping; a second call would not compile.
    let (base, size) = chunk.release();
    assert_eq!(base, 0x40_0000);
    assert_eq!(size, 4 * MiB);
}

#[test]
fn test_mega_block_list() {
    let list = MegaBlockList::new();
    assert_eq!(list.len(), 0);
    assert!(list.head().is_none());
    assert!(list.chunks().next().is_none());

    let list = list.push(MemoryChunk::from_mapping(0x40_0000, 4 * MiB));
    let list = list.push(MemoryChunk::from_mapping(0xc0_0000, 4 * MiB));
    assert_eq!(list.len(), 2);

    // The most recently pushed mega-block stands at the head.
    let head = list.head().unwrap();
    assert_eq!(head.chunk.size(), 4 * MiB);
    assert_eq!(head.chunk.data(), Address::new(0xc0_0000));

    // Iteration visits every node exactly once, in chain order.
    let mut chunks = list.chunks();
    assert_eq!(chunks.next().unwrap().data(), Address::new(0xc0_0000));
    assert_eq!(chunks.next().unwrap().data(), Address::new(0x40_0000));
    assert!(chunks.next().is_none());

    let mut nodes = list.iter();
    assert_eq!(nodes.next().unwrap().chunk.data(), Address::new(0xc0_0000));
    assert_eq!(nodes.next().unwrap().chunk.data(), Address::new(0x40_0000));
    assert!(nodes.next().is_none());
}

#[test]
fn test_head_mut() {
    let list = MegaBlockList::new();
    let list = list.push(MemoryChunk::from_mapping(0x40_0000, 4 * MiB));
    let mut list = list.push(MemoryChunk::from_mapping(0xc0_0000, 4 * MiB));
    let head = list.head_mut().unwrap();
    head.chunk = MemoryChunk::from_mapping(0x140_0000, 4 * MiB);
    assert_eq!(list.head().unwrap().chunk.data(), Address::new(0x140_0000));
    assert_eq!(list.len(), 2);
    assert_eq!(MegaBlockList::new().head_mut().map(|b| b.chunk.size()), None);
}

#[test]
fn test_into_chunks() {
    let list = MegaBlockList::new()
        .push(MemoryChunk::from_mapping(0x40_0000, 4 * MiB))
        .push(MemoryChunk::from_mapping(0xc0_0000, 4 * MiB));
    let chunks = list.into_chunks();
    assert_eq!(chunks.len(), 2);
    assert_eq!(chunks[0].data(), Address::new(0xc0_0000));
    assert_eq!(chunks[1].data(), Address::new(0x40_0000));
}

#[test]
fn test_mega_block_node() {
    let block = MegaBlock::new(MemoryChunk::from_mapping(0x40_0000, 4 * MiB));
    assert_eq!(block.chunk.size(), MegaBlock::SIZE);
    assert!(block.next.head().is_none());
}
