use mmtk_art::{
    compress, decompress, heap_size_in_kb, likely, unlikely, vm_layout, ArtMemorySlice, ArtSlot,
    BYTES_IN_CHUNK, HEAP_START,
};

#[test]
fn slot_values_roundtrip() {
    assert_eq!(compress(0x1234_5678), 0x1234_5678);
    assert_eq!(decompress(0x1234_5678), Some(0x1234_5678));
    assert_eq!(decompress(0), None);
    assert_eq!(decompress(compress(0x40_0000)), Some(0x40_0000));
    // Only the low 32 bits of an address are stored.
    assert_eq!(compress(0x1_0000_0010usize), 0x10);
}

#[test]
fn memory_slice_iterates_every_slot() {
    let slice = ArtMemorySlice::from_range(0x100, 0x10c);
    assert_eq!(slice.start(), 0x100);
    assert_eq!(slice.bytes(), 12);
    assert_eq!(slice.object(), None);
    let mut it = slice.iter_slots();
    assert_eq!(it.next(), Some(ArtSlot(0x100)));
    assert_eq!(it.next(), Some(ArtSlot(0x104)));
    assert_eq!(it.next(), Some(ArtSlot(0x108)));
    assert_eq!(it.next(), None);
    assert_eq!(it.next(), None);
    let empty = ArtMemorySlice::from_range(0x100, 0x100);
    assert_eq!(empty.bytes(), 0);
    assert_eq!(empty.iter_slots().next(), None);
    assert_eq!(ArtSlot(0x44).as_address(), 0x44);
}

#[test]
fn vm_layout_adds_slack_and_aligns() {
    let layout = vm_layout(256 << 20);
    assert_eq!(layout.log_address_space, 32);
    assert_eq!(layout.heap_start, HEAP_START);
    assert_eq!(layout.heap_end, 0x40_0000 + (256 << 20) + 5 * BYTES_IN_CHUNK);
    assert_eq!(layout.log_space_extent, 31);
    assert!(!layout.force_use_contiguous_spaces);
    // An unaligned maximum is rounded up to a chunk.
    let layout = vm_layout((256 << 20) + 1);
    assert_eq!(layout.heap_end, 0x40_0000 + (256 << 20) + 6 * BYTES_IN_CHUNK);
}

#[test]
fn heap_size_is_traced_in_kb() {
    assert_eq!(heap_size_in_kb(100), 400);
    assert_eq!(heap_size_in_kb(0), 0);
}

#[test]
fn branch_hints_keep_the_condition() {
    assert!(likely(true));
    assert!(!likely(false));
    assert!(unlikely(true));
    assert!(!unlikely(false));
}

#[test]
fn array_copy_covers_count_slots() {
    let slice = mmtk_art::array_copy_slice(0x1000, 5);
    assert_eq!(slice.start(), 0x1000);
    assert_eq!(slice.bytes(), 20);
    let mut it = slice.iter_slots();
    let mut n = 0;
    while let Some(_) = it.next() {
        n += 1;
    }
    assert_eq!(n, 5);
}
