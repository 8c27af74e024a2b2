//! Verified core of the MMTk binding for the Android Runtime (ART).
//!
//! The binding decides which slots of an ART object hold references, how large objects are,
//! when the heap has to grow or be collected, and in which phase weak references are
//! processed. Reading and writing the managed heap, and calling back into ART, is left to the
//! embedding code, which hands this library the values it read.
use vstd::prelude::*;
use crate::conversions::{align_up_spec, raw_align_up};

pub mod abi;
pub mod active_plan;
pub mod collection;
pub mod conversions;
pub mod gc_trigger;
pub mod object_model;
pub mod object_scanning;
pub mod reference_glue;
pub mod scanning;

verus! {

/// log_2 of how many bytes in an integer
pub const LOG_BYTES_IN_INT: u8 = 2;

/// log_2 of how many bytes in a slot
pub const LOG_BYTES_IN_SLOT: u8 = 2;

/// log_2 of how many bytes in a heap chunk
pub const LOG_BYTES_IN_CHUNK: usize = 22;

/// How many bytes in a heap chunk
pub const BYTES_IN_CHUNK: usize = 0x40_0000;

/// VMBinding to ART
#[derive(Default)]
pub struct Art;

impl Art {
    /// Minimum alignment of an object (in bytes)
    pub const MIN_ALIGNMENT: usize = 8;
    /// Maximum alignment of an object (in bytes)
    pub const MAX_ALIGNMENT: usize = 8;
    /// Alignment of the end of an allocation (in bytes)
    pub const ALLOC_END_ALIGNMENT: usize = 8;
    /// ART does not offset its allocations
    pub const USE_ALLOCATION_OFFSET: bool = false;
}

/// What weak reference phase are we currently executing?
#[derive(Clone, Copy, PartialEq, Eq, Debug)]
pub enum RefProcessingPhase {
    /// Forward soft references if we are not going to clear them
    Phase1,
    /// Clear soft and weak references with unmarked referents. Enqueue
    /// finalizer references and perform transitive closure
    Phase2,
    /// Clear soft and weak references where the references are only reachable
    /// by finalizers. Clear all phantom references with unmarked referents. And
    /// finally sweep system weaks.
    Phase3,
}

/// Branch hint: the condition is expected to hold.
pub fn likely(b: bool) -> (r: bool)
    ensures
        r == b,
{
    if !b {
        cold();
    }
    b
}

/// Branch hint: the condition is not expected to hold.
pub fn unlikely(b: bool) -> (r: bool)
    ensures
        r == b,
{
    if b {
        cold();
    }
    b
}

fn cold() {
}

/// The 32-bit form in which ART stores a reference to the object at `object`: the low 32
/// bits of its address.
pub open spec fn compressed(object: usize) -> u32 {
    object as u32
}

/// The object that the 32-bit slot value `v` refers to, if any.
pub open spec fn decompressed(v: u32) -> Option<usize> {
    if v == 0 {
        None
    } else {
        Some(v as usize)
    }
}

/// The 32-bit form in which ART stores a reference to the object at `object`.
pub fn compress(object: usize) -> (r: u32)
    ensures
        r == compressed(object),
{
    object as u32
}

/// The object that the 32-bit slot value `v` refers to, if any.
pub fn decompress(v: u32) -> (r: Option<usize>)
    ensures
        r == decompressed(v),
{
    if v == 0 {
        None
    } else {
        Some(v as usize)
    }
}

/// Storing a reference into a slot and loading it back gives the same object, for every
/// object in the 32-bit heap; and a non-null slot value survives loading and storing.
pub proof fn lemma_compress_roundtrip(object: usize, v: u32)
    ensures
        0 < object <= u32::MAX ==> decompressed(compressed(object)) == Some(object),
        v != 0 ==> (decompressed(v) matches Some(o) && compressed(o) == v),
{
}

/// The size of the heap reported to the system tracer, in KB, for a heap of `heap_size` pages.
pub fn heap_size_in_kb(heap_size: usize) -> (r: i32)
    ensures
        r == (heap_size << 2usize) as i32,
        heap_size * 4 <= i32::MAX ==> r == heap_size * 4,
{
    proof {
        if heap_size * 4 <= i32::MAX {
            assert(heap_size <= 0x2000_0000);
            assert((heap_size << 2usize) == heap_size * 4) by (bit_vector)
                requires heap_size <= 0x2000_0000usize;
        }
    }
    (heap_size << 2usize) as i32
}

/// The virtual memory layout that the binding asks MMTk to use.
#[derive(Clone, Copy, PartialEq, Eq, Debug)]
pub struct ArtVmLayout {
    /// log_2 of the size of the address space
    pub log_address_space: usize,
    /// The lowest address of the heap
    pub heap_start: usize,
    /// The address just past the heap
    pub heap_end: usize,
    /// log_2 of the extent of a space
    pub log_space_extent: usize,
    /// Whether spaces must be contiguous
    pub force_use_contiguous_spaces: bool,
}

/// The address at which the heap starts.
pub const HEAP_START: usize = 0x040_0000;

/// The largest heap that the binding supports (in bytes).
pub const MAX_SUPPORTED_HEAP_SIZE: usize = 0x8000_0000;

/// The end of the heap for a heap of at most `max_heap_size` bytes: past the heap's
/// start and size, with five chunks of slack, rounded up to a chunk.
pub open spec fn heap_end_spec(max_heap_size: int) -> int {
    align_up_spec(HEAP_START + max_heap_size + 5 * BYTES_IN_CHUNK, BYTES_IN_CHUNK as int)
}

/// The virtual memory layout for a heap of at most `max_heap_size` bytes.
pub fn vm_layout(max_heap_size: usize) -> (r: ArtVmLayout)
    requires
        max_heap_size <= MAX_SUPPORTED_HEAP_SIZE,
    ensures
        r.log_address_space == 32,
        r.heap_start == HEAP_START,
        r.heap_end == heap_end_spec(max_heap_size as int),
        r.heap_end % BYTES_IN_CHUNK == 0,
        r.heap_end >= HEAP_START + max_heap_size + 5 * BYTES_IN_CHUNK,
        r.log_space_extent == 31,
        !r.force_use_contiguous_spaces,
{
    proof {
        vstd::arithmetic::power2::lemma2_to64();
        assert(vstd::arithmetic::power2::pow2(22) == BYTES_IN_CHUNK);
    }
    let start = HEAP_START;
    let end = start + max_heap_size;
    let heap_start = chunk_align_down(start);
    let heap_end = raw_align_up(end + 5 * BYTES_IN_CHUNK, BYTES_IN_CHUNK);
    proof {
        conversions::lemma_align_up_is_least_multiple(
            end + 5 * BYTES_IN_CHUNK,
            BYTES_IN_CHUNK as int,
        );
    }
    ArtVmLayout {
        log_address_space: 32,
        heap_start,
        heap_end,
        log_space_extent: 31,
        force_use_contiguous_spaces: false,
    }
}

/// Round `address` down to the start of its chunk.
pub fn chunk_align_down(address: usize) -> (r: usize)
    ensures
        r == address - address % BYTES_IN_CHUNK,
{
    assert(address & !0x3f_ffffusize == address - address % 0x40_0000usize) by (bit_vector);
    address & !(BYTES_IN_CHUNK - 1)
}

/// The type of slot in ART. ART slots only operate on 32-bits
#[derive(Debug, Clone, Copy, Hash, PartialEq, Eq, Ord, PartialOrd)]
pub struct ArtSlot(pub usize);

impl ArtSlot {
    /// The address of the slot.
    pub fn as_address(&self) -> (r: usize)
        ensures
            r == self.0,
    {
        self.0
    }
}

/// ART object types with native roots
#[derive(Clone, Copy, PartialEq, Eq, Debug)]
pub enum ArtObjectWithNativeRootsType {
    /// java.lang.Class
    Class,
    /// java.lang.DexCache
    DexCache,
    /// java.lang.ClassLoader
    ClassLoader,
}

impl ArtObjectWithNativeRootsType {
    /// The number that ART uses for this object type.
    pub fn value(self) -> (r: u8)
        ensures
            self is Class ==> r == 0,
            self is DexCache ==> r == 1,
            self is ClassLoader ==> r == 2,
    {
        match self {
            ArtObjectWithNativeRootsType::Class => 0,
            ArtObjectWithNativeRootsType::DexCache => 1,
            ArtObjectWithNativeRootsType::ClassLoader => 2,
        }
    }
}

/// The addresses of the slots from `cursor` up to (not including) `limit`, one every
/// 1 << LOG_BYTES_IN_SLOT bytes.
pub open spec fn slots_between(cursor: int, limit: int) -> Seq<int>
    decreases (if cursor < limit { limit - cursor } else { 0 }),
{
    if cursor >= limit {
        Seq::empty()
    } else {
        seq![cursor].add(slots_between(cursor + 4, limit))
    }
}

/// Iterating from `cursor` to `limit` visits each 32-bit slot in between once, in order:
/// the i-th slot is at `cursor + 4 * i`, and every slot before the limit is visited.
pub proof fn lemma_slots_between(cursor: int, limit: int)
    ensures
        cursor < limit ==> slots_between(cursor, limit).len() == (limit - cursor + 3) / 4,
        cursor >= limit ==> slots_between(cursor, limit).len() == 0,
        forall|i: int|
            0 <= i < slots_between(cursor, limit).len() ==> #[trigger] slots_between(cursor, limit)[i]
                == cursor + 4 * i && cursor + 4 * i < limit,
    decreases (if cursor < limit { limit - cursor } else { 0 }),
{
    if cursor < limit {
        lemma_slots_between(cursor + 4, limit);
        let rest = slots_between(cursor + 4, limit);
        let all = slots_between(cursor, limit);
        assert(all == seq![cursor].add(rest));
        assert forall|i: int| 0 <= i < all.len() implies #[trigger] all[i] == cursor + 4 * i
            && cursor + 4 * i < limit by {
            if i > 0 {
                assert(all[i] == rest[i - 1]);
            }
        }
    }
}

/// A range of `ArtSlot`s, usually used to represent arrays
#[derive(Debug, Clone, Copy, PartialEq, Eq)]
pub struct ArtMemorySlice {
    start: ArtSlot,
    end: ArtSlot,
}

impl ArtMemorySlice {
    /// The address of the first slot.
    pub closed spec fn start_address(&self) -> usize {
        self.start.0
    }

    /// The address just past the slice.
    pub closed spec fn end_address(&self) -> usize {
        self.end.0
    }

    /// The slice of the slots in `start..end`.
    pub fn from_range(start: usize, end: usize) -> (r: Self)
        ensures
            r.start_address() == start,
            r.end_address() == end,
    {
        ArtMemorySlice { start: ArtSlot(start), end: ArtSlot(end) }
    }

    /// An iterator over the slots of the slice.
    pub fn iter_slots(&self) -> (r: ArtSlotIterator)
        ensures
            r.cursor() == self.start_address(),
            r.limit() == self.end_address(),
    {
        ArtSlotIterator { cursor: self.start.0, limit: self.end.0 }
    }

    /// The object that holds the slice: ART slices are not tied to an object.
    pub fn object(&self) -> (r: Option<usize>)
        ensures
            r is None,
    {
        None
    }

    /// The address of the first slot.
    pub fn start(&self) -> (r: usize)
        ensures
            r == self.start_address(),
    {
        self.start.0
    }

    /// The size of the slice in bytes.
    pub fn bytes(&self) -> (r: usize)
        requires
            self.start_address() <= self.end_address(),
        ensures
            r == self.end_address() - self.start_address(),
    {
        self.end.0 - self.start.0
    }
}

/// The slots that a copy of `count` array elements starting at `start` covers, as the
/// array copy barriers see them.
pub fn array_copy_slice(start: usize, count: usize) -> (r: ArtMemorySlice)
    requires
        start + count * 4 <= usize::MAX,
    ensures
        r.start_address() == start,
        r.end_address() == start + count * 4,
{
    proof {
        vstd::arithmetic::power2::lemma2_to64();
        vstd::bits::lemma_usize_shl_is_mul(count, 2);
    }
    let bytes: usize = count << (LOG_BYTES_IN_SLOT as usize);
    ArtMemorySlice::from_range(start, start + bytes)
}

/// An iterator through an ArtMemorySlice
pub struct ArtSlotIterator {
    cursor: usize,
    limit: usize,
}

impl ArtSlotIterator {
    /// The address of the next slot.
    pub closed spec fn cursor(&self) -> usize {
        self.cursor
    }

    /// The address at which the iteration stops.
    pub closed spec fn limit(&self) -> usize {
        self.limit
    }

    /// The addresses of the slots that the iterator has yet to yield.
    pub open spec fn remaining(&self) -> Seq<int> {
        slots_between(self.cursor() as int, self.limit() as int)
    }

    /// Yield the next slot, if the cursor has not reached the limit.
    pub fn next(&mut self) -> (r: Option<ArtSlot>)
        requires
            old(self).cursor() < old(self).limit() ==> old(self).cursor() + 4 <= usize::MAX,
        ensures
            old(self).cursor() >= old(self).limit() ==> r is None && *final(self) == *old(self),
            old(self).cursor() < old(self).limit() ==> r == Some(ArtSlot(old(self).cursor()))
                && final(self).cursor() == old(self).cursor() + 4
                && final(self).limit() == old(self).limit(),
            r matches Some(s) ==> old(self).remaining() == seq![s.0 as int].add(final(self).remaining()),
            r is None ==> old(self).remaining().len() == 0,
    {
        if self.cursor >= self.limit {
            None
        } else {
            let slot = self.cursor;
            assert((1usize << LOG_BYTES_IN_SLOT) == 4) by (bit_vector);
            self.cursor = self.cursor + (1usize << LOG_BYTES_IN_SLOT);
            Some(ArtSlot(slot))
        }
    }
}

} // verus!
