//! Which slots of an object hold references, as ART lays objects out.
//!
//! Scanning an object yields the slots to visit, in the order the runtime visits them, and
//! at most one call back into the runtime that completes the scan.
use vstd::prelude::*;
use crate::{ArtObjectWithNativeRootsType, ArtSlot, likely, unlikely};
use crate::abi::{
    get_field_slot, Class, Object, ObjectArray, ObjectContents, ART_HEAP_REFERENCE_SIZE,
    OBJECT_HEADER_SIZE, ARRAY_FIRST_ELEMENT_OFFSET, class_size_spec,
};
use crate::conversions::is_pow2;

verus! {

/// The addresses of a sequence of slots.
pub open spec fn slot_addresses(slots: Seq<ArtSlot>) -> Seq<int> {
    slots.map_values(|s: ArtSlot| s.0 as int)
}

/// Whether bit `j` of `word` is set.
pub open spec fn bit_set(word: u32, j: nat) -> bool {
    (word >> (j as u32)) & 1u32 == 1u32
}

/// The reference fields that bits `from..32` of a reference bitmap word mark, for a word
/// whose bit 0 stands for the field at `base`: bit j marks the field at `base + 4 * j`.
/// The fields are listed in increasing order of address.
pub open spec fn word_slots(base: int, word: u32, from: nat) -> Seq<int>
    decreases 32 - from,
{
    if from >= 32 {
        Seq::empty()
    } else {
        (if bit_set(word, from) {
            seq![base + 4 * from]
        } else {
            Seq::empty()
        }).add(word_slots(base, word, from + 1))
    }
}

/// The reference fields that the first `n` words of an overflow reference bitmap mark for
/// the object at `object`: word i covers the 32 fields after the header from field 32 * i.
pub open spec fn bitmap_slots(object: int, words: Seq<u32>, n: nat) -> Seq<int>
    decreases n,
{
    if n == 0 {
        Seq::empty()
    } else {
        bitmap_slots(object, words, (n - 1) as nat).add(
            word_slots(object + OBJECT_HEADER_SIZE + 128 * (n - 1), words[n - 1], 0),
        )
    }
}

/// The number of overflow bitmap words that `ref_offsets` asks for on the slow path.
pub open spec fn bitmap_num_words(ref_offsets: u32) -> u32 {
    ref_offsets & 0x7fff_ffffu32
}

/// Whether `ref_offsets` sends the scan to the overflow bitmap at the end of the class.
pub open spec fn is_slow_path(ref_offsets: u32) -> bool {
    ref_offsets & Class::kVisitReferencesSlowpathMask != 0
}

/// The reference instance fields of the object at `object` whose class has the given
/// `reference_instance_offsets`; `bitmap` is the class's overflow bitmap.
pub open spec fn instance_field_slots(object: int, ref_offsets: u32, bitmap: Seq<u32>) -> Seq<int> {
    if is_slow_path(ref_offsets) {
        bitmap_slots(object, bitmap, bitmap.len())
    } else {
        word_slots(object + OBJECT_HEADER_SIZE, ref_offsets, 0)
    }
}

/// How far past the object the instance fields that `ref_offsets` can mark reach.
pub open spec fn instance_fields_extent(ref_offsets: u32) -> int {
    if is_slow_path(ref_offsets) {
        OBJECT_HEADER_SIZE + 128 * bitmap_num_words(ref_offsets)
    } else {
        OBJECT_HEADER_SIZE + 128
    }
}

/// The instance fields of the object at `object` can be scanned for a class with
/// `ref_offsets` and overflow bitmap `bitmap`.
pub open spec fn instance_fields_scannable(object: int, ref_offsets: u32, bitmap: Seq<u32>) -> bool {
    &&& is_slow_path(ref_offsets) ==> bitmap.len() == bitmap_num_words(ref_offsets)
    &&& instance_fields_extent(ref_offsets) <= i32::MAX
    &&& object + instance_fields_extent(ref_offsets) <= usize::MAX
}

/// Once the remaining bits of a word are zero, they mark no more fields.
proof fn lemma_word_slots_done(base: int, word: u32, from: nat)
    requires
        from <= 32,
        from < 32 ==> word >> (from as u32) == 0,
    ensures
        word_slots(base, word, from) == Seq::<int>::empty(),
    decreases 32 - from,
{
    if from < 32 {
        let f = from as u32;
        assert((word >> f) & 1u32 == 0u32) by (bit_vector)
            requires word >> f == 0u32;
        if from + 1 < 32 {
            assert(word >> ((f + 1) as u32) == 0u32) by (bit_vector)
                requires word >> f == 0u32, f < 31u32;
        }
        lemma_word_slots_done(base, word, from + 1);
    }
}

/// The fields that one bitmap word marks are exactly those of its set bits, each once, in
/// increasing order of address, all within the 32 fields the word covers.
pub proof fn lemma_word_slots_shape(base: int, word: u32, from: nat)
    requires
        from <= 32,
    ensures
        ({
            let slots = word_slots(base, word, from);
            &&& forall|i: int|
                0 <= i < slots.len() ==> base + 4 * from <= #[trigger] slots[i] < base + 128
            &&& forall|i: int, k: int| 0 <= i < k < slots.len() ==> slots[i] < slots[k]
            &&& forall|j: nat| from <= j < 32 && #[trigger] bit_set(word, j) ==> slots.contains(base + 4 * j)
            &&& forall|i: int|
                #![trigger slots[i]]
                0 <= i < slots.len() ==> exists|j: nat|
                    from <= j < 32 && #[trigger] bit_set(word, j) && slots[i] == base + 4 * j
        }),
    decreases 32 - from,
{
    if from < 32 {
        lemma_word_slots_shape(base, word, from + 1);
        let rest = word_slots(base, word, from + 1);
        let slots = word_slots(base, word, from);
        if bit_set(word, from) {
            assert(slots == seq![base + 4 * from].add(rest));
            assert forall|i: int| 0 <= i < slots.len() implies base + 4 * from <= #[trigger] slots[i]
                < base + 128 by {
                if i > 0 {
                    assert(slots[i] == rest[i - 1]);
                }
            }
            assert forall|i: int, k: int| 0 <= i < k < slots.len() implies slots[i] < slots[k] by {
                assert(slots[k] == rest[k - 1]);
                if i > 0 {
                    assert(slots[i] == rest[i - 1]);
                }
            }
            assert forall|i: int| #![trigger slots[i]] 0 <= i < slots.len() implies exists|j: nat|
                from <= j < 32 && #[trigger] bit_set(word, j) && slots[i] == base + 4 * j by {
                if i > 0 {
                    assert(slots[i] == rest[i - 1]);
                    let j = choose|j: nat|
                        from + 1 <= j < 32 && #[trigger] bit_set(word, j) && rest[i - 1] == base + 4
                            * j;
                    assert(from <= j < 32 && bit_set(word, j) && slots[i] == base + 4 * j);
                } else {
                    assert(slots[0] == base + 4 * from);
                    assert(bit_set(word, from));
                }
            }
            assert forall|j: nat| from <= j < 32 && #[trigger] bit_set(word, j) implies slots.contains(
                base + 4 * j,
            ) by {
                if j == from {
                    assert(slots[0] == base + 4 * from);
                } else {
                    let i = choose|i: int| 0 <= i < rest.len() && rest[i] == base + 4 * j;
                    assert(slots[i + 1] == base + 4 * j);
                }
            }
        } else {
            assert(slots == rest);
            assert forall|j: nat| from <= j < 32 && #[trigger] bit_set(word, j) implies slots.contains(
                base + 4 * j,
            ) by {
                assert(j != from);
            }
            assert forall|i: int| #![trigger slots[i]] 0 <= i < slots.len() implies exists|j: nat|
                from <= j < 32 && #[trigger] bit_set(word, j) && slots[i] == base + 4 * j by {
                let j = choose|j: nat|
                    from + 1 <= j < 32 && #[trigger] bit_set(word, j) && rest[i] == base + 4 * j;
                assert(from <= j < 32 && bit_set(word, j) && slots[i] == base + 4 * j);
            }
        }
    } else {
        assert(word_slots(base, word, from) =~= Seq::<int>::empty());
    }
}

/// Scanning visits the klass slot first; the instance fields it then visits lie after the
/// object header, each once, in increasing order of address.
pub proof fn lemma_instance_fields_after_header(object: int, ref_offsets: u32)
    requires
        !is_slow_path(ref_offsets),
    ensures
        ({
            let slots = instance_field_slots(object, ref_offsets, Seq::empty());
            &&& forall|i: int|
                0 <= i < slots.len() ==> object + OBJECT_HEADER_SIZE <= #[trigger] slots[i]
                    < object + OBJECT_HEADER_SIZE + 128
            &&& forall|i: int, k: int| 0 <= i < k < slots.len() ==> slots[i] < slots[k]
            &&& !slots.contains(object)
        }),
{
    lemma_word_slots_shape(object + OBJECT_HEADER_SIZE, ref_offsets, 0);
}

/// Append the fields that one reference bitmap word marks, starting at `field_offset`.
fn visit_one_word(
    object: usize,
    field_offset: u32,
    ref_offsets: u32,
    slots: &mut Vec<ArtSlot>,
)
    requires
        field_offset + 128 <= i32::MAX,
        object + field_offset + 128 <= usize::MAX,
    ensures
        slot_addresses(final(slots)@) == slot_addresses(old(slots)@).add(
            word_slots(object + field_offset, ref_offsets, 0),
        ),
{
    let ghost base = object + field_offset;
    let ghost start = slot_addresses(slots@);
    let mut field_offset = field_offset;
    let mut ref_offsets_left = ref_offsets;
    let mut j: u32 = 0;
    proof {
        assert(ref_offsets >> 0u32 == ref_offsets) by (bit_vector);
    }
    while ref_offsets_left != 0
        invariant
            j <= 32,
            j < 32 ==> ref_offsets_left == ref_offsets >> j,
            j == 32 ==> ref_offsets_left == 0,
            field_offset == base - object + 4 * j,
            base - object + 128 <= i32::MAX,
            base + 128 <= usize::MAX,
            start.add(word_slots(base, ref_offsets, 0)) == slot_addresses(slots@).add(
                word_slots(base, ref_offsets, j as nat),
            ),
        decreases 32 - j,
    {
        assert(j < 32);
        let ghost before = slot_addresses(slots@);
        if (ref_offsets_left & 0b1) != 0 {
            slots.push(get_field_slot(object, field_offset as i32));
        }
        proof {
            let w = ref_offsets;
            assert((w >> j) >> 1u32 == w >> ((j + 1) as u32)) by (bit_vector)
                requires j < 32u32;
            assert(((w >> j) & 1u32 != 0u32) == ((w >> j) & 1u32 == 1u32)) by (bit_vector);
            if j == 31 {
                assert((w >> 31u32) >> 1u32 == 0u32) by (bit_vector);
            }
            let part = if bit_set(ref_offsets, j as nat) {
                seq![base + 4 * j]
            } else {
                Seq::<int>::empty()
            };
            assert(slot_addresses(slots@) =~= before.add(part));
            assert(word_slots(base, ref_offsets, j as nat) == part.add(
                word_slots(base, ref_offsets, (j + 1) as nat),
            ));
            assert(before.add(part.add(word_slots(base, ref_offsets, (j + 1) as nat)))
                =~= before.add(part).add(word_slots(base, ref_offsets, (j + 1) as nat)));
        }
        ref_offsets_left = ref_offsets_left >> 1;
        field_offset = field_offset + ART_HEAP_REFERENCE_SIZE as u32;
        j = j + 1;
    }
    proof {
        lemma_word_slots_done(base, ref_offsets, j as nat);
    }
}


impl Class {
    /// The address of the overflow reference bitmap at the end of this class, which is at
    /// `klass_address`: the last `reference_instance_offsets & !kVisitReferencesSlowpathMask`
    /// 32-bit words of the class's `class_size` bytes.
    pub fn reference_bitmap_address(&self, klass_address: usize) -> (r: usize)
        requires
            bitmap_num_words(self.reference_instance_offsets) * 4 <= u32::MAX,
            klass_address + self.class_size <= usize::MAX,
            bitmap_num_words(self.reference_instance_offsets) * 4 <= klass_address
                + self.class_size,
        ensures
            r == klass_address + self.class_size - bitmap_num_words(self.reference_instance_offsets)
                * 4,
    {
        let bitmap_num_words = self.get_reference_instance_offsets()
            & !Class::kVisitReferencesSlowpathMask;
        assert(!Class::kVisitReferencesSlowpathMask == 0x7fff_ffffu32) by (bit_vector);
        klass_address + self.class_size as usize - (bitmap_num_words * (4u32)) as usize
    }
}

impl Object {
    /// Visit the instance fields of the object at `object`, whose class is `klass`.
    /// `overflow_bitmap` holds the words of the class's overflow reference bitmap (at
    /// `klass.reference_bitmap_address(..)`) when its reference offsets take the slow path.
    pub fn visit_instance_fields_references(
        object: usize,
        klass: &Class,
        overflow_bitmap: &Vec<u32>,
    ) -> (r: Vec<ArtSlot>)
        requires
            instance_fields_scannable(
                object as int,
                klass.reference_instance_offsets,
                overflow_bitmap@,
            ),
        ensures
            slot_addresses(r@) == instance_field_slots(
                object as int,
                klass.reference_instance_offsets,
                overflow_bitmap@,
            ),
    {
        let mut slots: Vec<ArtSlot> = Vec::new();
        let ref_offsets = klass.get_reference_instance_offsets();
        if unlikely((ref_offsets & Class::kVisitReferencesSlowpathMask) != 0) {
            let bitmap_num_words = ref_offsets & !Class::kVisitReferencesSlowpathMask;
            assert(!Class::kVisitReferencesSlowpathMask == 0x7fff_ffffu32) by (bit_vector);
            let mut i: u32 = 0;
            while i < bitmap_num_words
                invariant
                    bitmap_num_words == overflow_bitmap@.len(),
                    i <= bitmap_num_words,
                    OBJECT_HEADER_SIZE + 128 * bitmap_num_words <= i32::MAX,
                    object + OBJECT_HEADER_SIZE + 128 * bitmap_num_words <= usize::MAX,
                    slot_addresses(slots@) == bitmap_slots(
                        object as int,
                        overflow_bitmap@,
                        i as nat,
                    ),
                decreases bitmap_num_words - i,
            {
                proof {
                    assert(i * 4 * 32 + 128 <= 128 * bitmap_num_words) by (nonlinear_arith)
                        requires i < bitmap_num_words;
                }
                visit_one_word(
                    object,
                    OBJECT_HEADER_SIZE + i * ART_HEAP_REFERENCE_SIZE as u32 * 32u32,
                    overflow_bitmap[i as usize],
                    &mut slots,
                );
                i = i + 1;
            }
        } else {
            visit_one_word(object, OBJECT_HEADER_SIZE, ref_offsets, &mut slots);
            assert(slot_addresses(slots@) =~= instance_field_slots(
                object as int,
                klass.reference_instance_offsets,
                overflow_bitmap@,
            ));
        }
        slots
    }
}

/// The slots of `count` consecutive 32-bit fields starting `first` bytes into the object at
/// `object`.
pub open spec fn consecutive_slots(object: int, first: int, count: nat) -> Seq<int> {
    Seq::new(count, |i: int| object + first + 4 * i)
}

/// A call back into the runtime that completes the scan of an object.
#[derive(Clone, Copy, PartialEq, Eq, Debug)]
pub enum ScanUpcall {
    /// Scan the object's native roots.
    NativeRoots(ArtObjectWithNativeRootsType),
    /// Process the referent of the java.lang.Reference.
    ProcessReferent,
}

/// The outcome of scanning an object: the slots to visit, in order, then the upcall to make.
pub struct ObjectScan {
    /// The slots that hold references, in the order in which they are visited.
    pub slots: Vec<ArtSlot>,
    /// The call back into the runtime that follows the slots, if any.
    pub upcall: Option<ScanUpcall>,
}

/// The static reference fields of `class`, a java.lang.Class object, can be scanned.
pub open spec fn static_fields_scannable(
    object: int,
    class: Class,
    ptr_size: int,
    embedded_vtable_length: int,
) -> bool {
    class.is_resolved() && class.num_reference_static_fields > 0 ==> {
        &&& class.has_valid_primitive_type()
        &&& class.should_have_embedded_vtable() ==> is_pow2(ptr_size)
        &&& class.should_have_embedded_vtable() ==> class_size_spec(
            true,
            embedded_vtable_length,
            0,
            0,
            0,
            0,
            0,
            0,
            ptr_size,
        ) <= usize::MAX
        &&& class.first_reference_static_fields_offset_spec(ptr_size, embedded_vtable_length) + 4
            * class.num_reference_static_fields <= i32::MAX
        &&& object + class.first_reference_static_fields_offset_spec(ptr_size, embedded_vtable_length)
            + 4 * class.num_reference_static_fields <= usize::MAX
    }
}

/// The static reference fields of `class`, the java.lang.Class object at `object`, when it is
/// resolved.
pub open spec fn static_field_slots(
    object: int,
    class: Class,
    ptr_size: int,
    embedded_vtable_length: int,
) -> Seq<int> {
    if class.is_resolved() && class.num_reference_static_fields > 0 {
        consecutive_slots(
            object,
            class.first_reference_static_fields_offset_spec(ptr_size, embedded_vtable_length),
            class.num_reference_static_fields as nat,
        )
    } else {
        Seq::empty()
    }
}

impl Class {
    /// Visit references in an instance of a java.lang.Class: `self` is the object at
    /// `object` read as a Class, with an embedded vtable of `embedded_vtable_length`
    /// entries, in a runtime whose pointers are `ptr_size` bytes. The instance fields are
    /// visited by the caller.
    pub fn visit_references<const VISIT_NATIVE_ROOTS: bool>(
        &self,
        object: usize,
        ptr_size: usize,
        embedded_vtable_length: u32,
    ) -> (r: (Vec<ArtSlot>, Option<ScanUpcall>))
        requires
            static_fields_scannable(
                object as int,
                *self,
                ptr_size as int,
                embedded_vtable_length as int,
            ),
        ensures
            slot_addresses(r.0@) == static_field_slots(
                object as int,
                *self,
                ptr_size as int,
                embedded_vtable_length as int,
            ),
            r.1 == (if VISIT_NATIVE_ROOTS {
                Some(ScanUpcall::NativeRoots(ArtObjectWithNativeRootsType::Class))
            } else {
                None
            }),
            // A class whose status is Resolved or later, or ErrorResolved, has its
            // `num_reference_static_fields` static reference fields visited, one 32-bit slot
            // each, from the first reference static field on.
            ((self.status >> 28u32) >= 7 || (self.status >> 28u32) == 2)
                && self.num_reference_static_fields > 0 ==> slot_addresses(r.0@)
                == consecutive_slots(
                object as int,
                self.first_reference_static_fields_offset_spec(
                    ptr_size as int,
                    embedded_vtable_length as int,
                ),
                self.num_reference_static_fields as nat,
            ),
            slot_addresses(r.0@).len() == (if (self.status >> 28u32) >= 7 || (self.status
                >> 28u32) == 2 {
                self.num_reference_static_fields as nat
            } else {
                0
            }),
    {
        let mut slots: Vec<ArtSlot> = Vec::new();
        if self.is_resolved() {
            self.visit_static_fields_references(
                object,
                ptr_size,
                embedded_vtable_length,
                &mut slots,
            );
        } else {
            assert(slot_addresses(slots@) =~= Seq::<int>::empty());
        }
        if VISIT_NATIVE_ROOTS {
            (slots, Some(ScanUpcall::NativeRoots(ArtObjectWithNativeRootsType::Class)))
        } else {
            (slots, None)
        }
    }

    /// Visit static reference fields in an instance of a java.lang.Class.
    fn visit_static_fields_references(
        &self,
        object: usize,
        ptr_size: usize,
        embedded_vtable_length: u32,
        slots: &mut Vec<ArtSlot>,
    )
        requires
            self.is_resolved(),
            static_fields_scannable(
                object as int,
                *self,
                ptr_size as int,
                embedded_vtable_length as int,
            ),
        ensures
            slot_addresses(final(slots)@) == slot_addresses(old(slots)@).add(
                static_field_slots(
                    object as int,
                    *self,
                    ptr_size as int,
                    embedded_vtable_length as int,
                ),
            ),
    {
        let num_reference_fields = self.num_reference_static_fields;
        if num_reference_fields > 0u32 {
            let ghost start = slot_addresses(slots@);
            let first = self.get_first_reference_static_fields_offset(
                ptr_size,
                embedded_vtable_length,
            );
            let mut field_offset = first;
            let mut i: u32 = 0;
            while i < num_reference_fields
                invariant
                    i <= num_reference_fields,
                    field_offset == first + 4 * i,
                    first + 4 * num_reference_fields <= i32::MAX,
                    object + first + 4 * num_reference_fields <= usize::MAX,
                    slot_addresses(slots@) =~= start.add(
                        consecutive_slots(object as int, first as int, i as nat),
                    ),
                decreases num_reference_fields - i,
            {
                let field = get_field_slot(object, field_offset as i32);
                let ghost before = slot_addresses(slots@);
                slots.push(field);
                proof {
                    assert(slot_addresses(slots@) =~= before.push(field.0 as int));
                    assert(consecutive_slots(object as int, first as int, (i + 1) as nat)
                        =~= consecutive_slots(object as int, first as int, i as nat).push(
                        object + first + 4 * i,
                    ));
                    assert(start.add(consecutive_slots(object as int, first as int, i as nat)).push(
                        object + first + 4 * i,
                    ) =~= start.add(
                        consecutive_slots(object as int, first as int, i as nat).push(
                            object + first + 4 * i,
                        ),
                    ));
                }
                field_offset = field_offset + ART_HEAP_REFERENCE_SIZE;
                i = i + 1;
            }
        } else {
            assert(slot_addresses(slots@) =~= slot_addresses(old(slots)@).add(Seq::<int>::empty()));
        }
    }
}

/// The elements of the object array at `object`, of `length` elements.
pub open spec fn array_element_slots(object: int, length: int) -> Seq<int> {
    consecutive_slots(object, ARRAY_FIRST_ELEMENT_OFFSET as int, length as nat)
}

impl<T> ObjectArray<T> {
    /// Visit references in an object array: the object at `object` is this array.
    pub fn visit_references(&self, object: usize) -> (r: Vec<ArtSlot>)
        requires
            self.array.length >= 0,
            ARRAY_FIRST_ELEMENT_OFFSET + 4 * self.array.length <= i32::MAX,
            object + ARRAY_FIRST_ELEMENT_OFFSET + 4 * self.array.length <= usize::MAX,
        ensures
            slot_addresses(r@) == array_element_slots(object as int, self.array.length as int),
    {
        let mut slots: Vec<ArtSlot> = Vec::new();
        let length = self.array.length as usize;
        let mut i: usize = 0;
        while i < length
            invariant
                length == self.array.length,
                i <= length,
                ARRAY_FIRST_ELEMENT_OFFSET + 4 * length <= i32::MAX,
                object + ARRAY_FIRST_ELEMENT_OFFSET + 4 * length <= usize::MAX,
                slot_addresses(slots@) =~= array_element_slots(object as int, i as int),
            decreases length - i,
        {
            let element = get_field_slot(object, self.offset_of_element(i) as i32);
            slots.push(element);
            proof {
                assert(array_element_slots(object as int, (i + 1) as int) =~= array_element_slots(
                    object as int,
                    i as int,
                ).push(object + ARRAY_FIRST_ELEMENT_OFFSET + 4 * i));
            }
            i = i + 1;
        }
        slots
    }
}


/// How `scan_object` treats an object, by the flags of its class, tested in this order.
#[derive(Clone, Copy, PartialEq, Eq, Debug)]
pub enum ScanKind {
    /// An instance of a normal or record class: its instance fields.
    Normal,
    /// An object without reference fields besides its class.
    NoReferenceFields,
    /// A java.lang.Class object: its instance fields and static fields.
    Class,
    /// An object array: its elements.
    ObjectArray,
    /// A java.lang.Reference: its instance fields, then its referent.
    Reference,
    /// A java.lang.DexCache: its instance fields, then its native roots.
    DexCache,
    /// A java.lang.ClassLoader: its instance fields, then its classes.
    ClassLoader,
    /// Flags that no kind of object has.
    Unexpected,
}

/// How `scan_object` treats an object whose class has the flags `class_flags`.
pub open spec fn scan_kind(class_flags: u32) -> ScanKind {
    if class_flags == Class::kClassFlagNormal || class_flags == Class::kClassFlagRecord {
        ScanKind::Normal
    } else if class_flags & Class::kClassFlagNoReferenceFields != 0 {
        ScanKind::NoReferenceFields
    } else if class_flags == Class::kClassFlagClass {
        ScanKind::Class
    } else if class_flags & Class::kClassFlagObjectArray != 0 {
        ScanKind::ObjectArray
    } else if class_flags & Class::kClassFlagReference != 0 {
        ScanKind::Reference
    } else if class_flags & Class::kClassFlagDexCache != 0 {
        ScanKind::DexCache
    } else if class_flags & Class::kClassFlagClassLoader != 0 {
        ScanKind::ClassLoader
    } else {
        ScanKind::Unexpected
    }
}

/// How `scan_object` treats an object whose class has the flags `class_flags`.
pub fn classify_class_flags(class_flags: u32) -> (r: ScanKind)
    ensures
        r == scan_kind(class_flags),
        // Flags of a java.lang.Reference (soft, weak, finalizer or phantom) on a class that
        // is neither an object array nor free of reference fields.
        class_flags & Class::kClassFlagReference != 0 && class_flags
            & Class::kClassFlagNoReferenceFields == 0 && class_flags & Class::kClassFlagObjectArray
            == 0 ==> r == ScanKind::Reference,
{
    proof {
        assert(class_flags & 0x780u32 != 0 ==> class_flags != 0u32 && class_flags != 0x800u32
            && class_flags != 0x10u32) by (bit_vector);
    }
    if class_flags == Class::kClassFlagNormal || class_flags == Class::kClassFlagRecord {
        ScanKind::Normal
    } else if class_flags & Class::kClassFlagNoReferenceFields != 0 {
        ScanKind::NoReferenceFields
    } else if class_flags == Class::kClassFlagClass {
        ScanKind::Class
    } else if class_flags & Class::kClassFlagObjectArray != 0 {
        ScanKind::ObjectArray
    } else if class_flags & Class::kClassFlagReference != 0 {
        ScanKind::Reference
    } else if class_flags & Class::kClassFlagDexCache != 0 {
        ScanKind::DexCache
    } else if class_flags & Class::kClassFlagClassLoader != 0 {
        ScanKind::ClassLoader
    } else {
        ScanKind::Unexpected
    }
}

/// The slots that scanning the object at `object` visits: its class slot first, then the
/// slots that its kind holds references in.
pub open spec fn scan_object_slots(
    object: int,
    klass: Class,
    overflow_bitmap: Seq<u32>,
    contents: ObjectContents,
    ptr_size: int,
) -> Seq<int> {
    let instance_fields = instance_field_slots(
        object,
        klass.reference_instance_offsets,
        overflow_bitmap,
    );
    seq![object].add(
        match scan_kind(klass.class_flags) {
            ScanKind::Normal => instance_fields,
            ScanKind::Class => instance_fields.add(
                match contents {
                    ObjectContents::Class(class, embedded_vtable_length) => static_field_slots(
                        object,
                        class,
                        ptr_size,
                        embedded_vtable_length as int,
                    ),
                    _ => Seq::empty(),
                },
            ),
            ScanKind::ObjectArray => match contents {
                ObjectContents::Array(array, _) => array_element_slots(object, array.length as int),
                _ => Seq::empty(),
            },
            ScanKind::Reference | ScanKind::DexCache | ScanKind::ClassLoader => instance_fields,
            _ => Seq::empty(),
        },
    )
}

/// The upcall that completes the scan of an object whose class has flags `class_flags`.
pub open spec fn scan_object_upcall(class_flags: u32, visit_native_roots: bool) -> Option<
    ScanUpcall,
> {
    match scan_kind(class_flags) {
        ScanKind::Class if visit_native_roots => Some(
            ScanUpcall::NativeRoots(ArtObjectWithNativeRootsType::Class),
        ),
        ScanKind::Reference => Some(ScanUpcall::ProcessReferent),
        ScanKind::DexCache if visit_native_roots => Some(
            ScanUpcall::NativeRoots(ArtObjectWithNativeRootsType::DexCache),
        ),
        ScanKind::ClassLoader if visit_native_roots => Some(
            ScanUpcall::NativeRoots(ArtObjectWithNativeRootsType::ClassLoader),
        ),
        _ => None,
    }
}

/// The object at `object`, of class `klass`, can be scanned with what the runtime read of
/// it: the contents match its kind, and the slots lie within the address space.
pub open spec fn scan_object_ready(
    object: int,
    klass: Class,
    overflow_bitmap: Seq<u32>,
    contents: ObjectContents,
    ptr_size: int,
) -> bool {
    let kind = scan_kind(klass.class_flags);
    &&& (kind is Normal || kind is Class || kind is Reference || kind is DexCache
        || kind is ClassLoader) ==> instance_fields_scannable(
        object,
        klass.reference_instance_offsets,
        overflow_bitmap,
    )
    &&& kind is Class ==> (match contents {
        ObjectContents::Class(class, embedded_vtable_length) => static_fields_scannable(
            object,
            class,
            ptr_size,
            embedded_vtable_length as int,
        ),
        _ => false,
    })
    &&& kind is ObjectArray ==> (match contents {
        ObjectContents::Array(array, _) => {
            &&& array.length >= 0
            &&& ARRAY_FIRST_ELEMENT_OFFSET + 4 * array.length <= i32::MAX
            &&& object + ARRAY_FIRST_ELEMENT_OFFSET + 4 * array.length <= usize::MAX
        },
        _ => false,
    })
}

/// Efficiently scan the object at `object`, whose class is `klass`. `overflow_bitmap`
/// holds the class's overflow reference bitmap when its reference offsets take the slow
/// path, `contents` what the runtime read of the object itself (the object as a Class for
/// a java.lang.Class object, the array for an object array), and `ptr_size` the size of
/// the runtime's pointers. An object whose class has flags that no kind of object has yields
/// its klass slot alone; the caller stops after visiting it.
pub fn scan_object<const VISIT_NATIVE_ROOTS: bool>(
    object: usize,
    klass: &Class,
    overflow_bitmap: &Vec<u32>,
    contents: &ObjectContents,
    ptr_size: usize,
) -> (r: ObjectScan)
    requires
        scan_object_ready(
            object as int,
            *klass,
            overflow_bitmap@,
            *contents,
            ptr_size as int,
        ),
    ensures
        slot_addresses(r.slots@) == scan_object_slots(
            object as int,
            *klass,
            overflow_bitmap@,
            *contents,
            ptr_size as int,
        ),
        r.upcall == scan_object_upcall(klass.class_flags, VISIT_NATIVE_ROOTS),
        // An instance of a normal or record class: its klass slot, then its instance fields.
        klass.class_flags == Class::kClassFlagNormal || klass.class_flags
            == Class::kClassFlagRecord ==> {
            &&& slot_addresses(r.slots@) == seq![object as int].add(
                instance_field_slots(
                    object as int,
                    klass.reference_instance_offsets,
                    overflow_bitmap@,
                ),
            )
            &&& r.upcall is None
        },
        // An object without reference fields: its klass slot alone.
        klass.class_flags & Class::kClassFlagNoReferenceFields != 0 ==> {
            &&& slot_addresses(r.slots@) == seq![object as int]
            &&& r.upcall is None
        },
        // An object array: its klass slot, then each of its elements in order.
        klass.class_flags & Class::kClassFlagObjectArray != 0 && klass.class_flags
            & Class::kClassFlagNoReferenceFields == 0 ==> (contents matches ObjectContents::Array(
            array,
            _,
        ) ==> {
            &&& slot_addresses(r.slots@) == seq![object as int].add(
                consecutive_slots(
                    object as int,
                    ARRAY_FIRST_ELEMENT_OFFSET as int,
                    array.length as nat,
                ),
            )
            &&& r.upcall is None
        }),
        // A java.lang.Class object whose class is not yet resolved, or that has no static
        // reference fields: its klass slot, then its instance fields.
        klass.class_flags == Class::kClassFlagClass ==> (contents matches ObjectContents::Class(
            as_class,
            _,
        ) ==> (!((as_class.status >> 28u32) >= 7 || (as_class.status >> 28u32) == 2)
            || as_class.num_reference_static_fields == 0 ==> slot_addresses(r.slots@)
            == seq![object as int].add(
            instance_field_slots(
                object as int,
                klass.reference_instance_offsets,
                overflow_bitmap@,
            ),
        ))),
        // A java.lang.Class object: after its slots, its native roots when they are visited.
        klass.class_flags == Class::kClassFlagClass ==> (contents is Class ==> r.upcall == (
        if VISIT_NATIVE_ROOTS {
            Some(ScanUpcall::NativeRoots(ArtObjectWithNativeRootsType::Class))
        } else {
            None
        })),
        // A java.lang.DexCache: its klass slot, its instance fields, then its native roots
        // when they are visited.
        klass.class_flags & Class::kClassFlagDexCache != 0 && klass.class_flags & (
        Class::kClassFlagNoReferenceFields | Class::kClassFlagObjectArray
            | Class::kClassFlagReference) == 0 ==> {
            &&& slot_addresses(r.slots@) == seq![object as int].add(
                instance_field_slots(
                    object as int,
                    klass.reference_instance_offsets,
                    overflow_bitmap@,
                ),
            )
            &&& r.upcall == (if VISIT_NATIVE_ROOTS {
                Some(ScanUpcall::NativeRoots(ArtObjectWithNativeRootsType::DexCache))
            } else {
                None
            })
        },
        // A java.lang.ClassLoader: its klass slot, its instance fields, then its native roots
        // when they are visited.
        klass.class_flags & Class::kClassFlagClassLoader != 0 && klass.class_flags & (
        Class::kClassFlagNoReferenceFields | Class::kClassFlagObjectArray
            | Class::kClassFlagReference | Class::kClassFlagDexCache) == 0 ==> {
            &&& slot_addresses(r.slots@) == seq![object as int].add(
                instance_field_slots(
                    object as int,
                    klass.reference_instance_offsets,
                    overflow_bitmap@,
                ),
            )
            &&& r.upcall == (if VISIT_NATIVE_ROOTS {
                Some(ScanUpcall::NativeRoots(ArtObjectWithNativeRootsType::ClassLoader))
            } else {
                None
            })
        },
        // An instance of a java.lang.Reference (soft, weak, finalizer or phantom) that is
        // neither an array nor free of reference fields: its klass slot, its instance
        // fields, then its referent is processed.
        klass.class_flags & Class::kClassFlagReference != 0 && klass.class_flags
            & Class::kClassFlagNoReferenceFields == 0 && klass.class_flags
            & Class::kClassFlagObjectArray == 0 ==> {
            &&& slot_addresses(r.slots@) == seq![object as int].add(
                instance_field_slots(
                    object as int,
                    klass.reference_instance_offsets,
                    overflow_bitmap@,
                ),
            )
            &&& r.upcall == Some(ScanUpcall::ProcessReferent)
        },
        // A java.lang.Class object whose status is Resolved or later, or ErrorResolved:
        // its klass slot, its instance fields, then its static reference fields.
        klass.class_flags == Class::kClassFlagClass ==> (contents matches ObjectContents::Class(
            as_class,
            embedded_vtable_length,
        ) ==> (((as_class.status >> 28u32) >= 7 || (as_class.status >> 28u32) == 2)
            && as_class.num_reference_static_fields > 0 ==> slot_addresses(r.slots@)
            == seq![object as int].add(
            instance_field_slots(
                object as int,
                klass.reference_instance_offsets,
                overflow_bitmap@,
            ),
        ).add(
            consecutive_slots(
                object as int,
                as_class.first_reference_static_fields_offset_spec(
                    ptr_size as int,
                    embedded_vtable_length as int,
                ),
                as_class.num_reference_static_fields as nat,
            ),
        ))),
{
    let class_flags = klass.class_flags;
    let ghost kind = scan_kind(class_flags);
    proof {
        assert(class_flags & 0x780u32 != 0 ==> class_flags != 0u32 && class_flags != 0x800u32
            && class_flags != 0x10u32) by (bit_vector);
        assert(class_flags == 0x10u32 ==> class_flags & 1u32 == 0 && class_flags & 8u32 == 0)
            by (bit_vector);
        assert(class_flags & 1u32 != 0 ==> class_flags != 0u32 && class_flags != 0x800u32)
            by (bit_vector);
        assert(class_flags & 8u32 != 0 ==> class_flags != 0u32 && class_flags != 0x800u32
            && class_flags != 0x10u32) by (bit_vector);
        assert(class_flags & 0x40u32 != 0 && class_flags & (1u32 | 8u32 | 0x780u32) == 0 ==> (
        class_flags != 0u32 && class_flags != 0x800u32 && class_flags != 0x10u32
            && class_flags & 1u32 == 0 && class_flags & 8u32 == 0 && class_flags & 0x780u32 == 0))
            by (bit_vector);
        assert(class_flags & 0x20u32 != 0 && class_flags & (1u32 | 8u32 | 0x780u32 | 0x40u32)
            == 0 ==> (class_flags != 0u32 && class_flags != 0x800u32 && class_flags != 0x10u32
            && class_flags & 1u32 == 0 && class_flags & 8u32 == 0 && class_flags & 0x780u32 == 0
            && class_flags & 0x40u32 == 0)) by (bit_vector);
    }
    // Visit the klass slot
    let mut slots: Vec<ArtSlot> = Vec::new();
    slots.push(Object::klass_slot(object));
    let ghost head = slot_addresses(slots@);
    assert(head =~= seq![object as int]);

    // Visit instance fields if the object is an instance of a normal class or a record class
    if likely(class_flags == Class::kClassFlagNormal) || class_flags == Class::kClassFlagRecord {
        let mut fields = Object::visit_instance_fields_references(object, klass, overflow_bitmap);
        slots.append(&mut fields);
        assert(slot_addresses(slots@) =~= scan_object_slots(
            object as int,
            *klass,
            overflow_bitmap@,
            *contents,
            ptr_size as int,
        ));
        return ObjectScan { slots, upcall: None };
    }
    // Return early if the object has no reference fields
    if class_flags & Class::kClassFlagNoReferenceFields != 0 {
        assert(slot_addresses(slots@) =~= scan_object_slots(
            object as int,
            *klass,
            overflow_bitmap@,
            *contents,
            ptr_size as int,
        ));
        return ObjectScan { slots, upcall: None };
    }
    // If we are an instance of java.lang.Class
    if class_flags == Class::kClassFlagClass {
        let mut fields = Object::visit_instance_fields_references(object, klass, overflow_bitmap);
        slots.append(&mut fields);
        let ghost with_fields = slot_addresses(slots@);
        match contents {
            ObjectContents::Class(as_klass, embedded_vtable_length) => {
                let (mut statics, upcall) = as_klass.visit_references::<VISIT_NATIVE_ROOTS>(
                    object,
                    ptr_size,
                    *embedded_vtable_length,
                );
                slots.append(&mut statics);
                assert(slot_addresses(slots@) =~= scan_object_slots(
                    object as int,
                    *klass,
                    overflow_bitmap@,
                    *contents,
                    ptr_size as int,
                ));
                return ObjectScan { slots, upcall };
            },
            _ => {
                return ObjectScan { slots, upcall: None };
            },
        }
    }
    // Visit the array elements if we are is an object array
    if class_flags & Class::kClassFlagObjectArray != 0 {
        match contents {
            ObjectContents::Array(array, _) => {
                let as_obj_array: ObjectArray<Object> = ObjectArray::new(*array);
                let mut elements = as_obj_array.visit_references(object);
                slots.append(&mut elements);
                assert(slot_addresses(slots@) =~= scan_object_slots(
                    object as int,
                    *klass,
                    overflow_bitmap@,
                    *contents,
                    ptr_size as int,
                ));
                return ObjectScan { slots, upcall: None };
            },
            _ => {
                return ObjectScan { slots, upcall: None };
            },
        }
    }
    // Visit the referent if we are an instance java.lang.Reference
    if class_flags & Class::kClassFlagReference != 0 {
        let mut fields = Object::visit_instance_fields_references(object, klass, overflow_bitmap);
        slots.append(&mut fields);
        assert(slot_addresses(slots@) =~= scan_object_slots(
            object as int,
            *klass,
            overflow_bitmap@,
            *contents,
            ptr_size as int,
        ));
        return ObjectScan { slots, upcall: Some(ScanUpcall::ProcessReferent) };
    }
    // If we are an instance of java.lang.DexCache
    if class_flags & Class::kClassFlagDexCache != 0 {
        let mut fields = Object::visit_instance_fields_references(object, klass, overflow_bitmap);
        slots.append(&mut fields);
        assert(slot_addresses(slots@) =~= scan_object_slots(
            object as int,
            *klass,
            overflow_bitmap@,
            *contents,
            ptr_size as int,
        ));
        let upcall = if VISIT_NATIVE_ROOTS {
            Some(ScanUpcall::NativeRoots(ArtObjectWithNativeRootsType::DexCache))
        } else {
            None
        };
        return ObjectScan { slots, upcall };
    }
    // If we are an instance of java.lang.ClassLoader
    if class_flags & Class::kClassFlagClassLoader != 0 {
        let mut fields = Object::visit_instance_fields_references(object, klass, overflow_bitmap);
        slots.append(&mut fields);
        assert(slot_addresses(slots@) =~= scan_object_slots(
            object as int,
            *klass,
            overflow_bitmap@,
            *contents,
            ptr_size as int,
        ));
        let upcall = if VISIT_NATIVE_ROOTS {
            Some(ScanUpcall::NativeRoots(ArtObjectWithNativeRootsType::ClassLoader))
        } else {
            None
        };
        return ObjectScan { slots, upcall };
    }
    // Flags that no kind of object has: only the klass slot is visited; the caller stops.
    assert(slot_addresses(slots@) =~= scan_object_slots(
        object as int,
        *klass,
        overflow_bitmap@,
        *contents,
        ptr_size as int,
    ));
    ObjectScan { slots, upcall: None }
}

/// The reference flags: `kClassFlagReference` is the union of the soft, weak, finalizer and
/// phantom reference flags, and a class with exactly one of them is neither an object array
/// nor free of reference fields, so `scan_object` treats its instances as java.lang.Reference
/// objects.
pub proof fn lemma_reference_flags()
    ensures
        Class::kClassFlagReference == (Class::kClassFlagSoftReference
            | Class::kClassFlagWeakReference | Class::kClassFlagFinalizerReference
            | Class::kClassFlagPhantomReference),
        forall|flags: u32|
            #![trigger scan_kind(flags)]
            flags == Class::kClassFlagSoftReference || flags == Class::kClassFlagWeakReference
                || flags == Class::kClassFlagFinalizerReference || flags
                == Class::kClassFlagPhantomReference ==> {
                &&& flags & Class::kClassFlagReference != 0
                &&& flags & Class::kClassFlagNoReferenceFields == 0
                &&& flags & Class::kClassFlagObjectArray == 0
                &&& scan_kind(flags) == ScanKind::Reference
            },
{
    assert(0x780u32 == (0x80u32 | 0x100u32 | 0x200u32 | 0x400u32)) by (bit_vector);
    assert forall|flags: u32|
        flags == 0x80u32 || flags == 0x100u32 || flags == 0x200u32 || flags
            == 0x400u32 implies flags & 0x780u32 != 0 && flags & 1u32 == 0 && flags & 8u32 == 0
        && flags != 0u32 && flags != 0x800u32 && flags != 0x10u32 by {
        assert(flags == 0x80u32 || flags == 0x100u32 || flags == 0x200u32 || flags == 0x400u32
            ==> flags & 0x780u32 != 0 && flags & 1u32 == 0 && flags & 8u32 == 0) by (bit_vector);
    }
}

/// Scanning an object visits its klass slot first, whatever the flags of its class: for
/// flags that no kind of object has it is the only slot visited.
pub proof fn lemma_klass_slot_first(
    object: int,
    klass: Class,
    overflow_bitmap: Seq<u32>,
    contents: ObjectContents,
    ptr_size: int,
)
    ensures
        scan_object_slots(object, klass, overflow_bitmap, contents, ptr_size).len() >= 1,
        scan_object_slots(object, klass, overflow_bitmap, contents, ptr_size)[0] == object,
        scan_kind(klass.class_flags) is Unexpected ==> scan_object_slots(
            object,
            klass,
            overflow_bitmap,
            contents,
            ptr_size,
        ) == seq![object] && scan_object_upcall(klass.class_flags, true) is None,
{
    let rest = scan_object_slots(object, klass, overflow_bitmap, contents, ptr_size);
    assert(rest[0] == object);
    if scan_kind(klass.class_flags) is Unexpected {
        assert(rest =~= seq![object]);
    }
}

} // verus!
