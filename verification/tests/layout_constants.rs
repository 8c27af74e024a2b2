use mmtk_art::abi::{
    ARRAY_FIRST_ELEMENT_OFFSET, ART_HEAP_REFERENCE_SIZE, CLASS_STATUS_OFFSET, OBJECT_HEADER_SIZE,
    SIZE_OF_ART_STRING, SIZE_OF_CLASS,
};
use std::mem::{align_of, size_of};

/// The C layout of fields of the given (size, alignment), in order: the offset of each
/// field, and the size of the whole.
fn c_layout(fields: &[(usize, usize)]) -> (Vec<usize>, usize) {
    let mut offsets = Vec::new();
    let mut offset = 0;
    let mut max_align = 1;
    for &(size, align) in fields {
        offset = (offset + align - 1) / align * align;
        offsets.push(offset);
        offset += size;
        max_align = max_align.max(align);
    }
    (offsets, (offset + max_align - 1) / max_align * max_align)
}

fn field<T>() -> (usize, usize) {
    (size_of::<T>(), align_of::<T>())
}

#[test]
fn layout_constants_match_c_layouts() {
    // java.lang.Object: klass, monitor.
    let (_, object_size) = c_layout(&[field::<u32>(), field::<u32>()]);
    assert_eq!(object_size, OBJECT_HEADER_SIZE as usize);
    assert_eq!(size_of::<u32>(), ART_HEAP_REFERENCE_SIZE);
    // java.lang.Class: header, 8 references, 3 u64, 12 32-bit fields, status, 2 u16.
    let mut class_fields = vec![(object_size, 4)];
    class_fields.extend(std::iter::repeat(field::<u32>()).take(8));
    class_fields.extend(std::iter::repeat(field::<u64>()).take(3));
    class_fields.extend(std::iter::repeat(field::<u32>()).take(12));
    class_fields.push(field::<u32>());
    class_fields.push(field::<u16>());
    class_fields.push(field::<u16>());
    let (offsets, class_size) = c_layout(&class_fields);
    assert_eq!(offsets[1 + 8 + 3 + 12], CLASS_STATUS_OFFSET);
    assert_eq!(CLASS_STATUS_OFFSET, 112);
    assert_eq!(class_size, SIZE_OF_CLASS);
    assert_eq!(SIZE_OF_CLASS, 120);
    // Array: header, length, first element.
    let (offsets, _) = c_layout(&[(object_size, 4), field::<i32>(), field::<u32>()]);
    assert_eq!(offsets[2], ARRAY_FIRST_ELEMENT_OFFSET);
    assert_eq!(ARRAY_FIRST_ELEMENT_OFFSET, 12);
    // java.lang.String: header, count, hash code.
    let (_, string_size) = c_layout(&[(object_size, 4), field::<i32>(), field::<u32>()]);
    assert_eq!(string_size, SIZE_OF_ART_STRING);
    assert_eq!(SIZE_OF_ART_STRING, 16);
}
