use mmtk_art::abi::{
    get_field_slot, get_object_size, ArtHeapReference, ArtPrimitive, ArtString, Array, Class,
    ClassStatus, Object, ObjectArray, ObjectContents, ART_HEAP_REFERENCE_SIZE, SIZE_OF_CLASS,
};
use mmtk_art::conversions::{raw_align_up, raw_is_aligned};

fn header(klass: u32) -> Object {
    Object { klass: ArtHeapReference::new(klass), monitor: 0 }
}

fn class() -> Class {
    Class {
        header: header(0x2000),
        class_loader: ArtHeapReference::new(0),
        component_type: ArtHeapReference::new(0),
        dex_cache: ArtHeapReference::new(0),
        ext_data: ArtHeapReference::new(0),
        iftable: ArtHeapReference::new(0),
        name: ArtHeapReference::new(0),
        super_class: ArtHeapReference::new(0),
        vtable: ArtHeapReference::new(0),
        ifields: 0,
        methods: 0,
        sfields: 0,
        access_flags: 0,
        class_flags: 0,
        class_size: 0,
        clinit_thread_id: 0,
        dex_class_def_idx: 0,
        dex_type_idx: 0,
        num_reference_instance_fields: 0,
        num_reference_static_fields: 0,
        object_size: 24,
        object_size_alloc_fast_path: 24,
        primitive_type: 2 << 16,
        reference_instance_offsets: 0,
        status: 0,
        copied_methods_offset: 0,
        virtual_methods_offset: 0,
    }
}

fn primitive_class(primitive: u32, shift: u32) -> Class {
    let mut c = class();
    c.primitive_type = primitive | (shift << 16);
    c
}

#[test]
fn align_up_rounds_to_power_of_two() {
    assert_eq!(raw_align_up(13, 8), 16);
    assert_eq!(raw_align_up(16, 8), 16);
    assert_eq!(raw_align_up(0, 4), 0);
    assert_eq!(raw_align_up(1, 1), 1);
    assert!(raw_is_aligned(16, 8));
    assert!(!raw_is_aligned(12, 8));
    assert!(raw_is_aligned(12, 4));
}

#[test]
fn field_slot_adds_signed_offset() {
    assert_eq!(get_field_slot(0x1000, 8).0, 0x1008);
    assert_eq!(get_field_slot(0x1000, -8).0, 0xff8);
    assert_eq!(Object::klass_slot(0x4000).0, 0x4000);
    assert_eq!(Object::class_offset(), 0);
}

#[test]
fn get_class_drops_forwarding_bits() {
    assert_eq!(header(0x1237).get_class().reference, 0x1234);
    assert_eq!(header(0x1234).get_class().reference, 0x1234);
    assert!(ArtHeapReference::new(0).is_null());
    assert!(!ArtHeapReference::new(4).is_null());
}

#[test]
fn primitive_codes_roundtrip() {
    for v in 0..10u32 {
        assert_eq!(ArtPrimitive::from_u32(v).value(), v);
    }
    assert_eq!(ArtPrimitive::from_u32(0), ArtPrimitive::Not);
    assert_eq!(ArtPrimitive::from_u32(9), ArtPrimitive::Void);
}

#[test]
fn primitive_size_shifts() {
    assert_eq!(ArtPrimitive::component_size_shift(ArtPrimitive::Boolean), 0);
    assert_eq!(ArtPrimitive::component_size_shift(ArtPrimitive::Byte), 0);
    assert_eq!(ArtPrimitive::component_size_shift(ArtPrimitive::Void), 0);
    assert_eq!(ArtPrimitive::component_size_shift(ArtPrimitive::Char), 1);
    assert_eq!(ArtPrimitive::component_size_shift(ArtPrimitive::Short), 1);
    assert_eq!(ArtPrimitive::component_size_shift(ArtPrimitive::Int), 2);
    assert_eq!(ArtPrimitive::component_size_shift(ArtPrimitive::Float), 2);
    assert_eq!(ArtPrimitive::component_size_shift(ArtPrimitive::Long), 3);
    assert_eq!(ArtPrimitive::component_size_shift(ArtPrimitive::Double), 3);
    // A reference is four bytes.
    assert_eq!(ArtPrimitive::component_size_shift(ArtPrimitive::Not), 2);
}

#[test]
fn class_status_codes_roundtrip() {
    for v in 0..16u32 {
        assert_eq!(ClassStatus::from_u32(v).value(), v);
    }
    assert_eq!(ClassStatus::from_u32(7), ClassStatus::Resolved);
    assert_eq!(ClassStatus::from_u32(15), ClassStatus::VisiblyInitialized);
}

#[test]
fn class_status_predicates() {
    let mut c = class();
    c.status = 7 << 28;
    assert_eq!(c.get_status(), ClassStatus::Resolved);
    assert!(c.is_resolved());
    assert!(!c.is_erroneous());
    c.status = (2 << 28) | 0x1234;
    assert_eq!(c.get_status(), ClassStatus::ErrorResolved);
    assert!(c.is_resolved());
    assert!(c.is_erroneous());
    assert!(!c.is_temp());
    c.status = 3 << 28;
    assert!(!c.is_resolved());
    assert!(c.is_erroneous());
    c.status = 5 << 28;
    assert!(c.is_temp());
    c.access_flags = Class::kAccInterface;
    assert!(!c.is_temp());
}

#[test]
fn class_kind_predicates() {
    let mut c = class();
    assert!(c.is_instantiable());
    assert!(c.should_have_embedded_vtable());
    assert!(c.is_instantiable_non_array());
    assert!(!c.is_primitive());
    c.class_flags = Class::kClassFlagString | Class::kClassFlagNoReferenceFields;
    assert!(c.is_string_class());
    assert!(!c.is_classloader_class());
    c.class_flags = Class::kClassFlagClassLoader;
    assert!(c.is_classloader_class());
    c.class_flags = Class::kClassFlagDexCache;
    assert!(c.is_dexcache_class());
    c.class_flags = Class::kClassFlagWeakReference;
    assert!(c.is_type_of_reference_class());
    c.access_flags = Class::kAccAbstract;
    assert!(c.is_abstract());
    assert!(!c.is_instantiable());
    c.component_type = ArtHeapReference::new(0x3000);
    assert!(c.is_array_class());
    assert!(c.is_instantiable());
    assert!(!c.is_instantiable_non_array());
    let int_class = primitive_class(5, 2);
    assert!(int_class.is_primitive());
    assert_eq!(int_class.get_primitive_type(), ArtPrimitive::Int);
    assert_eq!(int_class.get_primitive_type_size_shift(), 2);
    assert!(!c.is_object_array_class(&int_class));
    assert!(c.is_object_array_class(&class()));
    assert_eq!(c.get_component_size_shift(&int_class), 2);
}

#[test]
fn class_class_is_its_own_class() {
    let mut c = class();
    c.header = header(0x2000);
    assert!(c.is_class_class(0x2000));
    assert!(!c.is_class_class(0x2400));
    assert!(c.is_variable_size(0x2000));
    assert!(!c.is_variable_size(0x2400));
    assert!(!c.check_normal_class(0x2000));
    assert!(c.check_normal_class(0x2400));
}

#[test]
fn no_reference_fields_check_counts_superclasses() {
    let mut c = class();
    c.num_reference_instance_fields = 0;
    c.super_class = ArtHeapReference::new(0x5000);
    let mut object_class = class();
    object_class.num_reference_instance_fields = 1;
    assert!(c.check_no_reference_fields(0x2400, &class(), &vec![object_class]));
    object_class.num_reference_instance_fields = 2;
    assert!(!c.check_no_reference_fields(0x2400, &class(), &vec![object_class]));
    // Strings keep instance fields for reflection only.
    c.class_flags = Class::kClassFlagString;
    assert!(c.check_no_reference_fields(0x2400, &class(), &vec![object_class]));
    // java.lang.Class itself has reference fields.
    assert!(!c.check_no_reference_fields(0x2000, &class(), &vec![object_class]));
}

#[test]
fn class_size_without_statics() {
    assert_eq!(SIZE_OF_CLASS, 120);
    assert_eq!(Class::compute_class_size(false, 0, 0, 0, 0, 0, 0, 0, 8), 120);
    // Vtable length word, aligned to 8, IMT pointer and 5 entries.
    assert_eq!(Class::compute_class_size(true, 5, 0, 0, 0, 0, 0, 0, 8), 176);
    assert_eq!(Class::compute_class_size(true, 5, 0, 0, 0, 0, 0, 0, 4), 148);
}

#[test]
fn class_size_moves_narrow_statics_into_padding() {
    // 124 bytes after one reference static; the 32-bit static fills the padding.
    assert_eq!(Class::compute_class_size(false, 0, 0, 0, 1, 1, 1, 0, 8), 136);
    // The 16-bit static and two 8-bit ones fill the padding; one 8-bit static stays.
    assert_eq!(Class::compute_class_size(false, 0, 3, 1, 0, 1, 1, 0, 8), 137);
    // With a reference bitmap of two words after the statics, aligned to 4.
    assert_eq!(Class::compute_class_size(false, 0, 3, 1, 0, 1, 1, 2, 8), 148);
    // Without 64-bit statics nothing is padded.
    assert_eq!(Class::compute_class_size(false, 0, 3, 1, 1, 0, 1, 0, 8), 124 + 3 + 2 + 4);
}

#[test]
fn first_static_field_offset() {
    let c = class();
    assert_eq!(c.get_first_reference_static_fields_offset(8, 3), 128 + 8 + 24);
    let mut interface = class();
    interface.access_flags = Class::kAccInterface;
    assert_eq!(interface.get_first_reference_static_fields_offset(8, 3), 120);
}

#[test]
fn array_sizes() {
    let a = Array { header: header(0x2000), length: 10, first_element: 0 };
    assert_eq!(a.data_offset(1), 12);
    assert_eq!(a.data_offset(4), 12);
    assert_eq!(a.data_offset(8), 16);
    assert_eq!(a.size_of(&primitive_class(5, 2)), 52);
    assert_eq!(a.size_of(&primitive_class(6, 3)), 96);
    assert_eq!(a.size_of(&primitive_class(2, 0)), 22);
    let empty = Array { header: header(0x2000), length: 0, first_element: 0 };
    assert_eq!(empty.size_of(&primitive_class(6, 3)), 16);
    let objects: ObjectArray<Object> = ObjectArray::new(a);
    assert_eq!(objects.offset_of_element(0), 12);
    assert_eq!(objects.offset_of_element(3), 12 + 3 * ART_HEAP_REFERENCE_SIZE);
}

#[test]
fn string_sizes() {
    let compressed = ArtString { header: header(0x2000), count: 10, hash_code: 0 };
    assert!(compressed.is_compressed());
    assert_eq!(compressed.get_length(), 5);
    assert_eq!(compressed.size_of(), 24);
    let wide = ArtString { header: header(0x2000), count: 11, hash_code: 0 };
    assert!(!wide.is_compressed());
    assert_eq!(wide.get_length(), 5);
    assert_eq!(wide.size_of(), 32);
    let empty = ArtString { header: header(0x2000), count: 0, hash_code: 0 };
    assert_eq!(empty.size_of(), 16);
}

#[test]
fn object_size_by_kind() {
    // The class of these objects is at 0x2400; java.lang.Class is at 0x2000.
    let object = header(0x2400);
    // A plain instance is sized by its class.
    assert_eq!(get_object_size(&object, &class(), &ObjectContents::Instance), 24);
    // An array.
    let mut array_class = class();
    array_class.component_type = ArtHeapReference::new(0x3000);
    let array = Array { header: object, length: 3, first_element: 0 };
    let contents = ObjectContents::Array(array, primitive_class(6, 3));
    assert_eq!(get_object_size(&object, &array_class, &contents), 16 + 24);
    // A java.lang.Class object: java.lang.Class is at 0x2000 and is its own class.
    let class_object = header(0x2000);
    let mut class_class = class();
    class_class.header = header(0x2000);
    let mut as_class = class();
    as_class.class_size = 300;
    let contents = ObjectContents::Class(as_class, 0);
    assert_eq!(get_object_size(&class_object, &class_class, &contents), 300);
    // A string.
    let mut string_class = class();
    string_class.class_flags = Class::kClassFlagString | Class::kClassFlagNoReferenceFields;
    let string = ArtString { header: object, count: 21, hash_code: 0 };
    let contents = ObjectContents::ArtString(string);
    assert_eq!(get_object_size(&object, &string_class, &contents), 40);
}
