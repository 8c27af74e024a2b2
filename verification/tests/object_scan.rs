use mmtk_art::object_scanning::{classify_class_flags, ScanKind};
use mmtk_art::abi::{ArtHeapReference, Array, Class, Object, ObjectArray, ObjectContents};
use mmtk_art::object_scanning::{scan_object, ScanUpcall};
use mmtk_art::scanning::{get_forwarding_status, is_not_forwarded, ArtScanning};
use mmtk_art::ArtObjectWithNativeRootsType;

fn header(klass: u32) -> Object {
    Object { klass: ArtHeapReference::new(klass), monitor: 0 }
}

fn class_with(flags: u32, ref_offsets: u32) -> Class {
    Class {
        header: header(0x2000),
        class_loader: ArtHeapReference::new(0),
        component_type: ArtHeapReference::new(0),
        dex_cache: ArtHeapReference::new(0),
        ext_data: ArtHeapReference::new(0),
        iftable: ArtHeapReference::new(0),
        name: ArtHeapReference::new(0),
        super_class: ArtHeapReference::new(0),
        vtable: ArtHeapReference::new(0),
        ifields: 0,
        methods: 0,
        sfields: 0,
        access_flags: 0,
        class_flags: flags,
        class_size: 200,
        clinit_thread_id: 0,
        dex_class_def_idx: 0,
        dex_type_idx: 0,
        num_reference_instance_fields: 0,
        num_reference_static_fields: 0,
        object_size: 24,
        object_size_alloc_fast_path: 24,
        primitive_type: 2 << 16,
        reference_instance_offsets: ref_offsets,
        status: 0,
        copied_methods_offset: 0,
        virtual_methods_offset: 0,
    }
}

fn addresses(slots: &[mmtk_art::ArtSlot]) -> Vec<usize> {
    slots.iter().map(|s| s.0).collect()
}

#[test]
fn normal_object_visits_class_then_marked_fields() {
    let klass = class_with(Class::kClassFlagNormal, 0b101);
    let scan = scan_object::<true>(0x1000, &klass, &vec![], &ObjectContents::Instance, 8);
    assert_eq!(addresses(&scan.slots), vec![0x1000, 0x1008, 0x1010]);
    assert_eq!(scan.upcall, None);
    let record = class_with(Class::kClassFlagRecord, 0b1);
    let scan = scan_object::<true>(0x1000, &record, &vec![], &ObjectContents::Instance, 8);
    assert_eq!(addresses(&scan.slots), vec![0x1000, 0x1008]);
}

#[test]
fn instance_fields_fast_path() {
    let klass = class_with(Class::kClassFlagNormal, 0b0001_0000_0000_0000_0000_0000_0000_0011);
    let slots = Object::visit_instance_fields_references(0x1000, &klass, &vec![]);
    assert_eq!(addresses(&slots), vec![0x1008, 0x100c, 0x1008 + 4 * 28]);
}

#[test]
fn instance_fields_slow_path_reads_overflow_bitmap() {
    let klass = class_with(Class::kClassFlagNormal, 0x8000_0002);
    assert_eq!(klass.reference_bitmap_address(0x2000), 0x2000 + 200 - 8);
    let slots =
        Object::visit_instance_fields_references(0x1000, &klass, &vec![0b1, 0x8000_0000]);
    assert_eq!(addresses(&slots), vec![0x1008, 0x1000 + 8 + 128 + 124]);
}

#[test]
fn objects_without_reference_fields_visit_only_class() {
    let klass = class_with(Class::kClassFlagNoReferenceFields | Class::kClassFlagString, 0);
    let scan = scan_object::<true>(0x1000, &klass, &vec![], &ObjectContents::Instance, 8);
    assert_eq!(addresses(&scan.slots), vec![0x1000]);
    assert_eq!(scan.upcall, None);
}

#[test]
fn class_objects_visit_static_fields_and_native_roots() {
    let klass = class_with(Class::kClassFlagClass, 0b1);
    let mut as_class = class_with(0, 0);
    as_class.status = 7 << 28;
    as_class.num_reference_static_fields = 2;
    let contents = ObjectContents::Class(as_class, 3);
    let scan = scan_object::<true>(0x1000, &klass, &vec![], &contents, 8);
    // Statics follow the embedded vtable of three entries: 128 + 8 + 24.
    assert_eq!(addresses(&scan.slots), vec![0x1000, 0x1008, 0x1000 + 160, 0x1000 + 164]);
    assert_eq!(
        scan.upcall,
        Some(ScanUpcall::NativeRoots(ArtObjectWithNativeRootsType::Class))
    );
    let scan = scan_object::<false>(0x1000, &klass, &vec![], &contents, 8);
    assert_eq!(scan.upcall, None);
    // An unresolved class has no statics to visit yet.
    as_class.status = 5 << 28;
    let (slots, upcall) = as_class.visit_references::<true>(0x1000, 8, 3);
    assert!(slots.is_empty());
    assert_eq!(upcall, Some(ScanUpcall::NativeRoots(ArtObjectWithNativeRootsType::Class)));
}

#[test]
fn object_arrays_visit_elements() {
    let klass = class_with(Class::kClassFlagObjectArray, 0);
    let array = Array { header: header(0x2400), length: 3, first_element: 0 };
    let contents = ObjectContents::Array(array, class_with(0, 0));
    let scan = scan_object::<true>(0x1000, &klass, &vec![], &contents, 8);
    assert_eq!(addresses(&scan.slots), vec![0x1000, 0x100c, 0x1010, 0x1014]);
    assert_eq!(scan.upcall, None);
    let objects: ObjectArray<Object> = ObjectArray::new(array);
    assert_eq!(addresses(&objects.visit_references(0x1000)), vec![0x100c, 0x1010, 0x1014]);
}

#[test]
fn references_ask_for_referent_processing() {
    let klass = class_with(Class::kClassFlagWeakReference, 0b110);
    let scan = scan_object::<false>(0x1000, &klass, &vec![], &ObjectContents::Instance, 8);
    assert_eq!(addresses(&scan.slots), vec![0x1000, 0x100c, 0x1010]);
    assert_eq!(scan.upcall, Some(ScanUpcall::ProcessReferent));
}

#[test]
fn dex_caches_and_class_loaders_ask_for_native_roots() {
    let dex = class_with(Class::kClassFlagDexCache, 0b11);
    let scan = ArtScanning::scan_object(0x1000, &dex, &vec![], &ObjectContents::Instance, 8);
    assert_eq!(addresses(&scan.slots), vec![0x1000, 0x1008, 0x100c]);
    assert_eq!(
        scan.upcall,
        Some(ScanUpcall::NativeRoots(ArtObjectWithNativeRootsType::DexCache))
    );
    let loader = class_with(Class::kClassFlagClassLoader, 0b1);
    let scan = scan_object::<true>(0x1000, &loader, &vec![], &ObjectContents::Instance, 8);
    assert_eq!(
        scan.upcall,
        Some(ScanUpcall::NativeRoots(ArtObjectWithNativeRootsType::ClassLoader))
    );
    let scan = scan_object::<false>(0x1000, &loader, &vec![], &ObjectContents::Instance, 8);
    assert_eq!(scan.upcall, None);
    assert_eq!(addresses(&scan.slots), vec![0x1000, 0x1008]);
}

#[test]
fn forwarding_bits_are_the_low_header_bits() {
    assert_eq!(get_forwarding_status(0x1237), 3);
    assert_eq!(get_forwarding_status(0x1236), 2);
    assert!(is_not_forwarded(0x1234));
    assert!(!is_not_forwarded(0x1235));
    // The class and the forwarding bits make up the header word.
    let object = header(0x1236);
    assert_eq!(object.get_class().reference | get_forwarding_status(0x1236) as u32, 0x1236);
}

#[test]
fn class_flags_classify_in_order() {
    assert_eq!(classify_class_flags(0), ScanKind::Normal);
    assert_eq!(classify_class_flags(Class::kClassFlagRecord), ScanKind::Normal);
    assert_eq!(
        classify_class_flags(Class::kClassFlagString | Class::kClassFlagNoReferenceFields),
        ScanKind::NoReferenceFields
    );
    assert_eq!(classify_class_flags(Class::kClassFlagClass), ScanKind::Class);
    assert_eq!(classify_class_flags(Class::kClassFlagObjectArray), ScanKind::ObjectArray);
    assert_eq!(classify_class_flags(Class::kClassFlagPhantomReference), ScanKind::Reference);
    assert_eq!(classify_class_flags(Class::kClassFlagDexCache), ScanKind::DexCache);
    assert_eq!(classify_class_flags(Class::kClassFlagClassLoader), ScanKind::ClassLoader);
    assert_eq!(classify_class_flags(Class::kClassFlagString), ScanKind::Unexpected);
    assert_eq!(classify_class_flags(Class::kClassFlagPrimitiveArray), ScanKind::Unexpected);
}

#[test]
fn unexpected_flags_yield_only_the_klass_slot() {
    let klass = class_with(Class::kClassFlagString, 0b1);
    let scan = scan_object::<true>(0x1000, &klass, &vec![], &ObjectContents::Instance, 8);
    assert_eq!(addresses(&scan.slots), vec![0x1000]);
    assert_eq!(scan.upcall, None);
}
