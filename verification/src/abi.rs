//! Rust mirrors of the ART runtime's object layouts and the pure computations on them.
//!
//! The mirrors hold the fields that ART lays out in the managed heap. Functions that the
//! runtime evaluates by following a heap reference take the referenced mirror as an argument.
use vstd::prelude::*;
use vstd::math::min;
use core::marker::PhantomData;
use crate::{Art, ArtSlot};
use crate::conversions::{is_pow2, align_up_spec, raw_align_up, raw_is_aligned, lemma_small_pow2};

verus! {

/// Size of object reference (in bytes)
pub const PRIM_OBJECT_REFERENCE_SIZE: u32 = 4;

/// Size of object header (in bytes)
pub const OBJECT_HEADER_SIZE: u32 = 8;

/// Size of an ArtHeapReference (in bytes)
pub const ART_HEAP_REFERENCE_SIZE: usize = 4;

/// Size of a java.lang.Class instance without its embedded tables (in bytes)
pub const SIZE_OF_CLASS: usize = 120;

/// Offset of the `status` field within a java.lang.Class (in bytes)
pub const CLASS_STATUS_OFFSET: usize = 112;

/// Offset of the first element of an array (in bytes)
pub const ARRAY_FIRST_ELEMENT_OFFSET: usize = 12;

/// Size of a java.lang.String without its characters (in bytes)
pub const SIZE_OF_ART_STRING: usize = 16;

/// Get the slot of a field in an object.
pub fn get_field_slot(object: usize, offset: i32) -> (r: ArtSlot)
    requires
        0 <= object + offset <= usize::MAX,
    ensures
        r.0 == object + offset,
{
    ArtSlot(get_field_address(object, offset))
}

/// Get the address of a field in an object.
fn get_field_address(object: usize, offset: i32) -> (r: usize)
    requires
        0 <= object + offset <= usize::MAX,
    ensures
        r == object + offset,
{
    if offset >= 0 {
        object + offset as usize
    } else {
        object - (0i64 - offset as i64) as usize
    }
}

/// References between objects within the managed heap. A value of zero is the null reference.
///
/// The type of the referenced object is documented at each field that holds one.
#[derive(Clone, Copy, PartialEq, Eq, Debug)]
pub struct ArtHeapReference {
    /// The compressed 32-bit address of the referenced object, or zero.
    pub reference: u32,
}

impl ArtHeapReference {
    /// A reference to the object at the 32-bit address `reference` (zero for null).
    pub fn new(reference: u32) -> (r: Self)
        ensures
            r.reference == reference,
    {
        ArtHeapReference { reference }
    }

    /// Is this the null reference?
    #[verifier::allow_in_spec]
    pub fn is_null(&self) -> bool
        returns
            self.reference == 0,
    {
        self.reference == 0
    }
}

/// Rust mirror of java.lang.Object
#[derive(Clone, Copy, PartialEq, Eq, Debug)]
pub struct Object {
    /// The Class representing the type of the object (a reference to a `Class`).
    pub klass: ArtHeapReference,
    /// Monitor and hash code information.
    pub monitor: u32,
}

impl Object {
    /// Get the offset of the klass slot of an object.
    pub fn class_offset() -> (r: usize)
        ensures
            r == 0,
    {
        0
    }

    /// Return the address of the klass slot of the object at `object`.
    pub fn klass_slot(object: usize) -> (r: ArtSlot)
        ensures
            r.0 == object,
    {
        get_field_slot(object, 0)
    }

    /// Return the Class of an object: the klass word without its two forwarding bits.
    #[verifier::allow_in_spec]
    pub fn get_class(&self) -> ArtHeapReference
        returns
            (ArtHeapReference { reference: self.klass.reference & 0xffff_fffcu32 }),
    {
        ArtHeapReference { reference: self.klass.reference & 0xffff_fffcu32 }
    }
}

/// The component size shift for a component of `component_size` bytes.
pub open spec fn size_shift_width_spec(component_size: u32) -> usize {
    if component_size == 1 {
        0
    } else if component_size == 2 {
        1
    } else if component_size == 4 {
        2
    } else if component_size == 8 {
        3
    } else {
        0
    }
}

fn component_size_shift_width(component_size: u32) -> (r: usize)
    ensures
        r == size_shift_width_spec(component_size),
{
    if component_size == 1 {
        0
    } else if component_size == 2 {
        1
    } else if component_size == 4 {
        2
    } else if component_size == 8 {
        3
    } else {
        0
    }
}

/// Primitive types
#[derive(Clone, Copy, PartialEq, Eq, Debug)]
pub enum ArtPrimitive {
    /// Not a primitive type
    Not,
    /// Boolean
    Boolean,
    /// Byte
    Byte,
    /// Char
    Char,
    /// Short
    Short,
    /// Int
    Int,
    /// Long
    Long,
    /// Float
    Float,
    /// Double
    Double,
    /// Void
    Void,
}

impl ArtPrimitive {
    /// The number that ART uses for this primitive type.
    pub open spec fn code(self) -> u32 {
        match self {
            ArtPrimitive::Not => 0,
            ArtPrimitive::Boolean => 1,
            ArtPrimitive::Byte => 2,
            ArtPrimitive::Char => 3,
            ArtPrimitive::Short => 4,
            ArtPrimitive::Int => 5,
            ArtPrimitive::Long => 6,
            ArtPrimitive::Float => 7,
            ArtPrimitive::Double => 8,
            ArtPrimitive::Void => 9,
        }
    }

    /// The number that ART uses for this primitive type.
    pub fn value(self) -> (r: u32)
        ensures
            r == self.code(),
    {
        match self {
            ArtPrimitive::Not => 0,
            ArtPrimitive::Boolean => 1,
            ArtPrimitive::Byte => 2,
            ArtPrimitive::Char => 3,
            ArtPrimitive::Short => 4,
            ArtPrimitive::Int => 5,
            ArtPrimitive::Long => 6,
            ArtPrimitive::Float => 7,
            ArtPrimitive::Double => 8,
            ArtPrimitive::Void => 9,
        }
    }

    /// The primitive type that ART numbers `code`.
    pub open spec fn of_code(code: u32) -> ArtPrimitive {
        if code == 0 {
            ArtPrimitive::Not
        } else if code == 1 {
            ArtPrimitive::Boolean
        } else if code == 2 {
            ArtPrimitive::Byte
        } else if code == 3 {
            ArtPrimitive::Char
        } else if code == 4 {
            ArtPrimitive::Short
        } else if code == 5 {
            ArtPrimitive::Int
        } else if code == 6 {
            ArtPrimitive::Long
        } else if code == 7 {
            ArtPrimitive::Float
        } else if code == 8 {
            ArtPrimitive::Double
        } else {
            ArtPrimitive::Void
        }
    }

    /// Convert a u32 to an ArtPrimitive
    pub fn from_u32(value: u32) -> (r: ArtPrimitive)
        requires
            value < 10,
        ensures
            r.code() == value,
            r == ArtPrimitive::of_code(value),
    {
        match value {
            0 => ArtPrimitive::Not,
            1 => ArtPrimitive::Boolean,
            2 => ArtPrimitive::Byte,
            3 => ArtPrimitive::Char,
            4 => ArtPrimitive::Short,
            5 => ArtPrimitive::Int,
            6 => ArtPrimitive::Long,
            7 => ArtPrimitive::Float,
            8 => ArtPrimitive::Double,
            _ => ArtPrimitive::Void,
        }
    }

    /// The log2 of the size in bytes of a value of the given primitive type.
    pub open spec fn size_shift(primitive: ArtPrimitive) -> usize {
        match primitive {
            ArtPrimitive::Void | ArtPrimitive::Boolean | ArtPrimitive::Byte => 0,
            ArtPrimitive::Char | ArtPrimitive::Short => 1,
            ArtPrimitive::Int | ArtPrimitive::Float => 2,
            ArtPrimitive::Long | ArtPrimitive::Double => 3,
            ArtPrimitive::Not => size_shift_width_spec(PRIM_OBJECT_REFERENCE_SIZE),
        }
    }

    /// Get the component size shift of a primitive type
    pub fn component_size_shift(primitive: ArtPrimitive) -> (r: usize)
        ensures
            r == ArtPrimitive::size_shift(primitive),
    {
        match primitive {
            ArtPrimitive::Void | ArtPrimitive::Boolean | ArtPrimitive::Byte => 0,
            ArtPrimitive::Char | ArtPrimitive::Short => 1,
            ArtPrimitive::Int | ArtPrimitive::Float => 2,
            ArtPrimitive::Long | ArtPrimitive::Double => 3,
            ArtPrimitive::Not => component_size_shift_width(PRIM_OBJECT_REFERENCE_SIZE),
        }
    }
}

/// Class status
#[derive(Clone, Copy, PartialEq, Eq, Debug)]
pub enum ClassStatus {
    /// Zero-initialized Class object starts in this state.
    NotReady,
    /// Retired, should not be used. Use the newly cloned one instead.
    Retired,
    /// Has errors but the class has been resolved.
    ErrorResolved,
    /// Has errors but the class has not been resolved.
    ErrorUnresolved,
    /// Loaded, DEX idx in super_class_type_idx and interfaces_type_idx.
    Idx,
    /// DEX idx values resolved.
    Loaded,
    /// Just cloned from temporary class object.
    Resolving,
    /// Part of linking.
    Resolved,
    /// In the process of being verified.
    Verifying,
    /// Compile time verification failed, retry at runtime.
    RetryVerificationAtRuntime,
    /// Compile time verification only failed for access checks.
    VerifiedNeedsAccessChecks,
    /// Logically part of linking; done pre-init.
    Verified,
    /// Superclass validation part of init done.
    SuperclassValidated,
    /// Class init in progress.
    Initializing,
    /// Ready to go.
    Initialized,
    /// Initialized and visible to all threads.
    VisiblyInitialized,
}

impl ClassStatus {
    /// The number that ART uses for this status; statuses are ordered by it.
    pub open spec fn code(self) -> u32 {
        match self {
            ClassStatus::NotReady => 0,
            ClassStatus::Retired => 1,
            ClassStatus::ErrorResolved => 2,
            ClassStatus::ErrorUnresolved => 3,
            ClassStatus::Idx => 4,
            ClassStatus::Loaded => 5,
            ClassStatus::Resolving => 6,
            ClassStatus::Resolved => 7,
            ClassStatus::Verifying => 8,
            ClassStatus::RetryVerificationAtRuntime => 9,
            ClassStatus::VerifiedNeedsAccessChecks => 10,
            ClassStatus::Verified => 11,
            ClassStatus::SuperclassValidated => 12,
            ClassStatus::Initializing => 13,
            ClassStatus::Initialized => 14,
            ClassStatus::VisiblyInitialized => 15,
        }
    }

    /// The number that ART uses for this status; statuses are ordered by it.
    pub fn value(self) -> (r: u32)
        ensures
            r == self.code(),
    {
        match self {
            ClassStatus::NotReady => 0,
            ClassStatus::Retired => 1,
            ClassStatus::ErrorResolved => 2,
            ClassStatus::ErrorUnresolved => 3,
            ClassStatus::Idx => 4,
            ClassStatus::Loaded => 5,
            ClassStatus::Resolving => 6,
            ClassStatus::Resolved => 7,
            ClassStatus::Verifying => 8,
            ClassStatus::RetryVerificationAtRuntime => 9,
            ClassStatus::VerifiedNeedsAccessChecks => 10,
            ClassStatus::Verified => 11,
            ClassStatus::SuperclassValidated => 12,
            ClassStatus::Initializing => 13,
            ClassStatus::Initialized => 14,
            ClassStatus::VisiblyInitialized => 15,
        }
    }

    /// Convert a u32 to a ClassStatus
    pub fn from_u32(value: u32) -> (r: ClassStatus)
        requires
            value < 16,
        ensures
            r.code() == value,
    {
        match value {
            0 => ClassStatus::NotReady,
            1 => ClassStatus::Retired,
            2 => ClassStatus::ErrorResolved,
            3 => ClassStatus::ErrorUnresolved,
            4 => ClassStatus::Idx,
            5 => ClassStatus::Loaded,
            6 => ClassStatus::Resolving,
            7 => ClassStatus::Resolved,
            8 => ClassStatus::Verifying,
            9 => ClassStatus::RetryVerificationAtRuntime,
            10 => ClassStatus::VerifiedNeedsAccessChecks,
            11 => ClassStatus::Verified,
            12 => ClassStatus::SuperclassValidated,
            13 => ClassStatus::Initializing,
            14 => ClassStatus::Initialized,
            _ => ClassStatus::VisiblyInitialized,
        }
    }
}



/// Rust mirror of java.lang.Class
#[derive(Clone, Copy, PartialEq, Eq, Debug)]
pub struct Class {
    /// Object header
    pub header: Object,
    /// Defining class loader (a `ClassLoader`), or null for the "bootstrap" system loader.
    pub class_loader: ArtHeapReference,
    /// For array classes, the component class object (a `Class`) for instanceof/checkcast
    /// (for String[][][], this will be String[][]). null for non-array classes.
    pub component_type: ArtHeapReference,
    /// DexCache of resolved constant pool entries (will be null for classes generated by the
    /// runtime such as arrays and primitive classes).
    pub dex_cache: ArtHeapReference,
    /// Extraneous class data that is not always needed (a ClassExt).
    pub ext_data: ArtHeapReference,
    /// The interface table (an IfTable)
    pub iftable: ArtHeapReference,
    /// Descriptor for the class such as "java.lang.Class" or "[C" (a String).
    pub name: ArtHeapReference,
    /// The superclass (a `Class`), or null if this is java.lang.Object or a primitive type.
    pub super_class: ArtHeapReference,
    /// Virtual method table (a PointerArray), for use by "invoke-virtual".
    pub vtable: ArtHeapReference,
    /// Instance fields. These describe the layout of the contents of an Object.
    pub ifields: u64,
    /// Pointer to an ArtMethod length-prefixed array.
    pub methods: u64,
    /// Static fields length-prefixed array.
    pub sfields: u64,
    /// Access flags; low 16 bits are defined by VM spec.
    pub access_flags: u32,
    /// Class flags to help speed up visiting object references.
    pub class_flags: u32,
    /// Total size of the Class instance; used when allocating storage on GC heap.
    pub class_size: u32,
    /// TID used to check for recursive <clinit> invocation.
    pub clinit_thread_id: u32,
    /// ClassDef index in dex file, -1 if no class definition such as an array.
    pub dex_class_def_idx: i32,
    /// Type index in dex file.
    pub dex_type_idx: i32,
    /// Number of instance fields that are object refs.
    pub num_reference_instance_fields: u32,
    /// Number of static fields that are object refs.
    pub num_reference_static_fields: u32,
    /// Total object size.
    pub object_size: u32,
    /// Aligned object size for allocation fast-path.
    pub object_size_alloc_fast_path: u32,
    /// The lower 16 bits contains a Primitive::Type value. The upper 16
    /// bits contains the size shift of the primitive type.
    pub primitive_type: u32,
    /// Bitmap of offsets of ifields.
    pub reference_instance_offsets: u32,
    /// Subtype check bits and class status.
    pub status: u32,
    /// The offset of the first virtual method that is copied from an interface.
    pub copied_methods_offset: u16,
    /// The offset of the first declared virtual methods in the methods array.
    pub virtual_methods_offset: u16,
}

/// The end of the embedded vtable (and of the instance fields when there is none): the
/// vtable length word after the instance fields, aligned to a pointer, then the IMT pointer
/// and one pointer per vtable entry.
pub open spec fn vtable_end_spec(has_embedded_vtable: bool, num_vtable_entries: int, ptr_size: int) -> int {
    if has_embedded_vtable {
        align_up_spec(SIZE_OF_CLASS + 4, ptr_size) + ptr_size + num_vtable_entries * ptr_size
    } else {
        SIZE_OF_CLASS as int
    }
}

/// The padding before the 64-bit statics when they would start at `offset`.
pub open spec fn static_gap_spec(offset: int, num_64bit_static_fields: int) -> int {
    if offset % 8 != 0 && num_64bit_static_fields > 0 {
        8 - offset % 8
    } else {
        0
    }
}

/// How many 32-bit, 16-bit and 8-bit statics are moved into a gap of `gap` bytes, the widest
/// first, each kind as many as fit in what the wider ones left.
pub open spec fn moved_into_gap(gap: int, n8: int, n16: int, n32: int) -> (int, int, int) {
    let moved_32 = min(gap / 4, n32);
    let moved_16 = min((gap - 4 * moved_32) / 2, n16);
    let moved_8 = min(gap - 4 * moved_32 - 2 * moved_16, n8);
    (moved_8, moved_16, moved_32)
}

/// The size of a java.lang.Class instance with the given embedded tables and static fields,
/// laid out as ART lays them out: the embedded vtable after the instance fields, then the
/// reference statics, then the primitive statics from the widest to the narrowest (narrower
/// ones moved forward to fill the padding before the 64-bit ones), then the reference bitmap.
pub open spec fn class_size_spec(
    has_embedded_vtable: bool,
    num_vtable_entries: int,
    num_8bit_static_fields: int,
    num_16bit_static_fields: int,
    num_32bit_static_fields: int,
    num_64bit_static_fields: int,
    num_ref_static_fields: int,
    num_ref_bitmap_entries: int,
    ptr_size: int,
) -> int {
    let with_refs = vtable_end_spec(has_embedded_vtable, num_vtable_entries, ptr_size)
        + num_ref_static_fields * 4;
    let gap = static_gap_spec(with_refs, num_64bit_static_fields);
    let (moved_8, moved_16, moved_32) = moved_into_gap(
        gap,
        num_8bit_static_fields,
        num_16bit_static_fields,
        num_32bit_static_fields,
    );
    let with_statics = with_refs + gap + (num_8bit_static_fields - moved_8) + 2 * (
    num_16bit_static_fields - moved_16) + 4 * (num_32bit_static_fields - moved_32) + 8
        * num_64bit_static_fields;
    if num_ref_bitmap_entries > 0 {
        align_up_spec(with_statics, 4) + 4 * num_ref_bitmap_entries
    } else {
        with_statics
    }
}

/// Rounding up never decreases a value and adds less than the alignment.
proof fn lemma_align_up_bounds(val: int, align: int)
    requires
        align > 0,
    ensures
        val <= align_up_spec(val, align) < val + align,
{
    crate::conversions::lemma_align_up_is_least_multiple(val, align);
}

#[allow(non_upper_case_globals)]
impl Class {
    /// Normal instance with at least one ref field other than the class.
    pub const kClassFlagNormal: u32 = 0x00000000;
    /// Only normal objects which have no reference fields, e.g. string or primitive array or normal
    /// class instance with no fields other than klass.
    pub const kClassFlagNoReferenceFields: u32 = 0x00000001;
    /// Class is java.lang.String.class.
    pub const kClassFlagString: u32 = 0x00000004;
    /// Class is an object array class.
    pub const kClassFlagObjectArray: u32 = 0x00000008;
    /// Class is java.lang.Class.class.
    pub const kClassFlagClass: u32 = 0x00000010;
    /// Class is ClassLoader or one of its subclasses.
    pub const kClassFlagClassLoader: u32 = 0x00000020;
    /// Class is DexCache.
    pub const kClassFlagDexCache: u32 = 0x00000040;
    /// Class is a soft/weak/phantom class.
    pub const kClassFlagSoftReference: u32 = 0x00000080;
    /// Class is a weak reference class.
    pub const kClassFlagWeakReference: u32 = 0x00000100;
    /// Class is a finalizer reference class.
    pub const kClassFlagFinalizerReference: u32 = 0x00000200;
    /// Class is the phantom reference class.
    pub const kClassFlagPhantomReference: u32 = 0x00000400;
    /// Class is a record class. See doc at java.lang.Class#isRecord().
    pub const kClassFlagRecord: u32 = 0x00000800;
    /// Class is a primitive array class.
    pub const kClassFlagPrimitiveArray: u32 = 0x00001000;
    /// The most significant 2 bits are used to store the component size shift
    /// for arrays (both primitive and object).
    pub const kArrayComponentSizeShiftShift: u32 = 30;
    /// Combination of flags to figure out if the class is either the weak/soft/phantom/finalizer
    /// reference class.
    pub const kClassFlagReference: u32 = 0x00000780;
    /// Interface
    pub const kAccInterface: u32 = 0x0200;
    /// Abstract
    pub const kAccAbstract: u32 = 0x0400;
    /// 'reference_instance_offsets' may contain up to 31 reference offsets. If
    /// more bits are required, then we set the most-significant bit and store the
    /// number of 32-bit bitmap entries required in the remaining bits. All the
    /// required bitmap entries after stored after static fields (at the end of the class).
    pub const kVisitReferencesSlowpathShift: u32 = 31;
    /// Mask to get the slow path flag.
    pub const kVisitReferencesSlowpathMask: u32 = 0x8000_0000;
    /// Shift primitive type by kPrimitiveTypeSizeShiftShift to get the component type size shift
    /// Used for computing array size as follows:
    /// array_bytes = header_size + (elements << (primitive_type >> kPrimitiveTypeSizeShiftShift))
    pub const kPrimitiveTypeSizeShiftShift: u32 = 16;
    /// Mask to get the primitive type
    pub const kPrimitiveTypeMask: u32 = 0xffff;

    /// The low 16 bits of `primitive_type` name a primitive type, and the high 16 bits hold
    /// the component size shift of that type.
    pub open spec fn has_valid_primitive_type(self) -> bool {
        &&& self.primitive_type & 0xffffu32 < 10
        &&& self.primitive_type >> 16u32 == ArtPrimitive::size_shift(
            ArtPrimitive::of_code(self.primitive_type & 0xffffu32),
        )
    }

    /// Is the Class the java.lang.Class class? `address` is the address of this Class;
    /// java.lang.Class is the one class that is its own class.
    #[verifier::allow_in_spec]
    pub fn is_class_class(&self, address: usize) -> bool
        returns
            address == self.header.get_class().reference,
    {
        let java_lang_class = self.header.get_class();
        address == java_lang_class.reference as usize
    }

    /// Is the Class the java.lang.String class?
    #[verifier::allow_in_spec]
    pub fn is_string_class(&self) -> bool
        returns
            self.class_flags & Class::kClassFlagString != 0,
    {
        self.class_flags & Class::kClassFlagString != 0
    }

    /// Is the Class the java.lang.ClassLoader or one of its subclasses?
    #[verifier::allow_in_spec]
    pub fn is_classloader_class(&self) -> bool
        returns
            self.class_flags & Class::kClassFlagClassLoader != 0,
    {
        self.class_flags & Class::kClassFlagClassLoader != 0
    }

    /// Is the Class an array class?
    #[verifier::allow_in_spec]
    pub fn is_array_class(&self) -> bool
        returns
            self.component_type.reference != 0,
    {
        self.component_type.reference != 0
    }

    /// Is the Class a DexCache class?
    #[verifier::allow_in_spec]
    pub fn is_dexcache_class(&self) -> bool
        returns
            self.class_flags & Class::kClassFlagDexCache != 0,
    {
        self.class_flags & Class::kClassFlagDexCache != 0
    }

    /// Is the Class a type of java.lang.Reference class?
    #[verifier::allow_in_spec]
    pub fn is_type_of_reference_class(&self) -> bool
        returns
            self.class_flags & Class::kClassFlagReference != 0,
    {
        self.class_flags & Class::kClassFlagReference != 0
    }

    /// Is the Class a variable sized class? `address` is the address of this Class.
    #[verifier::allow_in_spec]
    pub fn is_variable_size(&self, address: usize) -> bool
        returns
            self.is_class_class(address) || self.is_array_class() || self.is_string_class(),
    {
        self.is_class_class(address) || self.is_array_class() || self.is_string_class()
    }

    /// Is the Class an abstract class?
    #[verifier::allow_in_spec]
    pub fn is_abstract(&self) -> bool
        returns
            self.access_flags & Class::kAccAbstract != 0,
    {
        self.access_flags & Class::kAccAbstract != 0
    }

    /// Is the Class an interface?
    #[verifier::allow_in_spec]
    pub fn is_interface(&self) -> bool
        returns
            self.access_flags & Class::kAccInterface != 0,
    {
        self.access_flags & Class::kAccInterface != 0
    }

    /// Get the primitive type of the Class.
    pub fn get_primitive_type(&self) -> (r: ArtPrimitive)
        requires
            self.has_valid_primitive_type(),
        ensures
            r.code() == self.primitive_type & 0xffffu32,
            r == ArtPrimitive::of_code(self.primitive_type & 0xffffu32),
            ArtPrimitive::size_shift(r) == self.primitive_type >> 16u32,
    {
        ArtPrimitive::from_u32(self.primitive_type & Class::kPrimitiveTypeMask)
    }

    /// Is the Class a primitive class?
    #[verifier::allow_in_spec]
    pub fn is_primitive(&self) -> bool
        requires
            self.has_valid_primitive_type(),
        returns
            self.primitive_type & 0xffffu32 != 0,
    {
        let primitive = self.get_primitive_type();
        match primitive {
            ArtPrimitive::Not => false,
            _ => true,
        }
    }

    /// Can the Class be instantiated?
    #[verifier::allow_in_spec]
    pub fn is_instantiable(&self) -> bool
        requires
            self.has_valid_primitive_type(),
        returns
            (!self.is_primitive() && !self.is_interface() && !self.is_abstract()) || (
            self.is_abstract() && self.is_array_class()),
    {
        (!self.is_primitive() && !self.is_interface() && !self.is_abstract()) || (
        self.is_abstract() && self.is_array_class())
    }

    /// Check that the Class should have an embedded vtable.
    #[verifier::allow_in_spec]
    pub fn should_have_embedded_vtable(&self) -> bool
        requires
            self.has_valid_primitive_type(),
        returns
            self.is_instantiable(),
    {
        self.is_instantiable()
    }

    /// Is the Class instantiable and not an array?
    #[verifier::allow_in_spec]
    pub fn is_instantiable_non_array(&self) -> bool
        requires
            self.has_valid_primitive_type(),
        returns
            !self.is_primitive() && !self.is_interface() && !self.is_abstract()
                && !self.is_array_class(),
    {
        !self.is_primitive() && !self.is_interface() && !self.is_abstract()
            && !self.is_array_class()
    }

    /// Is the Class an object array class? `component_type` is the class that
    /// `self.component_type` refers to.
    #[verifier::allow_in_spec]
    pub fn is_object_array_class(&self, component_type: &Class) -> bool
        requires
            self.is_array_class() ==> component_type.has_valid_primitive_type(),
        returns
            self.is_array_class() && !component_type.is_primitive(),
    {
        self.is_array_class() && !component_type.is_primitive()
    }

    /// The status that the top four bits of `status` hold.
    pub open spec fn status_code(self) -> u32 {
        self.status >> 28u32
    }

    /// Get the status of the Class.
    pub fn get_status(&self) -> (r: ClassStatus)
        ensures
            r.code() == self.status_code(),
    {
        let status = self.status;
        assert(status >> 28u32 < 16) by (bit_vector);
        ClassStatus::from_u32(status >> (32 - 4))
    }

    /// Returns true if this class is the placeholder and should retire and
    /// be replaced with a class with the right size for embedded imt/vtable.
    #[verifier::allow_in_spec]
    pub fn is_temp(&self) -> bool
        requires
            self.has_valid_primitive_type(),
        returns
            self.status_code() < 6 && self.status_code() != 2 && self.should_have_embedded_vtable(),
    {
        let status = self.get_status();
        status.value() < ClassStatus::Resolving.value() && status.value()
            != ClassStatus::ErrorResolved.value() && self.should_have_embedded_vtable()
    }

    /// Is the Class resolved?
    #[verifier::allow_in_spec]
    pub fn is_resolved(&self) -> bool
        returns
            self.status_code() >= 7 || self.status_code() == 2,
    {
        let status = self.get_status();
        status.value() >= ClassStatus::Resolved.value() || status.value()
            == ClassStatus::ErrorResolved.value()
    }

    /// Is the Class erroneous?
    #[verifier::allow_in_spec]
    pub fn is_erroneous(&self) -> bool
        returns
            self.status_code() == 2 || self.status_code() == 3,
    {
        let status = self.get_status();
        status.value() == ClassStatus::ErrorResolved.value() || status.value()
            == ClassStatus::ErrorUnresolved.value()
    }

    /// Check that the Class is a normal class: not variable sized, not java.lang.Class,
    /// String or a ClassLoader, and not an array. `address` is the address of this Class.
    /// Returns whether the check passes; with debug assertions on, the scanner stops on a
    /// normal-flagged class for which it fails.
    pub fn check_normal_class(&self, address: usize) -> (r: bool)
        ensures
            r == (!self.is_variable_size(address) && !self.is_class_class(address)
                && !self.is_string_class() && !self.is_classloader_class()
                && !self.is_array_class()),
    {
        !self.is_variable_size(address) && !self.is_class_class(address) && !self.is_string_class()
            && !self.is_classloader_class() && !self.is_array_class()
    }

    /// The number of reference instance fields declared by `classes`, the first `n` classes
    /// of a superclass chain.
    pub open spec fn chain_reference_fields(classes: Seq<Class>, n: int) -> int
        decreases n,
    {
        if n <= 0 {
            0
        } else {
            Class::chain_reference_fields(classes, n - 1) + classes[n - 1].num_reference_instance_fields
        }
    }

    /// Check that the Class has no reference fields: it is neither java.lang.Class nor an
    /// object array, and (unless it is java.lang.String, which keeps instance fields for
    /// reflection only) the only reference field along its superclass chain is the object's
    /// class. `address` is the address of this Class, `component_type` the class that
    /// `self.component_type` refers to, and `super_classes` its superclasses, nearest first,
    /// up to the first one without a superclass. Returns whether the check passes; with
    /// debug assertions on, the scanner stops on a class without reference fields for which
    /// it fails.
    pub fn check_no_reference_fields(
        &self,
        address: usize,
        component_type: &Class,
        super_classes: &Vec<Class>,
    ) -> (r: bool)
        requires
            self.is_array_class() ==> component_type.has_valid_primitive_type(),
            Class::chain_reference_fields(seq![*self].add(super_classes@), (super_classes@.len() + 1) as int)
                <= usize::MAX,
        ensures
            r == (!self.is_class_class(address) && !self.is_object_array_class(component_type) && (
            self.is_string_class() || Class::chain_reference_fields(
                seq![*self].add(super_classes@),
                (super_classes@.len() + 1) as int,
            ) == 1)),
    {
        if self.is_class_class(address) || self.is_object_array_class(component_type) {
            return false;
        }
        if self.is_string_class() {
            return true;
        }
        let ghost chain = seq![*self].add(super_classes@);
        let mut total_reference_instance_fields: usize = self.num_reference_instance_fields
            as usize;
        let mut i: usize = 0;
        proof {
            assert(Class::chain_reference_fields(chain, 0) == 0);
            assert(chain[0] == *self);
            Class::lemma_chain_monotone(chain, 1, chain.len() as int);
        }
        while i < super_classes.len()
            invariant
                chain == seq![*self].add(super_classes@),
                0 <= i <= super_classes@.len(),
                total_reference_instance_fields == Class::chain_reference_fields(chain, i + 1),
                Class::chain_reference_fields(chain, chain.len() as int) <= usize::MAX,
            decreases super_classes@.len() - i,
        {
            proof {
                assert(chain[i + 1] == super_classes@[i as int]);
                Class::lemma_chain_monotone(chain, i + 2, chain.len() as int);
            }
            total_reference_instance_fields = total_reference_instance_fields
                + super_classes[i].num_reference_instance_fields as usize;
            i = i + 1;
        }
        total_reference_instance_fields == 1
    }

    /// Counting more classes of a chain never gives fewer reference fields.
    pub proof fn lemma_chain_monotone(classes: Seq<Class>, m: int, n: int)
        requires
            0 <= m <= n,
        ensures
            Class::chain_reference_fields(classes, m) <= Class::chain_reference_fields(classes, n),
        decreases n - m,
    {
        if m < n {
            Class::lemma_chain_monotone(classes, m, n - 1);
        }
    }

    /// Get the component size shift of the Class. `component_type` is the class that
    /// `self.component_type` refers to.
    pub fn get_component_size_shift(&self, component_type: &Class) -> (r: usize)
        requires
            component_type.has_valid_primitive_type(),
        ensures
            r == component_type.primitive_type >> 16u32,
            r == ArtPrimitive::size_shift(
                ArtPrimitive::of_code(component_type.primitive_type & 0xffffu32),
            ),
    {
        component_type.get_primitive_type_size_shift()
    }

    /// Get the size shift of the primitive type of the Class: the high 16 bits of
    /// `primitive_type`, which agree with the type that the low 16 bits name.
    pub fn get_primitive_type_size_shift(&self) -> (r: usize)
        requires
            self.has_valid_primitive_type(),
        ensures
            r == self.primitive_type >> 16u32,
            r == ArtPrimitive::size_shift(ArtPrimitive::of_code(self.primitive_type & 0xffffu32)),
    {
        (self.primitive_type >> Class::kPrimitiveTypeSizeShiftShift) as usize
    }

    /// Get the reference_instance_offsets field of the Class.
    pub fn get_reference_instance_offsets(&self) -> (r: u32)
        ensures
            r == self.reference_instance_offsets,
    {
        self.reference_instance_offsets
    }

    /// The offset of the first reference static field of the Class, for a runtime whose
    /// pointers are `ptr_size` bytes and a class whose embedded vtable has
    /// `embedded_vtable_length` entries.
    pub open spec fn first_reference_static_fields_offset_spec(
        self,
        ptr_size: int,
        embedded_vtable_length: int,
    ) -> int {
        if self.should_have_embedded_vtable() {
            class_size_spec(true, embedded_vtable_length, 0, 0, 0, 0, 0, 0, ptr_size)
        } else {
            SIZE_OF_CLASS as int
        }
    }

    /// Get the offset of the first reference static field of the Class.
    /// `embedded_vtable_length` is the length of the embedded vtable that follows the Class.
    pub fn get_first_reference_static_fields_offset(
        &self,
        ptr_size: usize,
        embedded_vtable_length: u32,
    ) -> (r: usize)
        requires
            self.has_valid_primitive_type(),
            self.should_have_embedded_vtable() ==> is_pow2(ptr_size as int),
            self.should_have_embedded_vtable() ==> class_size_spec(
                true,
                embedded_vtable_length as int,
                0,
                0,
                0,
                0,
                0,
                0,
                ptr_size as int,
            ) <= usize::MAX,
        ensures
            r == self.first_reference_static_fields_offset_spec(
                ptr_size as int,
                embedded_vtable_length as int,
            ),
    {
        if self.should_have_embedded_vtable() {
            Class::compute_class_size(true, embedded_vtable_length, 0, 0, 0, 0, 0, 0, ptr_size)
        } else {
            SIZE_OF_CLASS
        }
    }

    /// Get the object size from the Class.
    pub fn get_object_size(&self) -> (r: usize)
        ensures
            r == self.object_size,
    {
        self.object_size as usize
    }

    /// The end of the embedded vtable, or of the instance fields when there is none.
    fn vtable_end(has_embedded_vtable: bool, num_vtable_entries: u32, ptr_size: usize) -> (r: usize)
        requires
            has_embedded_vtable ==> is_pow2(ptr_size as int),
            vtable_end_spec(has_embedded_vtable, num_vtable_entries as int, ptr_size as int)
                <= usize::MAX,
        ensures
            r == vtable_end_spec(has_embedded_vtable, num_vtable_entries as int, ptr_size as int),
    {
        if has_embedded_vtable {
            proof {
                crate::conversions::lemma_pow2_is_positive(ptr_size as int);
                lemma_align_up_bounds(SIZE_OF_CLASS + 4, ptr_size as int);
                assert(0 <= num_vtable_entries * ptr_size) by (nonlinear_arith)
                    requires ptr_size >= 0, num_vtable_entries >= 0;
            }
            let size = raw_align_up(SIZE_OF_CLASS + 4, ptr_size);
            // Space for the pointer to the IMT and for the vtable entries.
            size + ptr_size + num_vtable_entries as usize * ptr_size
        } else {
            SIZE_OF_CLASS
        }
    }

    /// Move narrower statics forward into a gap of `gap` bytes before the 64-bit ones;
    /// returns how many 8-bit, 16-bit and 32-bit statics are left to place after them.
    fn shuffle_into_gap(gap: u32, num_8: u32, num_16: u32, num_32: u32) -> (r: (u32, u32, u32))
        requires
            gap < 8,
        ensures
            ({
                let (moved_8, moved_16, moved_32) = moved_into_gap(
                    gap as int,
                    num_8 as int,
                    num_16 as int,
                    num_32 as int,
                );
                r == ((num_8 - moved_8) as u32, (num_16 - moved_16) as u32, (num_32 - moved_32) as u32)
            }),
    {
        let mut gap = gap;
        let mut num_8 = num_8;
        let mut num_16 = num_16;
        let mut num_32 = num_32;
        let ghost g0 = gap as int;
        let ghost n32 = num_32 as int;
        let ghost n16 = num_16 as int;
        let ghost n8 = num_8 as int;
        // Shuffle 4-byte fields forward.
        while gap >= 4 && num_32 != 0
            invariant
                0 <= gap <= g0 < 8,
                (g0 - gap) % 4 == 0,
                num_32 == n32 - (g0 - gap) / 4,
                (g0 - gap) / 4 <= min(g0 / 4, n32),
            decreases gap,
        {
            num_32 = num_32 - 1;
            gap = gap - 4;
        }
        let ghost g1 = gap as int;
        assert(g0 - g1 == 4 * min(g0 / 4, n32));
        // Shuffle 2-byte fields forward.
        while gap >= 2 && num_16 != 0
            invariant
                0 <= gap <= g1 < 8,
                (g1 - gap) % 2 == 0,
                num_16 == n16 - (g1 - gap) / 2,
                (g1 - gap) / 2 <= min(g1 / 2, n16),
            decreases gap,
        {
            num_16 = num_16 - 1;
            gap = gap - 2;
        }
        let ghost g2 = gap as int;
        assert(g1 - g2 == 2 * min(g1 / 2, n16));
        // Shuffle byte fields forward.
        while gap >= 1 && num_8 != 0
            invariant
                0 <= gap <= g2 < 8,
                num_8 == n8 - (g2 - gap),
                g2 - gap <= min(g2, n8),
            decreases gap,
        {
            num_8 = num_8 - 1;
            gap = gap - 1;
        }
        assert(g2 - gap == min(g2, n8));
        (num_8, num_16, num_32)
    }

    /// The size of a java.lang.Class instance with the given embedded vtable, static
    /// fields and reference bitmap, for pointers of `ptr_size` bytes.
    #[verifier::rlimit(60)]
    pub fn compute_class_size(
        has_embedded_vtable: bool,
        num_vtable_entries: u32,
        num_8bit_static_fields: u32,
        num_16bit_static_fields: u32,
        num_32bit_static_fields: u32,
        num_64bit_static_fields: u32,
        num_ref_static_fields: u32,
        num_ref_bitmap_entries: u32,
        ptr_size: usize,
    ) -> (r: usize)
        requires
            has_embedded_vtable ==> is_pow2(ptr_size as int),
            class_size_spec(
                has_embedded_vtable,
                num_vtable_entries as int,
                num_8bit_static_fields as int,
                num_16bit_static_fields as int,
                num_32bit_static_fields as int,
                num_64bit_static_fields as int,
                num_ref_static_fields as int,
                num_ref_bitmap_entries as int,
                ptr_size as int,
            ) <= usize::MAX,
        ensures
            r == class_size_spec(
                has_embedded_vtable,
                num_vtable_entries as int,
                num_8bit_static_fields as int,
                num_16bit_static_fields as int,
                num_32bit_static_fields as int,
                num_64bit_static_fields as int,
                num_ref_static_fields as int,
                num_ref_bitmap_entries as int,
                ptr_size as int,
            ),
    {
        proof {
            if has_embedded_vtable {
                crate::conversions::lemma_pow2_is_positive(ptr_size as int);
            }
            Class::lemma_class_size_bounds(
                has_embedded_vtable,
                num_vtable_entries as int,
                num_8bit_static_fields as int,
                num_16bit_static_fields as int,
                num_32bit_static_fields as int,
                num_64bit_static_fields as int,
                num_ref_static_fields as int,
                num_ref_bitmap_entries as int,
                ptr_size as int,
            );
            lemma_small_pow2();
        }
        // Space used by java.lang.Class, its instance fields and the embedded vtable.
        let mut size = Class::vtable_end(has_embedded_vtable, num_vtable_entries, ptr_size);
        // Space used by reference statics.
        size = size + num_ref_static_fields as usize * ART_HEAP_REFERENCE_SIZE;
        let ghost with_refs = size as int;
        let mut num_8 = num_8bit_static_fields;
        let mut num_16 = num_16bit_static_fields;
        let mut num_32 = num_32bit_static_fields;
        if !raw_is_aligned(size, 8) && num_64bit_static_fields > 0 {
            assert(size & 7 == size % 8) by (bit_vector);
            let gap: u32 = 8 - (size & 0x7) as u32;
            // The gap will be padded.
            size = size + gap as usize;
            let (left_8, left_16, left_32) = Class::shuffle_into_gap(gap, num_8, num_16, num_32);
            num_8 = left_8;
            num_16 = left_16;
            num_32 = left_32;
        }
        assert(size == with_refs + static_gap_spec(with_refs, num_64bit_static_fields as int));
        // Guaranteed to be at least 4 byte aligned. No need for further alignments.
        // Space used for primitive static fields.
        size = size + num_8 as usize + num_16 as usize * 2 + num_32 as usize * 4
            + num_64bit_static_fields as usize * 8;
        // Space used by reference-offset bitmap.
        if num_ref_bitmap_entries > 0 {
            size = raw_align_up(size, 4);
            size = size + num_ref_bitmap_entries as usize * 4;
        }
        size
    }

    /// Every stage of the class size computation stays within the final size.
    proof fn lemma_class_size_bounds(
        has_embedded_vtable: bool,
        num_vtable_entries: int,
        n8: int,
        n16: int,
        n32: int,
        n64: int,
        nref: int,
        nbitmap: int,
        ptr_size: int,
    )
        requires
            has_embedded_vtable ==> ptr_size > 0,
            num_vtable_entries >= 0,
            n8 >= 0,
            n16 >= 0,
            n32 >= 0,
            n64 >= 0,
            nref >= 0,
            nbitmap >= 0,
        ensures
            ({
                let with_vtable = vtable_end_spec(has_embedded_vtable, num_vtable_entries, ptr_size);
                let with_refs = with_vtable + nref * 4;
                let gap = static_gap_spec(with_refs, n64);
                let (m8, m16, m32) = moved_into_gap(gap, n8, n16, n32);
                let total = class_size_spec(
                    has_embedded_vtable,
                    num_vtable_entries,
                    n8,
                    n16,
                    n32,
                    n64,
                    nref,
                    nbitmap,
                    ptr_size,
                );
                &&& SIZE_OF_CLASS <= with_vtable <= with_refs
                &&& 0 <= m8 <= n8 && 0 <= m16 <= n16 && 0 <= m32 <= n32
                &&& with_refs + gap + 8 * n64 + 4 * (n32 - m32) + 2 * (n16 - m16) + (n8 - m8) <= total
                &&& has_embedded_vtable ==> SIZE_OF_CLASS + 4 + ptr_size - 1 <= with_vtable
                &&& nbitmap > 0 ==> with_refs + gap + 8 * n64 + 4 * (n32 - m32) + 2 * (n16 - m16) + (n8 - m8) + 3 <= total
            }),
    {
        if has_embedded_vtable {
            lemma_align_up_bounds(SIZE_OF_CLASS + 4, ptr_size);
            assert(0 <= num_vtable_entries * ptr_size) by (nonlinear_arith)
                requires ptr_size >= 0, num_vtable_entries >= 0;
        }
        let with_vtable = vtable_end_spec(has_embedded_vtable, num_vtable_entries, ptr_size);
        let with_refs = with_vtable + nref * 4;
        let gap = static_gap_spec(with_refs, n64);
        let (m8, m16, m32) = moved_into_gap(gap, n8, n16, n32);
        let with_statics = with_refs + gap + (n8 - m8) + 2 * (n16 - m16) + 4 * (n32 - m32) + 8 * n64;
        if nbitmap > 0 {
            lemma_align_up_bounds(with_statics, 4);
        }
    }
}


/// Rust mirror of an ART Array
#[derive(Clone, Copy, PartialEq, Eq, Debug)]
pub struct Array {
    /// Object header
    pub header: Object,
    /// The length of the array
    pub length: i32,
    /// The start of the array payload
    pub first_element: u32,
}

/// The size in bytes of an array of `length` components of 2^`shift` bytes each.
pub open spec fn array_size_spec(length: int, shift: nat) -> int {
    align_up_spec(ARRAY_FIRST_ELEMENT_OFFSET as int, vstd::arithmetic::power2::pow2(shift) as int)
        + length * vstd::arithmetic::power2::pow2(shift)
}

impl Array {
    /// Get the offset to the payload of the array
    pub fn data_offset(&self, component_size: usize) -> (r: usize)
        requires
            is_pow2(component_size as int),
            ARRAY_FIRST_ELEMENT_OFFSET + component_size - 1 <= usize::MAX,
        ensures
            r == align_up_spec(ARRAY_FIRST_ELEMENT_OFFSET as int, component_size as int),
    {
        raw_align_up(ARRAY_FIRST_ELEMENT_OFFSET, component_size)
    }

    /// Get the component size shift of the array. `component_type` is the component class
    /// of the array's class.
    pub fn get_component_size_shift(&self, component_type: &Class) -> (r: usize)
        requires
            component_type.has_valid_primitive_type(),
        ensures
            r == component_type.primitive_type >> 16u32,
            r == ArtPrimitive::size_shift(
                ArtPrimitive::of_code(component_type.primitive_type & 0xffffu32),
            ),
    {
        component_type.get_primitive_type_size_shift()
    }

    /// Get the size of the array. `component_type` is the component class of the array's
    /// class.
    pub fn size_of(&self, component_type: &Class) -> (r: usize)
        requires
            component_type.has_valid_primitive_type(),
            self.length >= 0,
            array_size_spec(self.length as int, (component_type.primitive_type >> 16u32) as nat)
                <= usize::MAX,
        ensures
            r == array_size_spec(
                self.length as int,
                (component_type.primitive_type >> 16u32) as nat,
            ),
    {
        let component_size_shift = self.get_component_size_shift(component_type);
        let component_count = self.length as usize;
        let ghost p = vstd::arithmetic::power2::pow2(component_size_shift as nat);
        proof {
            vstd::arithmetic::power2::lemma2_to64();
            vstd::arithmetic::power2::lemma2_to64_rest();
            let top = (usize::BITS - 1) as nat;
            assert(ARRAY_FIRST_ELEMENT_OFFSET + vstd::arithmetic::power2::pow2(top) <= usize::MAX);
            if component_size_shift < top {
                vstd::arithmetic::power2::lemma_pow2_strictly_increases(
                    component_size_shift as nat,
                    top,
                );
            }
            assert(p <= vstd::arithmetic::power2::pow2(top));
            vstd::bits::lemma_usize_pow2_no_overflow(component_size_shift as nat);
            vstd::bits::lemma_usize_shl_is_mul(1, component_size_shift);
            vstd::arithmetic::power2::lemma_pow2_pos(component_size_shift as nat);
            assert(is_pow2(p as int));
            assert(ARRAY_FIRST_ELEMENT_OFFSET <= align_up_spec(ARRAY_FIRST_ELEMENT_OFFSET as int, p as int)) by {
                lemma_align_up_bounds(ARRAY_FIRST_ELEMENT_OFFSET as int, p as int);
            }
            lemma_align_up_bounds(ARRAY_FIRST_ELEMENT_OFFSET as int, p as int);
            assert(0 <= component_count * p) by (nonlinear_arith)
                requires component_count >= 0, p >= 0;
            assert(p <= component_count * p + p) by (nonlinear_arith)
                requires component_count >= 0, p >= 0;
            assert(component_count * p <= usize::MAX);
            vstd::bits::lemma_usize_shl_is_mul(component_count, component_size_shift);
        }
        let header_size = self.data_offset(1usize << component_size_shift);
        let data_size = component_count << component_size_shift;
        header_size + data_size
    }
}

/// Rust mirror of an ART ObjectArray
pub struct ObjectArray<T> {
    /// The embedded array
    pub array: Array,
    /// Phantom data
    pub phantom: PhantomData<T>,
}

impl<T> ObjectArray<T> {
    /// View `array` as an array of references to objects of type `T`.
    pub fn new(array: Array) -> (r: Self)
        ensures
            r.array == array,
    {
        ObjectArray { array, phantom: PhantomData }
    }

    /// Get the offset of an element in the array
    pub fn offset_of_element(&self, index: usize) -> (r: usize)
        requires
            ARRAY_FIRST_ELEMENT_OFFSET + index * ART_HEAP_REFERENCE_SIZE <= usize::MAX,
        ensures
            r == ARRAY_FIRST_ELEMENT_OFFSET + index * ART_HEAP_REFERENCE_SIZE,
    {
        proof {
            lemma_small_pow2();
        }
        let offset = self.array.data_offset(ART_HEAP_REFERENCE_SIZE);
        assert(offset == ARRAY_FIRST_ELEMENT_OFFSET) by {
            reveal(align_up_spec);
        }
        offset + index * ART_HEAP_REFERENCE_SIZE
    }
}

/// Rust mirror of a java.lang.String
#[derive(Clone, Copy, PartialEq, Eq, Debug)]
pub struct ArtString {
    /// Object header
    pub header: Object,
    /// Count of the string: its length shifted left by one, with the low bit clear when
    /// the characters are compressed to one byte each.
    pub count: i32,
    /// Hash code of the string
    pub hash_code: u32,
}

/// The size in bytes of a string with the given `count` field.
pub open spec fn string_size_spec(count: int) -> int {
    let length = count / 2;
    let char_size: int = if count % 2 == 0 { 1 } else { 2 };
    align_up_spec(SIZE_OF_ART_STRING + char_size * length, 8)
}

impl ArtString {
    /// Is the string compressed?
    #[verifier::allow_in_spec]
    pub fn is_compressed(&self) -> bool
        returns
            self.count % 2 == 0,
    {
        let count = self.count;
        assert((count & 1i32 == 0i32) == (count % 2 == 0)) by (bit_vector);
        self.count & 0b1 == 0b0
    }

    /// Get the length of the string.
    #[verifier::allow_in_spec]
    pub fn get_length(&self) -> i32
        returns
            (self.count / 2) as i32,
    {
        let count = self.count;
        assert(count >> 1i32 == count / 2) by (bit_vector);
        self.count >> 1
    }

    /// Get the size of the string.
    pub fn size_of(&self) -> (r: usize)
        requires
            self.count >= 0,
            string_size_spec(self.count as int) + 7 <= usize::MAX,
        ensures
            r == string_size_spec(self.count as int),
    {
        let mut size = SIZE_OF_ART_STRING;
        let length = self.get_length();
        if self.is_compressed() {
            size = size + length as usize;
        } else {
            size = size + 2 * (length as usize);
        }
        proof {
            lemma_small_pow2();
        }
        raw_align_up(size, Art::MIN_ALIGNMENT)
    }
}

/// Rust mirror of java.lang.Reference
#[derive(Clone, Copy, PartialEq, Eq, Debug)]
pub struct Reference {
    /// Object header
    pub header: Object,
    /// Circular linked list of pending references (a `Reference`).
    pub pending_next: ArtHeapReference,
    /// Circular linked list of enqueued references.
    pub queue: ArtHeapReference,
    /// Next reference in the queue (a `Reference`).
    pub queue_next: ArtHeapReference,
    /// The object to which this reference refers to.
    pub referent: ArtHeapReference,
}

/// Rust mirror of java.lang.DexCache
#[derive(Clone, Copy, PartialEq, Eq, Debug)]
pub struct DexCache {
    /// Object header
    pub header: Object,
    /// The ClassLoader that this DexCache is associated with
    pub class_loader: ArtHeapReference,
    /// The location of the dex file (a String)
    pub location: ArtHeapReference,
    /// const DexFile*
    pub dex_file: u64,
    /// Array of call sites
    pub resolved_call_sites: u64,
    /// NativeDexCacheArray holding ArtField's
    pub resolved_fields: u64,
    /// Array of ArtField's
    pub resolved_fields_array: u64,
    /// DexCacheArray holding mirror::MethodType's
    pub resolved_method_types: u64,
    /// Array of mirror::MethodType's
    pub resolved_method_types_array: u64,
    /// NativeDexCacheArray holding ArtMethod's
    pub resolved_methods: u64,
    /// Array of ArtMethod's
    pub resolved_methods_array: u64,
    /// DexCacheArray holding mirror::Class's
    pub resolved_types: u64,
    /// Array of resolved types
    pub resolved_types_array: u64,
    /// DexCacheArray holding mirror::String's
    pub strings: u64,
    /// Array of String's
    pub strings_array: u64,
}

/// Rust mirror of java.lang.ClassLoader
#[derive(Clone, Copy, PartialEq, Eq, Debug)]
pub struct ClassLoader {
    /// Object header
    pub header: Object,
    /// Class loader name (a String).
    pub name: ArtHeapReference,
    /// Packages defined by this class loader.
    pub packages: ArtHeapReference,
    /// The parent class loader for delegation (a `ClassLoader`)
    pub parent: ArtHeapReference,
    /// Proxy cache map.
    pub proxy_cache: ArtHeapReference,
    /// Pointer to the allocator used by the runtime to allocate metadata such as
    /// ArtFields and ArtMethods.
    pub allocator: u64,
    /// Pointer to the class table.
    pub class_table: u64,
}

/// Distinct primitive types have distinct numbers, so `from_u32` and `value` undo each other.
pub proof fn lemma_primitive_code_injective(a: ArtPrimitive, b: ArtPrimitive)
    ensures
        a.code() < 10,
        a.code() == b.code() ==> a == b,
{
}

/// Distinct class statuses have distinct numbers, so `from_u32` and `value` undo each other.
pub proof fn lemma_class_status_code_injective(a: ClassStatus, b: ClassStatus)
    ensures
        a.code() < 16,
        a.code() == b.code() ==> a == b,
{
}

/// The class of an object is a 4-byte aligned reference: the two bits that
/// `Object::get_class` drops are the forwarding bits.
pub proof fn lemma_get_class_aligned(object: Object)
    ensures
        object.get_class().reference % 4 == 0,
        object.get_class().reference <= object.klass.reference,
{
    let w = object.klass.reference;
    assert((w & 0xffff_fffcu32) % 4 == 0 && (w & 0xffff_fffcu32) <= w) by (bit_vector);
}

/// A resolved class that has errors is in the one status for that; a class whose
/// resolution failed is not resolved.
pub proof fn lemma_erroneous_resolved(class: Class)
    ensures
        class.is_erroneous() ==> (class.is_resolved() <==> class.status_code() == 2),
{
}

/// Class layout: when the class has 64-bit static fields, the padding puts them on an 8-byte
/// boundary, and the narrower fields that move forward fit in that padding.
pub proof fn lemma_wide_statics_aligned(
    has_embedded_vtable: bool,
    num_vtable_entries: int,
    n8: int,
    n16: int,
    n32: int,
    n64: int,
    nref: int,
    ptr_size: int,
)
    requires
        num_vtable_entries >= 0,
        n8 >= 0,
        n16 >= 0,
        n32 >= 0,
        nref >= 0,
        n64 > 0,
    ensures
        ({
            let with_refs = vtable_end_spec(has_embedded_vtable, num_vtable_entries, ptr_size)
                + nref * 4;
            let gap = static_gap_spec(with_refs, n64);
            let (m8, m16, m32) = moved_into_gap(gap, n8, n16, n32);
            &&& (with_refs + gap) % 8 == 0
            &&& 0 <= gap < 8
            &&& 0 <= m8 && 0 <= m16 && 0 <= m32
            &&& m8 + 2 * m16 + 4 * m32 <= gap
        }),
{
}

/// An array's size is a whole number of components and covers at least its header.
pub proof fn lemma_array_size(length: int, shift: nat)
    requires
        length >= 0,
    ensures
        array_size_spec(length, shift) >= ARRAY_FIRST_ELEMENT_OFFSET,
        array_size_spec(length, shift) % (vstd::arithmetic::power2::pow2(shift) as int) == 0,
{
    let p = vstd::arithmetic::power2::pow2(shift) as int;
    vstd::arithmetic::power2::lemma_pow2_pos(shift);
    crate::conversions::lemma_align_up_is_least_multiple(ARRAY_FIRST_ELEMENT_OFFSET as int, p);
    let h = align_up_spec(ARRAY_FIRST_ELEMENT_OFFSET as int, p);
    assert(0 <= length * p) by (nonlinear_arith)
        requires length >= 0, p > 0;
    let k = h / p;
    vstd::arithmetic::div_mod::lemma_fundamental_div_mod(h, p);
    assert(h + length * p == (k + length) * p) by (nonlinear_arith)
        requires h == p * k;
    vstd::arithmetic::div_mod::lemma_mod_multiples_basic(k + length, p);
}

/// A string's size is a whole number of minimum alignments and covers at least its header.
pub proof fn lemma_string_size(count: int)
    requires
        count >= 0,
    ensures
        string_size_spec(count) >= SIZE_OF_ART_STRING,
        string_size_spec(count) % 8 == 0,
{
    let length = count / 2;
    let char_size: int = if count % 2 == 0 { 1 } else { 2 };
    assert(0 <= char_size * length) by (nonlinear_arith)
        requires char_size >= 1, length >= 0;
    crate::conversions::lemma_align_up_is_least_multiple(SIZE_OF_ART_STRING + char_size * length, 8);
}

/// What the runtime reads of an object, beyond its header, to size or scan it.
#[derive(Clone, Copy, PartialEq, Eq, Debug)]
pub enum ObjectContents {
    /// An instance of a class whose size and reference fields its class describes.
    Instance,
    /// A java.lang.Class object, with the length of its embedded vtable.
    Class(Class, u32),
    /// An array, with the component class of its class.
    Array(Array, Class),
    /// A java.lang.String.
    ArtString(ArtString),
}

/// The kind of object that an object of class `klass` is, for sizing: the contents that
/// the runtime has to read to size it are of the matching variant.
pub open spec fn contents_match_class(
    object: Object,
    klass: Class,
    contents: ObjectContents,
) -> bool {
    if klass.is_array_class() {
        contents is Array
    } else if klass.is_class_class(object.get_class().reference as usize) {
        contents is Class
    } else if klass.is_string_class() {
        contents is ArtString
    } else {
        true
    }
}

/// The size in bytes of `object`, of class `klass`, with the given contents.
pub open spec fn object_size_spec(object: Object, klass: Class, contents: ObjectContents) -> int {
    match contents {
        ObjectContents::Array(array, component_type) if klass.is_array_class() => array_size_spec(
            array.length as int,
            (component_type.primitive_type >> 16u32) as nat,
        ),
        ObjectContents::Class(class, _) if !klass.is_array_class() && klass.is_class_class(
            object.get_class().reference as usize,
        ) => class.class_size as int,
        ObjectContents::ArtString(string) if !klass.is_array_class() && !klass.is_class_class(
            object.get_class().reference as usize,
        ) && klass.is_string_class() => string_size_spec(string.count as int),
        _ => klass.object_size as int,
    }
}

/// The sizes of arrays and strings that `contents` describes can be computed in a `usize`.
pub open spec fn contents_sizable(contents: ObjectContents) -> bool {
    match contents {
        ObjectContents::Array(array, component_type) => {
            &&& component_type.has_valid_primitive_type()
            &&& array.length >= 0
            &&& array_size_spec(array.length as int, (component_type.primitive_type >> 16u32) as nat)
                <= usize::MAX
        },
        ObjectContents::ArtString(string) => {
            &&& string.count >= 0
            &&& string_size_spec(string.count as int) + 7 <= usize::MAX
        },
        _ => true,
    }
}

/// Get the size of `object`, whose class is `klass` (the class that `object.klass`
/// refers to) and whose contents the runtime read as `contents`. Every object covers at
/// least its header.
pub fn get_object_size(object: &Object, klass: &Class, contents: &ObjectContents) -> (r: usize)
    requires
        contents_match_class(*object, *klass, *contents),
        contents_sizable(*contents),
        object_size_spec(*object, *klass, *contents) >= OBJECT_HEADER_SIZE,
    ensures
        r == object_size_spec(*object, *klass, *contents),
        r >= OBJECT_HEADER_SIZE,
        // A java.lang.Class object (one whose class, its klass word with the two forwarding
        // bits cleared, is java.lang.Class, the class that is its own class) has the size of
        // its class, whatever forwarding bits its klass word carries.
        contents matches ObjectContents::Class(class, _) ==> (!klass.is_array_class()
            && object.klass.reference & 0xffff_fffcu32 == klass.header.klass.reference
            & 0xffff_fffcu32 ==> r == class.class_size),
        // An array (its class has a component type): the aligned data offset plus its
        // elements, each of the size of its component type.
        contents matches ObjectContents::Array(array, component_type) ==> (
        klass.component_type.reference != 0 ==> r == array_size_spec(
            array.length as int,
            (component_type.primitive_type >> 16u32) as nat,
        )),
        // A java.lang.String that is not java.lang.Class: the size that its count gives.
        contents matches ObjectContents::ArtString(string) ==> (klass.component_type.reference
            == 0 && object.klass.reference & 0xffff_fffcu32 != klass.header.klass.reference
            & 0xffff_fffcu32 && klass.class_flags & Class::kClassFlagString != 0 ==> r
            == string_size_spec(string.count as int)),
        // Any other instance: the object size that its class records.
        contents is Instance ==> r == klass.object_size,
{
    let klass_address = object.get_class().reference as usize;
    if klass.is_array_class() {
        match contents {
            ObjectContents::Array(array, component_type) => array.size_of(component_type),
            _ => klass.get_object_size(),
        }
    } else if klass.is_class_class(klass_address) {
        match contents {
            ObjectContents::Class(class, _) => class.class_size as usize,
            _ => klass.get_object_size(),
        }
    } else if klass.is_string_class() {
        match contents {
            ObjectContents::ArtString(string) => string.size_of(),
            _ => klass.get_object_size(),
        }
    } else {
        klass.get_object_size()
    }
}

/// The size of an object does not depend on the forwarding bits of its klass word: two
/// headers whose klass words agree but for the two lowest bits, with the same class and
/// contents, have the same size.
pub proof fn lemma_size_ignores_forwarding_bits(
    object: Object,
    forwarded: Object,
    klass: Class,
    contents: ObjectContents,
)
    requires
        object.klass.reference & 0xffff_fffcu32 == forwarded.klass.reference & 0xffff_fffcu32,
    ensures
        object_size_spec(object, klass, contents) == object_size_spec(forwarded, klass, contents),
        contents_match_class(object, klass, contents) == contents_match_class(
            forwarded,
            klass,
            contents,
        ),
{
}

/// Rust mirror of `ArtField`
#[derive(Clone, Copy, PartialEq, Eq, Debug)]
pub struct ArtField {
    /// Field's declaring class (a `Class`)
    pub declaring_class: ArtHeapReference,
    /// Access flags; low 16 bits are defined by spec.
    pub access_flags: u32,
    /// Dex cache index of field id
    pub field_dex_idx: u32,
    /// Offset of field within an instance or in the Class' static fields
    pub offset: u32,
}

/// Rust mirror of `ArtMethod`
#[derive(Clone, Copy, PartialEq, Eq, Debug)]
pub struct ArtMethod {
    /// Method's declaring class (a `Class`)
    pub declaring_class: ArtHeapReference,
    /// Access flags; low 16 bits are defined by spec.
    pub access_flags: u32,
    /// Index into method_ids of the dex file associated with this method
    pub dex_method_index: u32,
    /// Entry within a dispatch table for this method.
    pub method_index: u16,
    /// Union of hotness count or an IMT index
    pub hotness_count_or_imt_index: u16,
    /// Method data depending on its type (a native pointer)
    pub data: u64,
    /// Method dispatch from quick compiled code (a native pointer)
    pub entry_point_from_quick_compiled_code: u64,
}

} // verus!
