//! The object model that the binding gives MMTk: object sizes and addresses.
use vstd::prelude::*;
use crate::Art;
use crate::abi::{
    get_object_size, contents_match_class, contents_sizable, object_size_spec, Class, Object,
    ObjectContents, OBJECT_HEADER_SIZE,
};
use crate::conversions::{align_up_spec, lemma_small_pow2, raw_align_up};

verus! {

/// Implements object model trait
pub struct ArtObjectModel;

impl ArtObjectModel {
    /// The size of `object` (of class `klass`, with contents `contents`), rounded up to the
    /// minimum alignment.
    pub fn get_current_size(object: &Object, klass: &Class, contents: &ObjectContents) -> (r: usize)
        requires
            contents_match_class(*object, *klass, *contents),
            contents_sizable(*contents),
            object_size_spec(*object, *klass, *contents) >= OBJECT_HEADER_SIZE,
            object_size_spec(*object, *klass, *contents) + Art::MIN_ALIGNMENT - 1 <= usize::MAX,
        ensures
            r == align_up_spec(object_size_spec(*object, *klass, *contents), Art::MIN_ALIGNMENT as int),
            // A java.lang.Class object takes the size of its class, rounded up, whatever
            // forwarding bits its klass word carries.
            contents matches ObjectContents::Class(class, _) ==> (!klass.is_array_class()
                && object.klass.reference & 0xffff_fffcu32 == klass.header.klass.reference
                & 0xffff_fffcu32 ==> r == align_up_spec(
                class.class_size as int,
                Art::MIN_ALIGNMENT as int,
            )),
    {
        proof {
            lemma_small_pow2();
        }
        raw_align_up(get_object_size(object, klass, contents), Art::MIN_ALIGNMENT)
    }

    /// The size that a copy of `object` takes: its current size.
    pub fn get_size_when_copied(object: &Object, klass: &Class, contents: &ObjectContents) -> (r: usize)
        requires
            contents_match_class(*object, *klass, *contents),
            contents_sizable(*contents),
            object_size_spec(*object, *klass, *contents) >= OBJECT_HEADER_SIZE,
            object_size_spec(*object, *klass, *contents) + Art::MIN_ALIGNMENT - 1 <= usize::MAX,
        ensures
            r == align_up_spec(object_size_spec(*object, *klass, *contents), Art::MIN_ALIGNMENT as int),
            // A java.lang.Class object takes the size of its class, rounded up, whatever
            // forwarding bits its klass word carries.
            contents matches ObjectContents::Class(class, _) ==> (!klass.is_array_class()
                && object.klass.reference & 0xffff_fffcu32 == klass.header.klass.reference
                & 0xffff_fffcu32 ==> r == align_up_spec(
                class.class_size as int,
                Art::MIN_ALIGNMENT as int,
            )),
    {
        ArtObjectModel::get_current_size(object, klass, contents)
    }

    /// The alignment that a copy of an object needs.
    pub fn get_align_when_copied(_object: usize) -> (r: usize)
        ensures
            r == Art::MIN_ALIGNMENT,
    {
        Art::MIN_ALIGNMENT
    }

    /// The offset from the alignment at which a copy of an object starts.
    pub fn get_align_offset_when_copied(_object: usize) -> (r: usize)
        ensures
            r == 0,
    {
        0
    }

    /// The start of the object at `object`: ART objects start at their reference.
    pub fn ref_to_object_start(object: usize) -> (r: usize)
        ensures
            r == object,
    {
        object
    }

    /// The header of the object at `object`: ART headers start at the object's reference.
    pub fn ref_to_header(object: usize) -> (r: usize)
        ensures
            r == object,
    {
        object
    }
}

} // verus!
