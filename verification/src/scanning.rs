//! Scanning objects and processing weak references for the collector.
use vstd::prelude::*;
use crate::RefProcessingPhase;
use crate::abi::{Class, Object, ObjectContents};
use crate::object_scanning::{
    scan_object_ready, scan_object_slots, scan_object_upcall, slot_addresses, ObjectScan,
};

verus! {

/// Implements scanning trait
pub struct ArtScanning;

/// The forwarding bits of an object: the two lowest bits of its first header word.
pub open spec fn forwarding_bits(header_word: u32) -> u8 {
    (header_word & 0b11u32) as u8
}

/// Return the forwarding bits of an object whose first header word is `header_word`.
pub fn get_forwarding_status(header_word: u32) -> (r: u8)
    ensures
        r == forwarding_bits(header_word),
        r < 4,
{
    assert(header_word & 0b11u32 < 4) by (bit_vector);
    (header_word & 0b11) as u8
}

/// Whether an object whose first header word is `header_word` has not been forwarded.
pub fn is_not_forwarded(header_word: u32) -> (r: bool)
    ensures
        r == (forwarding_bits(header_word) == 0),
{
    get_forwarding_status(header_word) == 0b00
}

/// The first header word of an object is its class with the forwarding bits in the two
/// low bits: `Object::get_class` and `get_forwarding_status` take it apart without loss.
pub proof fn lemma_header_word_splits(object: Object)
    ensures
        (object.get_class().reference | (forwarding_bits(object.klass.reference) as u32))
            == object.klass.reference,
        object.get_class().reference & (forwarding_bits(object.klass.reference) as u32) == 0,
{
    let w = object.klass.reference;
    assert(((w & 0xffff_fffcu32) | (((w & 0b11u32) as u8) as u32)) == w) by (bit_vector);
    assert((w & 0xffff_fffcu32) & (((w & 0b11u32) as u8) as u32) == 0) by (bit_vector);
}

/// What the collector asks of the runtime while it processes weak references.
#[derive(Clone, Copy, PartialEq, Eq, Debug)]
pub enum WeakRefAction {
    /// Sweep the runtime's system weaks.
    SweepSystemWeaks,
    /// Process references in the given phase, tracing through the collector.
    ProcessReferences {
        /// The phase of reference processing.
        phase: RefProcessingPhase,
        /// Whether soft references are cleared.
        clear_soft_references: bool,
    },
}

/// The phase after `phase`, wrapping around after the third.
pub open spec fn next_phase(phase: RefProcessingPhase) -> RefProcessingPhase {
    match phase {
        RefProcessingPhase::Phase1 => RefProcessingPhase::Phase2,
        RefProcessingPhase::Phase2 => RefProcessingPhase::Phase3,
        RefProcessingPhase::Phase3 => RefProcessingPhase::Phase1,
    }
}

/// One round of weak reference processing from `phase`: what to ask of the runtime, the
/// phase to be in afterwards, and whether the collector has to come back for another round.
pub open spec fn weak_ref_step(
    phase: RefProcessingPhase,
    is_nursery: bool,
    clear_soft_references: bool,
) -> (WeakRefAction, RefProcessingPhase, bool) {
    if is_nursery {
        (WeakRefAction::SweepSystemWeaks, phase, false)
    } else {
        (
            WeakRefAction::ProcessReferences { phase, clear_soft_references },
            next_phase(phase),
            !(phase is Phase3),
        )
    }
}

impl ArtScanning {
    /// Scan an object for the collector, visiting its native roots.
    pub fn scan_object(
        object: usize,
        klass: &Class,
        overflow_bitmap: &Vec<u32>,
        contents: &ObjectContents,
        ptr_size: usize,
    ) -> (r: ObjectScan)
        requires
            scan_object_ready(
                object as int,
                *klass,
                overflow_bitmap@,
                *contents,
                ptr_size as int,
            ),
        ensures
            slot_addresses(r.slots@) == scan_object_slots(
                object as int,
                *klass,
                overflow_bitmap@,
                *contents,
                ptr_size as int,
            ),
            r.upcall == scan_object_upcall(klass.class_flags, true),
    {
        crate::object_scanning::scan_object::<true>(
            object,
            klass,
            overflow_bitmap,
            contents,
            ptr_size,
        )
    }

    /// Decide one round of weak reference processing. After a nursery collection the
    /// runtime sweeps its system weaks (so that nothing in them points to dead objects when a
    /// full collection later sweeps them) and no more rounds follow. Otherwise the references
    /// are processed in `current_phase`, which then advances; the collector comes back after
    /// the first and second phases. Soft references are cleared in an emergency collection and
    /// always in the Zygote process.
    pub fn process_weak_refs(
        current_phase: &mut RefProcessingPhase,
        is_nursery: bool,
        is_emergency: bool,
        is_zygote: bool,
    ) -> (r: (WeakRefAction, bool))
        ensures
            ({
                let (action, phase, more) = weak_ref_step(
                    *old(current_phase),
                    is_nursery,
                    is_emergency || is_zygote,
                );
                r == (action, more) && *final(current_phase) == phase
            }),
    {
        if is_nursery {
            (WeakRefAction::SweepSystemWeaks, false)
        } else {
            // Always clear soft references if we are the Zygote process
            let clear_soft_references = is_emergency || is_zygote;
            match *current_phase {
                RefProcessingPhase::Phase1 => {
                    *current_phase = RefProcessingPhase::Phase2;
                    (
                        WeakRefAction::ProcessReferences {
                            phase: RefProcessingPhase::Phase1,
                            clear_soft_references,
                        },
                        true,
                    )
                },
                RefProcessingPhase::Phase2 => {
                    *current_phase = RefProcessingPhase::Phase3;
                    (
                        WeakRefAction::ProcessReferences {
                            phase: RefProcessingPhase::Phase2,
                            clear_soft_references,
                        },
                        true,
                    )
                },
                RefProcessingPhase::Phase3 => {
                    *current_phase = RefProcessingPhase::Phase1;
                    (
                        WeakRefAction::ProcessReferences {
                            phase: RefProcessingPhase::Phase3,
                            clear_soft_references,
                        },
                        false,
                    )
                },
            }
        }
    }
}

/// Weak reference processing of a full collection runs the three phases in order, asks the
/// collector back after the first two, and ends in the phase it started from, ready for the
/// next collection.
pub proof fn lemma_weak_ref_phases_cycle(clear_soft_references: bool)
    ensures
        ({
            let (a1, p1, m1) = weak_ref_step(RefProcessingPhase::Phase1, false, clear_soft_references);
            let (a2, p2, m2) = weak_ref_step(p1, false, clear_soft_references);
            let (a3, p3, m3) = weak_ref_step(p2, false, clear_soft_references);
            &&& a1 == WeakRefAction::ProcessReferences {
                phase: RefProcessingPhase::Phase1,
                clear_soft_references,
            }
            &&& a2 == WeakRefAction::ProcessReferences {
                phase: RefProcessingPhase::Phase2,
                clear_soft_references,
            }
            &&& a3 == WeakRefAction::ProcessReferences {
                phase: RefProcessingPhase::Phase3,
                clear_soft_references,
            }
            &&& m1 && m2 && !m3
            &&& p3 == RefProcessingPhase::Phase1
        }),
{
}

/// A nursery collection leaves the phase of weak reference processing as it was and asks
/// for no further round.
pub proof fn lemma_nursery_keeps_phase(phase: RefProcessingPhase, clear_soft_references: bool)
    ensures
        weak_ref_step(phase, true, clear_soft_references) == (
            WeakRefAction::SweepSystemWeaks,
            phase,
            false,
        ),
{
}

} // verus!
