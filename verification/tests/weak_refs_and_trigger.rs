use mmtk_art::gc_trigger::{select_gc_trigger, GcTriggerSelection};
use mmtk_art::gc_trigger::{ArtTrigger, UtilizationGrowth};
use mmtk_art::scanning::{ArtScanning, WeakRefAction};
use mmtk_art::RefProcessingPhase;

fn growth() -> UtilizationGrowth {
    UtilizationGrowth {
        adjusted_max_free: 0,
        utilization_delta: 0,
        scaled_grow_pages: 0,
        multiplier_at_most_one: true,
        foreground_max_free: 0,
        foreground_grow_pages: 0,
    }
}

#[test]
fn weak_reference_phases_cycle() {
    let mut phase = RefProcessingPhase::Phase1;
    let (action, more) = ArtScanning::process_weak_refs(&mut phase, false, false, false);
    assert_eq!(
        action,
        WeakRefAction::ProcessReferences {
            phase: RefProcessingPhase::Phase1,
            clear_soft_references: false
        }
    );
    assert!(more);
    assert_eq!(phase, RefProcessingPhase::Phase2);
    let (_, more) = ArtScanning::process_weak_refs(&mut phase, false, false, false);
    assert!(more);
    assert_eq!(phase, RefProcessingPhase::Phase3);
    let (action, more) = ArtScanning::process_weak_refs(&mut phase, false, false, true);
    assert_eq!(
        action,
        WeakRefAction::ProcessReferences {
            phase: RefProcessingPhase::Phase3,
            clear_soft_references: true
        }
    );
    assert!(!more);
    assert_eq!(phase, RefProcessingPhase::Phase1);
}

#[test]
fn nursery_collections_sweep_system_weaks() {
    let mut phase = RefProcessingPhase::Phase2;
    let (action, more) = ArtScanning::process_weak_refs(&mut phase, true, true, true);
    assert_eq!(action, WeakRefAction::SweepSystemWeaks);
    assert!(!more);
    assert_eq!(phase, RefProcessingPhase::Phase2);
}

#[test]
fn emergency_collections_clear_soft_references() {
    let mut phase = RefProcessingPhase::Phase1;
    let (action, _) = ArtScanning::process_weak_refs(&mut phase, false, true, false);
    assert_eq!(
        action,
        WeakRefAction::ProcessReferences {
            phase: RefProcessingPhase::Phase1,
            clear_soft_references: true
        }
    );
}

#[test]
fn trigger_counts_pages() {
    let t = ArtTrigger::new(1 << 20, 8 << 20, 4 << 20, 256 << 20, 128 << 20);
    assert_eq!(t.min_free, 256);
    assert_eq!(t.max_free, 2048);
    assert_eq!(t.target_footprint, 1024);
    assert_eq!(t.capacity, 65536);
    assert_eq!(t.growth_limit, 32768);
    assert_eq!(t.pending_allocation, 0);
    assert_eq!(t.concurrent_start_pages, usize::MAX);
    assert_eq!(t.get_current_heap_size_in_pages(), 1024);
    assert_eq!(t.get_max_heap_size_in_pages(), 32768);
    assert!(t.can_heap_size_grow());
    assert!(!t.is_heap_full(1023));
    assert!(t.is_heap_full(1024));
}

#[test]
fn footprint_grows_until_the_growth_limit() {
    let mut t = ArtTrigger::new(0, 0, 100 << 12, 1000 << 12, 500 << 12);
    // Within the target footprint: no collection, nothing changes.
    assert!(!t.footprint_requires_gc(90));
    assert_eq!(t.target_footprint, 100);
    // Beyond the footprint but within the growth limit: the footprint grows.
    t.on_pending_allocation(10);
    assert!(!t.footprint_requires_gc(150));
    assert_eq!(t.target_footprint, 160);
    assert_eq!(t.pending_allocation, 0);
    // Beyond the growth limit: collect.
    assert!(t.footprint_requires_gc(501));
    assert_eq!(t.target_footprint, 160);
}

#[test]
fn ideal_footprint_is_capped_by_growth_limit() {
    let mut t = ArtTrigger::new(0, 0, 100 << 12, 1000 << 12, 500 << 12);
    t.set_ideal_footprint(700);
    assert_eq!(t.target_footprint, 500);
    assert!(!t.can_heap_size_grow());
    t.set_ideal_footprint(300);
    assert_eq!(t.target_footprint, 300);
}

#[test]
fn growth_limit_clamp_and_clear() {
    let mut t = ArtTrigger::new(0, 0, 500 << 12, 1000 << 12, 500 << 12);
    t.clear_growth_limit();
    assert_eq!(t.growth_limit, 1000);
    // The footprint sat at the growth limit, so it moves to the capacity.
    assert_eq!(t.target_footprint, 1000);
    let mut t = ArtTrigger::new(0, 0, 100 << 12, 1000 << 12, 500 << 12);
    t.clamp_growth_limit();
    assert_eq!(t.capacity, 500);
    t.clear_growth_limit();
    assert_eq!(t.growth_limit, 500);
    assert_eq!(t.target_footprint, 100);
}

#[test]
fn clamp_max_heap_size_sets_all_limits() {
    let mut t = ArtTrigger::new(0, 0, 100 << 12, 1000 << 12, 500 << 12);
    assert!(t.clamp_max_heap_size(64 << 12));
    assert_eq!(t.capacity, 64);
    assert_eq!(t.growth_limit, 64);
    assert_eq!(t.target_footprint, 64);
}

#[test]
fn nursery_collection_grows_by_max_free() {
    let mut t = ArtTrigger::new(1 << 12, 50 << 12, 400 << 12, 1000 << 12, 1000 << 12);
    let mut g = growth();
    g.adjusted_max_free = 50;
    g.foreground_max_free = 100;
    t.on_pending_allocation(7);
    t.on_gc_start(300);
    assert_eq!(t.reserved_pages_before_gc, 300);
    t.on_gc_end(300, true, g);
    // 300 + 50 < 400: the target shrinks to 350 plus nothing pending beyond it.
    assert_eq!(t.target_footprint, 350);
    assert_eq!(t.min_foreground_target_footprint, 400);
    assert_eq!(t.pending_allocation, 0);
    assert_eq!(t.reserved_pages_before_gc, 0);
    // Becoming jank perceptible raises the footprint to the foreground target.
    t.grow_heap_size_for_event();
    assert_eq!(t.target_footprint, 400);
}

#[test]
fn full_collection_grows_by_utilization() {
    let mut t = ArtTrigger::new(10 << 12, 50 << 12, 400 << 12, 1000 << 12, 1000 << 12);
    assert_eq!(t.full_heap_grow_pages(5), 10);
    assert_eq!(t.full_heap_grow_pages(30), 30);
    assert_eq!(t.full_heap_grow_pages(80), 50);
    let mut g = growth();
    g.utilization_delta = 80;
    g.scaled_grow_pages = 50;
    g.multiplier_at_most_one = false;
    t.on_pending_allocation(70);
    t.grow_for_utilization(600, false, g);
    // 600 + 50, and 70 pending pages exceed the 50 grown: they are added.
    assert_eq!(t.target_footprint, 720);
    assert_eq!(t.min_foreground_target_footprint, 0);
    // The growth limit caps the target.
    let mut g2 = growth();
    g2.utilization_delta = 30;
    g2.scaled_grow_pages = 30;
    g2.foreground_grow_pages = 600;
    t.pending_allocation = 0;
    t.grow_for_utilization(990, false, g2);
    assert_eq!(t.target_footprint, 1000);
    assert_eq!(t.min_foreground_target_footprint, 1000);
}

#[test]
fn fixed_heaps_use_fixed_trigger() {
    assert_eq!(select_gc_trigger(64 << 20, 64 << 20), GcTriggerSelection::FixedHeapSize(64 << 20));
    assert_eq!(select_gc_trigger(16 << 20, 64 << 20), GcTriggerSelection::Delegated);
}
