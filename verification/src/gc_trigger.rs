//! The ART GC trigger: when to collect and how far the heap may grow.
//!
//! The trigger tracks its sizes in pages. The two tuning parameters that ART gives as
//! floating-point numbers (the target utilization and the foreground growth multiplier) are
//! applied by the embedding code, which hands the trigger the page counts they yield.
use vstd::prelude::*;

verus! {

/// log_2 of how many bytes in a page
pub const LOG_BYTES_IN_PAGE: usize = 12;

/// The page counts that the floating-point tuning parameters yield for one heap resize
/// after a collection. `multiplier` is the heap growth multiplier in effect (1.0 unless the
/// application is jank perceptible, then the foreground multiplier).
#[derive(Clone, Copy, PartialEq, Eq, Debug)]
pub struct UtilizationGrowth {
    /// `max_free * multiplier`, truncated to whole pages.
    pub adjusted_max_free: usize,
    /// The pages that the target utilization asks to keep free over the reserved pages:
    /// `reserved_pages * (1 / target_utilization - 1)`, truncated.
    pub utilization_delta: usize,
    /// `ArtTrigger::full_heap_grow_pages(utilization_delta) * multiplier`, truncated.
    pub scaled_grow_pages: usize,
    /// Whether `multiplier <= 1.0`.
    pub multiplier_at_most_one: bool,
    /// `max_free * foreground_heap_growth_multiplier`, truncated.
    pub foreground_max_free: usize,
    /// `ArtTrigger::full_heap_grow_pages(utilization_delta) * foreground_heap_growth_multiplier`,
    /// truncated.
    pub foreground_grow_pages: usize,
}

/// Which GC trigger MMTk uses for a heap of the given minimum and maximum sizes.
#[derive(Clone, Copy, PartialEq, Eq, Debug)]
pub enum GcTriggerSelection {
    /// A heap of fixed size (in bytes).
    FixedHeapSize(usize),
    /// The ART trigger decides.
    Delegated,
}

/// A heap whose minimum and maximum sizes agree has a fixed size; otherwise the ART trigger
/// decides how it grows.
pub fn select_gc_trigger(min: usize, max: usize) -> (r: GcTriggerSelection)
    ensures
        min == max ==> r == GcTriggerSelection::FixedHeapSize(min),
        min != max ==> r == GcTriggerSelection::Delegated,
{
    if min == max {
        GcTriggerSelection::FixedHeapSize(min)
    } else {
        GcTriggerSelection::Delegated
    }
}

/// The ART GC trigger. All sizes are in pages.
#[derive(Clone, Copy, PartialEq, Eq, Debug)]
pub struct ArtTrigger {
    /// Minimum free heap size (in pages)
    pub min_free: usize,
    /// The ideal maximum free heap size (in pages)
    pub max_free: usize,
    /// Max heap size (in pages)
    pub capacity: usize,
    /// Size the heap is limited to (in pages). growth limit <= capacity
    pub growth_limit: usize,
    /// Target size for the heap (in pages). A GC is triggered when the heap size exceeds this value
    pub target_footprint: usize,
    /// Number of pages that are pending allocation
    pub pending_allocation: usize,
    /// Heap size before the GC started (in pages)
    pub reserved_pages_before_gc: usize,
    /// Request a concurrent GC if heap size (in pages) exceeds this value
    pub concurrent_start_pages: usize,
    /// Cached target footprint value when the application was in the foreground.
    /// We set target footprint to this value when process moves from background to foreground
    pub min_foreground_target_footprint: usize,
    /// Cached concurrent start pages value when the application was in the foreground.
    /// We set the concurrent start pages to this value when process moves from background to foreground
    pub min_foreground_concurrent_start_pages: usize,
}

/// The number of whole pages in `bytes` bytes.
pub open spec fn pages_spec(bytes: usize) -> usize {
    bytes >> LOG_BYTES_IN_PAGE
}

/// The pages by which a full-heap collection lets the heap grow: the pages that the target
/// utilization asks for, at most `max_free` and at least `min_free`.
pub open spec fn full_heap_grow_pages_spec(min_free: int, max_free: int, utilization_delta: int) -> int {
    vstd::math::max(vstd::math::min(utilization_delta, max_free), min_free)
}

/// The target heap size (in pages) before pending allocations, and the pages the heap
/// grows by, after a collection that leaves `reserved_pages` pages reserved.
pub open spec fn utilization_target(
    trigger: ArtTrigger,
    reserved_pages: int,
    is_nursery: bool,
    growth: UtilizationGrowth,
) -> (int, int) {
    if is_nursery {
        if reserved_pages + growth.adjusted_max_free < trigger.target_footprint {
            (reserved_pages + growth.adjusted_max_free, trigger.max_free as int)
        } else {
            (vstd::math::max(reserved_pages, trigger.target_footprint as int), 0)
        }
    } else {
        (
            reserved_pages + growth.scaled_grow_pages,
            full_heap_grow_pages_spec(
                trigger.min_free as int,
                trigger.max_free as int,
                growth.utilization_delta as int,
            ),
        )
    }
}

/// The pages, scaled by the foreground multiplier, by which the heap grows.
pub open spec fn foreground_grow_pages(is_nursery: bool, growth: UtilizationGrowth) -> int {
    if is_nursery {
        growth.foreground_max_free as int
    } else {
        growth.foreground_grow_pages as int
    }
}

impl ArtTrigger {
    /// The trigger keeps its growth limit within its capacity.
    pub open spec fn limit_within_capacity(self) -> bool {
        self.growth_limit <= self.capacity
    }

    /// Create a new ART GC trigger. Sizes are given in bytes.
    pub fn new(
        min_free: usize,
        max_free: usize,
        initial_size: usize,
        capacity: usize,
        growth_limit: usize,
    ) -> (r: Self)
        ensures
            r.min_free == pages_spec(min_free),
            r.max_free == pages_spec(max_free),
            r.capacity == pages_spec(capacity),
            r.growth_limit == pages_spec(growth_limit),
            r.target_footprint == pages_spec(initial_size),
            r.pending_allocation == 0,
            r.reserved_pages_before_gc == 0,
            r.concurrent_start_pages == usize::MAX,
            r.min_foreground_target_footprint == 0,
            r.min_foreground_concurrent_start_pages == 0,
            growth_limit <= capacity ==> r.limit_within_capacity(),
    {
        proof {
            assert(growth_limit <= capacity ==> (growth_limit >> 12usize) <= (capacity >> 12usize))
                by (bit_vector);
        }
        ArtTrigger {
            min_free: min_free >> LOG_BYTES_IN_PAGE,
            max_free: max_free >> LOG_BYTES_IN_PAGE,
            capacity: capacity >> LOG_BYTES_IN_PAGE,
            growth_limit: growth_limit >> LOG_BYTES_IN_PAGE,
            target_footprint: initial_size >> LOG_BYTES_IN_PAGE,
            pending_allocation: 0,
            reserved_pages_before_gc: 0,
            concurrent_start_pages: usize::MAX,
            min_foreground_target_footprint: 0,
            min_foreground_concurrent_start_pages: 0,
        }
    }

    /// Set the target footprint, but never beyond the growth limit.
    pub fn set_ideal_footprint(&mut self, target_footprint: usize)
        ensures
            old(self).limit_within_capacity() ==> final(self).limit_within_capacity(),
            final(self).target_footprint == vstd::math::min(
                target_footprint as int,
                old(self).growth_limit as int,
            ),
            *final(self) == (ArtTrigger {
                target_footprint: final(self).target_footprint,
                ..*old(self)
            }),
    {
        let mut target_footprint = target_footprint;
        if target_footprint > self.growth_limit {
            target_footprint = self.growth_limit;
        }
        self.target_footprint = target_footprint;
    }

    /// Recompute the pages at which a concurrent collection starts; ART's concurrent
    /// collections are not used, so the value stays as it is.
    fn set_concurrent_start_pages(&self) {
    }

    /// Set the capacity to the growth limit, thereby decreasing the available heap space.
    pub fn clamp_growth_limit(&mut self)
        ensures
            final(self).capacity == old(self).growth_limit,
            *final(self) == (ArtTrigger { capacity: final(self).capacity, ..*old(self) }),
            final(self).limit_within_capacity(),
    {
        self.capacity = self.growth_limit;
    }

    /// Set the growth limit to the capacity, thereby increasing the available heap space.
    /// A target footprint that sat at the old growth limit moves up to the capacity.
    pub fn clear_growth_limit(&mut self)
        ensures
            final(self).growth_limit == old(self).capacity,
            final(self).target_footprint == (if old(self).target_footprint
                == old(self).growth_limit && old(self).growth_limit < old(self).capacity {
                old(self).capacity
            } else {
                old(self).target_footprint
            }),
            *final(self) == (ArtTrigger {
                growth_limit: final(self).growth_limit,
                target_footprint: final(self).target_footprint,
                ..*old(self)
            }),
            final(self).limit_within_capacity(),
    {
        let capacity = self.capacity;
        let growth_limit = self.growth_limit;
        if self.target_footprint == growth_limit && growth_limit < capacity {
            self.target_footprint = capacity;
            self.set_concurrent_start_pages();
        }
        self.growth_limit = capacity;
    }

    /// Increase heap size when the application transitions to a jank perceptible state:
    /// the target footprint rises to the one cached for the foreground.
    pub fn grow_heap_on_jank_perceptible_switch(&mut self)
        ensures
            old(self).limit_within_capacity() ==> final(self).limit_within_capacity(),
            final(self).target_footprint == vstd::math::max(
                old(self).target_footprint as int,
                old(self).min_foreground_target_footprint as int,
            ),
            *final(self) == (ArtTrigger {
                target_footprint: final(self).target_footprint,
                ..*old(self)
            }),
    {
        if self.target_footprint < self.min_foreground_target_footprint {
            self.target_footprint = self.min_foreground_target_footprint;
        }
    }

    /// The pages by which a full-heap collection lets the heap grow when the target
    /// utilization asks for `utilization_delta` free pages.
    pub fn full_heap_grow_pages(&self, utilization_delta: usize) -> (r: usize)
        ensures
            r == full_heap_grow_pages_spec(
                self.min_free as int,
                self.max_free as int,
                utilization_delta as int,
            ),
    {
        let mut grow_pages = if utilization_delta < self.max_free {
            utilization_delta
        } else {
            self.max_free
        };
        if grow_pages < self.min_free {
            grow_pages = self.min_free;
        }
        grow_pages
    }

    /// Resize the heap after a collection that leaves `reserved_pages` pages reserved.
    /// `is_nursery` tells whether the collection was a nursery collection, and `growth`
    /// holds the page counts that the floating-point tuning parameters yield.
    pub fn grow_for_utilization(
        &mut self,
        reserved_pages: usize,
        is_nursery: bool,
        growth: UtilizationGrowth,
    )
        requires
            reserved_pages + growth.adjusted_max_free <= usize::MAX,
            reserved_pages + growth.scaled_grow_pages <= usize::MAX,
            utilization_target(*old(self), reserved_pages as int, is_nursery, growth).0
                + old(self).pending_allocation <= usize::MAX,
            reserved_pages + foreground_grow_pages(is_nursery, growth) <= usize::MAX,
        ensures
            old(self).limit_within_capacity() ==> final(self).limit_within_capacity(),
            ({
                let (target, grow_pages) = utilization_target(
                    *old(self),
                    reserved_pages as int,
                    is_nursery,
                    growth,
                );
                let target = if target - reserved_pages < old(self).pending_allocation {
                    target + old(self).pending_allocation
                } else {
                    target
                };
                &&& final(self).target_footprint == vstd::math::min(
                    target,
                    old(self).growth_limit as int,
                )
                &&& final(self).min_foreground_target_footprint == (
                if growth.multiplier_at_most_one && grow_pages > 0 {
                    vstd::math::min(
                        reserved_pages + foreground_grow_pages(is_nursery, growth),
                        old(self).growth_limit as int,
                    )
                } else {
                    0
                })
            }),
            // A nursery collection never lowers the target footprint below both the old
            // footprint and the reserved pages plus the adjusted free pages (nor beyond the
            // growth limit).
            is_nursery ==> final(self).target_footprint >= vstd::math::min(
                vstd::math::min(
                    reserved_pages + growth.adjusted_max_free,
                    old(self).target_footprint as int,
                ),
                old(self).growth_limit as int,
            ),
            // A nursery collection after which the reserved pages plus the adjusted free
            // pages reach the old footprint grants no growth: the footprint keeps the larger
            // of the old footprint and the reserved pages (within the growth limit), and no
            // foreground footprint is cached.
            is_nursery && reserved_pages + growth.adjusted_max_free >= old(self).target_footprint
                ==> {
                &&& final(self).target_footprint >= vstd::math::min(
                    vstd::math::max(reserved_pages as int, old(self).target_footprint as int),
                    old(self).growth_limit as int,
                )
                &&& final(self).min_foreground_target_footprint == 0
            },
            // With no pending allocations, the target footprint is, within the growth limit:
            // after a nursery collection, the reserved pages plus the adjusted free pages when
            // these stay below the old footprint, else the larger of the old footprint and the
            // reserved pages; after a full-heap collection, the reserved pages plus the scaled
            // growth.
            old(self).pending_allocation == 0 ==> final(self).target_footprint
                == vstd::math::min(
                if !is_nursery {
                    reserved_pages + growth.scaled_grow_pages
                } else if reserved_pages + growth.adjusted_max_free < old(self).target_footprint {
                    reserved_pages + growth.adjusted_max_free
                } else {
                    vstd::math::max(reserved_pages as int, old(self).target_footprint as int)
                },
                old(self).growth_limit as int,
            ),
            // The new footprint makes room for the pending allocations (within the growth
            // limit).
            final(self).target_footprint >= vstd::math::min(
                reserved_pages + old(self).pending_allocation,
                old(self).growth_limit as int,
            ),
            // A foreground footprint is cached only when the multiplier is at most one and
            // the collection grew the heap: a nursery collection that kept the reserved pages
            // plus the adjusted free pages below the old footprint, with some ideal free
            // pages, or a full-heap collection with some growth.
            final(self).min_foreground_target_footprint == (if growth.multiplier_at_most_one && (
            if is_nursery {
                reserved_pages + growth.adjusted_max_free < old(self).target_footprint
                    && old(self).max_free > 0
            } else {
                old(self).min_free > 0 || (old(self).max_free > 0 && growth.utilization_delta > 0)
            }) {
                vstd::math::min(
                    reserved_pages + if is_nursery {
                        growth.foreground_max_free as int
                    } else {
                        growth.foreground_grow_pages as int
                    },
                    old(self).growth_limit as int,
                )
            } else {
                0
            }),
            *final(self) == (ArtTrigger {
                target_footprint: final(self).target_footprint,
                min_foreground_target_footprint: final(self).min_foreground_target_footprint,
                ..*old(self)
            }),
    {
        let grow_pages: usize;
        let mut target_size: usize;
        let foreground_pages: usize;
        if is_nursery {
            let adjusted_max_free = growth.adjusted_max_free;
            if reserved_pages + adjusted_max_free < self.target_footprint {
                target_size = reserved_pages + adjusted_max_free;
                grow_pages = self.max_free;
            } else {
                target_size = if reserved_pages > self.target_footprint {
                    reserved_pages
                } else {
                    self.target_footprint
                };
                grow_pages = 0;
            }
            foreground_pages = growth.foreground_max_free;
        } else {
            grow_pages = self.full_heap_grow_pages(growth.utilization_delta);
            target_size = reserved_pages + growth.scaled_grow_pages;
            foreground_pages = growth.foreground_grow_pages;
        }
        if target_size - reserved_pages < self.pending_allocation {
            target_size = target_size + self.pending_allocation;
        }
        self.set_ideal_footprint(target_size);
        let min_foreground_target_footprint = if growth.multiplier_at_most_one && grow_pages > 0 {
            let fg = reserved_pages + foreground_pages;
            if fg < self.growth_limit {
                fg
            } else {
                self.growth_limit
            }
        } else {
            0
        };
        self.min_foreground_target_footprint = min_foreground_target_footprint;
    }

    /// Count `pages` more pages as pending allocation (wrapping as the atomic counter does).
    pub fn on_pending_allocation(&mut self, pages: usize)
        ensures
            old(self).limit_within_capacity() ==> final(self).limit_within_capacity(),
            final(self).pending_allocation == old(self).pending_allocation.wrapping_add(pages),
            *final(self) == (ArtTrigger {
                pending_allocation: final(self).pending_allocation,
                ..*old(self)
            }),
    {
        self.pending_allocation = self.pending_allocation.wrapping_add(pages);
    }

    /// Record the heap size when a collection starts.
    pub fn on_gc_start(&mut self, reserved_pages: usize)
        ensures
            old(self).limit_within_capacity() ==> final(self).limit_within_capacity(),
            *final(self) == (ArtTrigger { reserved_pages_before_gc: reserved_pages, ..*old(self) }),
    {
        self.reserved_pages_before_gc = reserved_pages;
    }

    /// Resize the heap when a collection ends, and forget the pending allocations.
    pub fn on_gc_end(&mut self, reserved_pages: usize, is_nursery: bool, growth: UtilizationGrowth)
        requires
            reserved_pages + growth.adjusted_max_free <= usize::MAX,
            reserved_pages + growth.scaled_grow_pages <= usize::MAX,
            utilization_target(*old(self), reserved_pages as int, is_nursery, growth).0
                + old(self).pending_allocation <= usize::MAX,
            reserved_pages + foreground_grow_pages(is_nursery, growth) <= usize::MAX,
        ensures
            old(self).limit_within_capacity() ==> final(self).limit_within_capacity(),
            final(self).pending_allocation == 0,
            final(self).reserved_pages_before_gc == 0,
            final(self).target_footprint <= final(self).growth_limit,
            final(self).min_foreground_target_footprint <= final(self).growth_limit,
            final(self).growth_limit == old(self).growth_limit,
            final(self).capacity == old(self).capacity,
            ({
                let (target, grow_pages) = utilization_target(
                    *old(self),
                    reserved_pages as int,
                    is_nursery,
                    growth,
                );
                let target = if target - reserved_pages < old(self).pending_allocation {
                    target + old(self).pending_allocation
                } else {
                    target
                };
                &&& final(self).target_footprint == vstd::math::min(
                    target,
                    old(self).growth_limit as int,
                )
                &&& final(self).min_foreground_target_footprint == (
                if growth.multiplier_at_most_one && grow_pages > 0 {
                    vstd::math::min(
                        reserved_pages + foreground_grow_pages(is_nursery, growth),
                        old(self).growth_limit as int,
                    )
                } else {
                    0
                })
            }),
            // A nursery collection never lowers the target footprint below both the old
            // footprint and the reserved pages plus the adjusted free pages (nor beyond the
            // growth limit).
            is_nursery ==> final(self).target_footprint >= vstd::math::min(
                vstd::math::min(
                    reserved_pages + growth.adjusted_max_free,
                    old(self).target_footprint as int,
                ),
                old(self).growth_limit as int,
            ),
            // A nursery collection after which the reserved pages plus the adjusted free
            // pages reach the old footprint grants no growth: the footprint keeps the larger
            // of the old footprint and the reserved pages (within the growth limit), and no
            // foreground footprint is cached.
            is_nursery && reserved_pages + growth.adjusted_max_free >= old(self).target_footprint
                ==> {
                &&& final(self).target_footprint >= vstd::math::min(
                    vstd::math::max(reserved_pages as int, old(self).target_footprint as int),
                    old(self).growth_limit as int,
                )
                &&& final(self).min_foreground_target_footprint == 0
            },
            // With no pending allocations, the target footprint is, within the growth limit:
            // after a nursery collection, the reserved pages plus the adjusted free pages when
            // these stay below the old footprint, else the larger of the old footprint and the
            // reserved pages; after a full-heap collection, the reserved pages plus the scaled
            // growth.
            old(self).pending_allocation == 0 ==> final(self).target_footprint
                == vstd::math::min(
                if !is_nursery {
                    reserved_pages + growth.scaled_grow_pages
                } else if reserved_pages + growth.adjusted_max_free < old(self).target_footprint {
                    reserved_pages + growth.adjusted_max_free
                } else {
                    vstd::math::max(reserved_pages as int, old(self).target_footprint as int)
                },
                old(self).growth_limit as int,
            ),
            // The new footprint makes room for the pending allocations (within the growth
            // limit).
            final(self).target_footprint >= vstd::math::min(
                reserved_pages + old(self).pending_allocation,
                old(self).growth_limit as int,
            ),
            // A foreground footprint is cached only when the multiplier is at most one and
            // the collection grew the heap: a nursery collection that kept the reserved pages
            // plus the adjusted free pages below the old footprint, with some ideal free
            // pages, or a full-heap collection with some growth.
            final(self).min_foreground_target_footprint == (if growth.multiplier_at_most_one && (
            if is_nursery {
                reserved_pages + growth.adjusted_max_free < old(self).target_footprint
                    && old(self).max_free > 0
            } else {
                old(self).min_free > 0 || (old(self).max_free > 0 && growth.utilization_delta > 0)
            }) {
                vstd::math::min(
                    reserved_pages + if is_nursery {
                        growth.foreground_max_free as int
                    } else {
                        growth.foreground_grow_pages as int
                    },
                    old(self).growth_limit as int,
                )
            } else {
                0
            }),
    {
        self.grow_for_utilization(reserved_pages, is_nursery, growth);
        self.pending_allocation = 0;
        self.reserved_pages_before_gc = 0;
    }

    /// The trigger's own verdict on whether a collection is required when `reserved_pages`
    /// pages are reserved: the reserved and pending pages exceed both the target footprint
    /// and the growth limit. When they exceed only the target footprint, the footprint
    /// grows to them and the pending allocations are taken into it. The plan's own check is
    /// made by the caller when this returns false.
    pub fn footprint_requires_gc(&mut self, reserved_pages: usize) -> (r: bool)
        requires
            reserved_pages + old(self).pending_allocation <= usize::MAX,
        ensures
            !r ==> reserved_pages + old(self).pending_allocation <= final(self).target_footprint,
            old(self).limit_within_capacity() ==> final(self).limit_within_capacity(),
            ({
                let new_target = reserved_pages + old(self).pending_allocation;
                &&& r == (new_target > old(self).target_footprint && new_target
                    > old(self).growth_limit)
                &&& if new_target <= old(self).target_footprint || r {
                    *final(self) == *old(self)
                } else {
                    *final(self) == (ArtTrigger {
                        target_footprint: new_target as usize,
                        pending_allocation: 0,
                        ..*old(self)
                    })
                }
            }),
    {
        let old_target = self.target_footprint;
        let pending_allocation = self.pending_allocation;
        let new_target = reserved_pages + pending_allocation;
        if crate::unlikely(new_target <= old_target) {
            false
        } else if crate::unlikely(new_target > self.growth_limit) {
            true
        } else {
            // We are between target_footprint and growth_limit
            self.target_footprint = new_target;
            self.pending_allocation = self.pending_allocation - pending_allocation;
            false
        }
    }

    /// Is the heap full: have the reserved pages reached the target footprint?
    pub fn is_heap_full(&self, reserved_pages: usize) -> (r: bool)
        ensures
            r == (reserved_pages >= self.target_footprint),
    {
        reserved_pages >= self.target_footprint
    }

    /// The current heap size (in pages): the target footprint.
    pub fn get_current_heap_size_in_pages(&self) -> (r: usize)
        ensures
            r == self.target_footprint,
    {
        self.target_footprint
    }

    /// The largest heap size (in pages): the growth limit.
    pub fn get_max_heap_size_in_pages(&self) -> (r: usize)
        ensures
            r == self.growth_limit,
    {
        self.growth_limit
    }

    /// Can the heap grow: is the target footprint below the growth limit?
    pub fn can_heap_size_grow(&self) -> (r: bool)
        ensures
            r == (self.target_footprint < self.growth_limit),
    {
        self.target_footprint < self.growth_limit
    }

    /// Clamp the heap to `max_heap_size` bytes: capacity, growth limit and target
    /// footprint all become its number of pages. Returns that the heap was clamped.
    pub fn clamp_max_heap_size(&mut self, max_heap_size: usize) -> (r: bool)
        ensures
            old(self).limit_within_capacity() ==> final(self).limit_within_capacity(),
            r,
            final(self).capacity == pages_spec(max_heap_size),
            final(self).growth_limit == pages_spec(max_heap_size),
            final(self).target_footprint == pages_spec(max_heap_size),
            *final(self) == (ArtTrigger {
                capacity: final(self).capacity,
                growth_limit: final(self).growth_limit,
                target_footprint: final(self).target_footprint,
                ..*old(self)
            }),
    {
        let max_heap_pages = max_heap_size >> LOG_BYTES_IN_PAGE;
        self.capacity = max_heap_pages;
        self.growth_limit = max_heap_pages;
        self.set_ideal_footprint(max_heap_pages);
        self.set_concurrent_start_pages();
        true
    }

    /// Grow the heap for an event: the application became jank perceptible.
    pub fn grow_heap_size_for_event(&mut self)
        ensures
            old(self).limit_within_capacity() ==> final(self).limit_within_capacity(),
            final(self).target_footprint == vstd::math::max(
                old(self).target_footprint as int,
                old(self).min_foreground_target_footprint as int,
            ),
            *final(self) == (ArtTrigger {
                target_footprint: final(self).target_footprint,
                ..*old(self)
            }),
    {
        self.grow_heap_on_jank_perceptible_switch()
    }
}

} // verus!
