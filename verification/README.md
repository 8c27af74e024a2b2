# mmtk_art

The MMTk binding for the Android Runtime (ART), with its decisions verified by Verus.

`src/` is the verified library:

- `abi` — mirrors of ART's object layouts (`Object`, `Class`, `Array`, `ArtString`, …), the
  class predicates, the class size computation and object sizes.
- `object_scanning` — which slots of an object hold references, in the order they are
  visited, and the upcall that completes a scan.
- `scanning` — forwarding bits and the phases of weak reference processing.
- `gc_trigger` — ART's heap growth policy, in pages.
- `object_model` — object sizes and addresses as MMTk sees them.
- `conversions` — rounding to powers of two.
- `lib.rs` — slots, memory slices, the virtual memory layout.

`app/` reads objects out of the managed heap for the library, calls back into ART, applies
the floating-point tuning of the GC trigger and holds the process-wide state.

The MMTk core crate that the binding plugs into (a fork of mmtk-core) cannot be had here.
What only calls into it is therefore absent: the `VMBinding`, `ObjectModel`, `Scanning`,
`Collection`, `ActivePlan`, `ReferenceGlue` and `GCTriggerPolicy` impls, object copying,
and the `mmtk_*` entry points that forward to MMTk (initialization, mutator binding and
allocation, barriers, heap queries, thread-local allocation buffers, Zygote fork hooks,
harness hooks). The system trace counter for the heap size is logged instead, as the
`atrace` crate cannot be had either.
