# frame_lease

Retainable decoded-frame storage for zero-copy video pipelines, verified with
Verus.

A `FrameLease` keeps a decoded frame alive beyond the decoder callback, whether
it lives on the heap, in a pooled CPU arena or in a hardware surface. Consumers
that need a heap-backed `Frame` call `materialize` or `into_frame`.

- `src/lease.rs`: the lease, and the copy of an arena frame to the heap
- `src/hardware.rs`: hardware storage and its cloneable handle
- `src/arena/sync.rs`: the arena pool, arenas and arena frames
- `src/frame.rs`, `src/pixel.rs`, `src/error.rs`: frames, pixel formats, errors
- `src/text.rs`: numbers and lists as text
- `src/laws.rs`: what holds across several functions
- `tests/`: the tests
- `app/`: `std::fmt::Debug` for borrowed leases and hardware frames
