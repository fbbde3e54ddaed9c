# kernel

Verified kernel synchronisation primitives.

The atomic cells are shared through `&self`, so the value a cell holds at any moment is
written by whichever context got there last. That value is not modelled: the contracts of
the atomic operations state what holds of every outcome (a success of compare and exchange
returns the expected value, a failure reports a value of another representation), and the
conversions between values and representations are proved exactly. Reads, exchanges and
fetch-adds state nothing about the value they return. What a compare and exchange did with the value it found is stated for each
representation by `cmpxchg_outcome`.

- `src/sync/atomic/`: atomic variables over integer types. `ordering` holds the ordering
  annotations, `ops` the hardware cells and their operations, `generic` the `Atomic<T>`
  type, and `atomic.rs` the conversions of each integer type to its representation.
- `src/sync/rcu.rs`: an RCU cell that publishes a value to readers. There is no kernel
  read-side lock: a `Guard` is a token, and a replaced value is freed when its last holder
  (the `RcuOld` or a reader) drops it, not after a grace period.
- `src/field.rs`: structs that contain a field at a fixed offset.
- `src/macros/field.rs`: what `#[derive(HasField)]` decides.
- `src/error.rs`, `src/task/thread.rs`: kernel error numbers and what kernel threads decide.
- `app/`: the `HasField` derive (reads and writes Rust syntax) and kernel threads (run by the
  standard library's threads).
