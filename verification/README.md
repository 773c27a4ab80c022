# state

Init-once cells, type-keyed maps and per-thread cells, with their behaviour
stated in contracts and proved with Verus.

## Layout

- `src/init.rs` — `Init`, the protocol that hands initialization to exactly
  one caller, and the law that over any sequence of calls at most one
  `needed()` answers `true`.
- `src/cell.rs` — `InitCell<T>`, a cell that is set at most once; its view is
  `Option<T>`.
- `src/container.rs` — `Container<K, V>`, at most one value per type key,
  with freezing; its view is `Map<TypeKey, V>`.
- `src/kind.rs` — the container kinds `SendSync`, `Send` and `Neither`.
- `src/tls.rs` — `LocalValue<T, F>` and `LocalInitCell<T, F>`: one value per
  thread key, made by an initialization function on the thread's first
  access.
- `app/lib.rs` — a typed front end: it gives each Rust type and each thread a
  distinct key and stores values as `Box<dyn Any>`, recovered by downcasting.

## Model

Writes take `&mut self`: exclusive access stands in for the atomics and locks
that make concurrent writers safe, so every operation is a plain state
transition with an exact contract. Types and threads are told apart by
integer keys (`TypeKey`, `ThreadKey`) supplied by the caller.
