# thin arc list

A shared, reference-counted list with a header, whose values carry their own
position. An item (`ThinArcItem`) keeps the list alive, reports its position
(`index`), leads back to its list (`with_parent`), and can be turned into a raw
handle and back (`into_raw`, `from_raw`, `as_raw`, `from_raw_ref`) or borrowed
(`borrow_arc`). Items compare and order by the values they stand for.

- `src/thin_arc_list.rs`: the list, its items, raw handles and borrows, with
  their contracts and the round-trip laws.
- `src/item_cmp.rs`: `==` and ordering of items.
- `src/task.rs`: the `ThinItemWake` trait and `WakerRef`.
- `app/lib.rs`: turning items into `std::task::Waker`s through `std::task::Wake`.
- `tests/`: tests on concrete values.
