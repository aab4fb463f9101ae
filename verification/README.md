# loro_core

Verified text-span logic of a CRDT text tracker, written in Verus.

- `src/id.rs`: operation identifiers (`ID`: client and counter).
- `src/y_span.rs`: the activation `Status` of a span and its changes, and
  `YSpan`, a run of inserted text atoms: slicing, merging, lookup of ids.
- `src/laws.rs`: proved properties that relate these operations (undo/redo
  inverses, commuting status changes, split and merge, slices of slices,
  adjacent slices).
- `app/`: browser glue (console logging, tracing setup) for wasm builds.
