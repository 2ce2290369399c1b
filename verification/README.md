# signal_router

The ordinary Signal contract of the router, as a verified library.

- `src/contract.rs` — the wire vocabulary: the `Query` and `Response` roots,
  the records they carry, the bootstrap document and the daemon configuration.
- `src/wire.rs` — the structural `WireValue`, its model, and the `WireShape`
  trait with its implementations for strings, integers, booleans, sequences
  and options.
- `src/document.rs` — the bootstrap document's wire root, a record of one
  sequence.
- `src/projection.rs` — the wire projection of every contract type, with the
  proof that every projection restores.
- `src/routes.rs` — request and reply routes, their codes, frame routes and
  the request head names.
- `src/frame.rs` — the frame boundary as data: a request frame is read as
  exactly one request, and a reply frame carries one committed answer.
- `src/refusal.rs` — the engine's refusal records.
- `src/seats.rs` — the bootstrap authority's minted seats.
- `app/` — the byte edge: rkyv archives of wire values, and error messages.
