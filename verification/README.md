# avatar_studio

The rules of the Avatar Studio avatar creator, written in Verus and proved
against their contracts: asset metadata and its catalog rows, avatar slots
and character saves, the undoable command layer (router, history,
validation), the editor's per-object overrides and selection, path
resolution, export checks, GLB framing and the asset builder's import and
validation rules.

Layout:

- `src/` — the verified library. Float values are carried as their IEEE-754
  bit patterns, so every contract speaks of integers.
- `tests/` — tests run against the compiled library.
- `app/` — the `asset_builder` command line: argument parsing, file,
  SQLite and glTF I/O, image encoding, and the floating-point geometry.

Keyed collections: vstd's `HashMap` specifications give usable results
only for integer-like keys, so a map keyed by slot is a fixed array with
one entry per slot (`SlotMap`), a map keyed by object id is a vector of
pairs with its contents as a ghost `Map` (`ObjectOverrides`), and the
frame-time window is a `Vec` whose order and bound are stated.
