# hexahedron

A toolkit for games and voxel engines, verified with Verus.

- `src/` is the verified library: an object pool and an unordered vector with
  stable ids, a graph of linked nodes, bit manipulation and bit flags, a compact
  big-endian binary encoding with its round-trip law, deterministic hashes of that
  encoding (SHA-256, BLAKE3, xxHash through their crates), seeds, colours and the
  table of named colours, render layers, cube orientations, time spans and
  instants, and two task schedulers with the decisions of their processing loops.
- `tests/` runs the library on concrete values.
- `app/` is the program around the library: the scheduler loops that sleep until
  the next task, floating-point helpers, `glam` conversions, seeded random number
  generators, hashing through `std::hash::Hash`, `std::io` streams and a map keyed
  by type.
