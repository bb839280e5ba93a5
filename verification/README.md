# pyterrain_map (verified core)

The verified library of a multi-robot terrain-mapping platform. Every
function in `src/` carries a `requires`/`ensures` contract checked by
Verus; the contracts are stated over spec functions and views
(`Seq`, `Map`, `int`), and the properties that span several calls are
public proof functions (`lemma_*`).

Layout:

- `src/` – the verified library: classification vocabularies
  (terrain, objects, personas, risks), late-arrival reprocessing, the
  space-time scheduler, the multi-resolution cell index, object pools,
  bounded logs and counters, provenance, retention and audit logs,
  persistence settings, RANSAC inlier masks, pose-graph edges, IMU
  windows, photogrammetry statistics and perceptual-hash distance.
  `src/sys.rs` holds the few trusted wrappers (system clock, random
  UUIDs).
- `tests/` – example-based tests of the library.
- `app/` – unverified runtime code: lock-protected shared handles,
  serde-enabled copies of library types, and the floating-point geometry
  (averages, similarity scores, pose optimisation) around the library.
