# scepter

A verified command model for driving the Eldiron Creator, written in Verus.

- `src/command.rs` — the typed Scepter commands and their parameter types; each
  command's stable protocol name, with a proof that the name identifies the
  command kind.
- `src/lorebook.rs` — the Lorebook: machine-readable help per command, the
  built-in catalog (stated entry by entry as a specification), and the catalog
  kept sorted by name (a type invariant), with proofs that lookups agree with
  the catalog, that every command is described, that no built-in entry is
  lost, and that every entry's capabilities match its undo and preview flags.
- `src/plan.rs` — command plans.
- `src/text.rs` — character-wise text order used to keep the catalog sorted.
- `src/runner.rs` — the decisions of the native SceneVM app runner: when a frame
  is rendered or a previous result reused, and the status codes of its entry
  points.
- `src/ui.rs` — the UI demo's undo bookkeeping: slider widget ids, button-group
  changes, history labels, and a `usize` parser that agrees with `str::parse`.
- `src/scene.rs` — the integer bookkeeping of the SceneVM virtual machine:
  geometry id sort keys, dynamic-object draw order, avatar metadata slots and
  the avatar pixel table, tile frame fitting, palette tile table, shader hash,
  and which triangles a visibility bitset marks visible.
- `src/tile_bins.rs` — binning of 2D triangles into 8x8-pixel screen tiles:
  each tile's triangles in draw-priority order, flattened with per-tile
  offsets and counts.
- `src/organic.rs` — the word layout of the organic-billboard storage buffer:
  header, instances, sprite metadata and pixels.
- `src/scene_data.rs` — the section layout of the scene-data storage buffer.
- `src/draw2d.rs` — the 2D draw paths' decisions: when cached geometry is
  rebuilt, and the tile indices of dynamic billboard vertices.
- `src/draw3d.rs` — the 3D raster path's cache-refresh decisions and the
  packing of triangle visibility into a bitset.
- `src/chunks.rs` — the scene VM's integer bookkeeping as a state machine:
  which chunk new geometry goes into, chunk creation and removal, the
  stale-cache flags, and the scene settings (render mode, animation counter,
  SDF data, multisample count, BVH leaf size); with a proof that the current
  chunk always exists.
- `src/bvh.rs` — the integer step of the BVH build: partitioning a node's
  triangle indices around the chosen split bin.
- `app/` — the JSON wire form: serde twins of the model types with `From`
  conversions both ways; and the floating-point rounding of triangle bounds
  that feeds the tile binning.

Verify the library with Verus on `src/lib.rs`; the tests under `tests/` exercise it.
