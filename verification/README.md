# spline_test

Verified decision logic of an interactive Euler-spiral (clothoid) spline editor.

- `src/` (Verus): pointer gesture recognition (`pointer`), spline editing modes
  and edits (`line`), the index structure and iteration control of the spline
  solver (`section`), viewport gesture dispatch and scroll bookkeeping
  (`viewport`), change notification (`mailbox`), GPU buffer limits
  (`renderer`), and asset lookup in zip bundles together with the asset
  folder type (`asset`).
- `app/` (plain Rust): the floating-point numerics (Fresnel integrals, spiral
  fitting, tridiagonal solvers), clip/world transforms, GPU value layouts, file
  I/O (reading from asset folders) and the leptos glue, each built on the verified parts.
