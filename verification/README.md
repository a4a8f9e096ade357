# v-contractx (verified)

A contract framework for Vector Network projection and reconstruction, written in Verus.

- `src/` — the verified library: vectors and their arithmetic (`types`), certification
  scores (`certification`), access policies (`access`), projection and reconstruction
  (`projection`, `reconstruction`), records and their canonical JSON text and BLAKE3 seal
  (`record`, `canonical`), contracts (`contract`), the kernel that ties them together
  (`runtime`, `keyed`), the WASM evaluators' decisions (`wasm`) and properties that span
  several functions (`laws`).
- `tests/` — scenarios and edge cases, including cross-checks of the canonical JSON text
  against `serde_json`.
- `app/` — host glue: serde copies of library types, the WASM entry points, error display,
  and floating-point views of scores.

JSON values (wallet and vector metadata, contract environments, record parameters) are carried
as their compact UTF-8 text (`JsonEnvelope`); the library builds the text of what it records and
the host parses or produces text at the edge.
