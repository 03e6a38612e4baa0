# dap_adapters

Verified launch-configuration logic for three debug adapters (Kotlin,
GDScript and NetCoreDbg).

- `src/` — the library, checked with Verus: turning an editor debug request
  into an adapter scenario, the adapters' JSON schemas, filling in
  configuration defaults, the Kotlin project-root search and `$ZED_STEM`
  substitution, environment merging, and command selection. JSON values are
  `serde_json` values seen through the ghost tree `json::Json`.
- `src/laws.rs` — properties that span the functions (request kinds,
  defaults never overriding settings, idempotence, search outcome,
  environment precedence).
- `app/` — the asynchronous glue that talks to the editor (executable
  lookup, shell environment, file probes, TCP setup).
- `tests/` — concrete checks of the library's functions and of the laws
  on sample values.
