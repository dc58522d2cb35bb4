# tauri-leptos-core (verified)

The core logic of the tauri-leptos application template, written in Verus:

- `src/paths.rs`: the application directory layout (one-folder layout,
  Tauri's per-platform mapping, systemd `*_DIRECTORY` overrides, the
  precedence between them), joining paths with `std::path::Path::join`.
- `src/config.rs`: the configuration model and defaults, the `dev.upstream`
  check, the `site_root` convention, command-line overrides, and the
  first-run loading protocol as a step function.
- `src/server.rs`: the WebSocket origin check, the CORS policy, the demo
  greeting and the echo rule.
- `src/bootstrap.rs`: the bootstrap context and the host-inferred bind.
- `src/text.rs`: character-level string helpers.

`app/` is the runnable server around the library: the command line, the
TOML file, logging, and the axum router.
