# Luminos

A screen magnifier: a transparent, click-through GPU overlay shows a
magnified copy of the screen around the cursor, driven by one event loop that
also hosts a webview control panel.

## Layout

- `src/` — the `luminos` library, verified with Verus. It holds the engine's
  rules and decisions, each with a contract:
  - `frame_timings` — the 120-frame timing history, P99/average/min/max and
    the sustained-slowness alerts;
  - `texture`, `renderer` — source-texture capacity, stale frames, viewport;
  - `surface` — swapchain format and alpha-mode choice, surface-status
    handling;
  - `input`, `pipeline` — hotkey matching and routing of input events;
  - `run_loop` — what the event loop does for each event (teardown exactly
    once), presentation, change notifications, close-to-tray, geometry
    fallbacks;
  - `tray` — tray menu routing and its graceful degrade;
  - `capture` — choice of the magnified display and placement of the capture
    region on it;
  - `config` — settings-file location, backups, temporary names, load outcome;
  - `platform_env` — the X11 backend environment plan (idempotent);
  - `compositor`, `error`, `event`, `notifier`, `schema`, `shaders`, `state`,
    `text` — the remaining types and helpers.
- `tests/` — tests of the library.
- `app/` — the application shell: windows and event loop, GPU commands,
  settings serialization and files, floating-point tracking and zoom, signals
  and environment.
