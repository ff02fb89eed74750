# qos_core

The decision logic of an Android quality-of-service daemon, written in Verus
and proved against its contracts.

- `src/` — the verified library:
  - `daemon/` — the service supervisor (cooldowns, fatal errors, the event
    loop's plan for each turn), boot waiting, property and file tweaks, errors;
  - `controllers/` — cleaner policies and sweep scheduling, the display
    refresh-rate state machine, the blocker's schedule, signal handling, the
    fixed system tweaks, storage checks;
  - `hal/` — hardware tiering, thermal zone selection, sysfs value rendering
    and caching, path and descriptor checks, property requests, sensors,
    directory-walk decisions, text and decimal helpers;
  - `config/` — limits and their per-tier kernel bounds;
  - `bindings/` — the C-string and FFI limit conversions, service planning;
  - `algorithms/` — tolerance checks, poll-interval jitter, rounding.
- `tests/` — tests of the library on concrete values.
- `app/` — the C interface, file and epoll I/O, threads, and the
  floating-point models, around the library.
