# echoinput

EchoInput shows the keys and shortcuts you press in an on-screen overlay
(a Wayland layer-shell surface), with a settings window for its
configuration file `~/.config/echoinput/config.toml`.

## Layout

- `src/` — the library, verified with Verus:
  - `config.rs`: the configuration file's fields, name parsing, defaults and
    the conversion to and from the overlay configuration, with round-trip laws.
  - `overlay.rs`: the overlay configuration and its settings' names.
  - `animation.rs`: the show/fade state machine, over a monotonic clock.
  - `renderer.rs`: the renderer factory, layer-shell anchors, buffer sizes.
  - `outputs.rs`: output bookkeeping and selection, and the surface plan.
  - `session.rs`: the event loop's handling of commands and frames
    (`OverlaySession`).
  - `input.rs`: capture features, processor configuration, raw key events and
    keyboard detection.
  - `cli.rs`, `settings.rs`: command-line and settings-window rules.
  - `error.rs`, `text.rs`: error texts and string helpers.
- `tests/` — tests of the library.
- `app/` — the program: file I/O, evdev capture, the Wayland/Cairo renderer
  and the egui settings window, driven by the library.

Opacities are carried as the bit patterns of single-precision numbers and
durations as nanoseconds; the floating-point drawing happens in `app/`.
