# openhub

The device models, macros, per-game profiles and input-hook policy of a
Logitech G HUB replacement, written in Verus: the rules that decide what a
button does, what a macro leaves pressed and which profile a window activates
are stated as contracts and proved.

- `src/` — the verified library.
  - `models/`, `onboard_profiles`, `onboard_feature`, `diag_onboard`: the
    device table, the HID++ `0x8100` decoding and requests, and the onboard
    diagnostic's decisions.
  - `macro_model`, `executor`, `timer`, `macro_runs`: macros, the ledger and
    the `Sink` contract under which a run's emitted edges leave nothing
    pressed, drift-free pacing, and the registry of runs by owner.
  - `button`, `action`, `press`, `hook`, `hook_events`, `gesture`, `runtime`:
    the OS-hook policy — suppression, G-Shift layers, press/release pairing,
    gesture holds, held chords.
  - `profile`, `app_model`, `text`: per-game profile resolution.
  - `geometry`, `device_art`, `app_assets`: which control a drawing's marker
    is, and which drawing a device gets.
  - `maps`: the association map the rest is built on.
- `app/` — threads, clocks, locks, the session bus, the command line and the
  config file's serde shapes around the library.
- `tests/` — the library's tests.
