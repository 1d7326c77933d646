# antennabench_desktop

The decision logic of the AntennaBench desktop shell, written in Verus and
proved against its contracts.

AntennaBench compares antennas by alternating them across WSPR cycles and
reading what the reporting network heard. The desktop shell opens and
creates session bundles, drives an external antenna controller, conducts a
live run, and renders and exports reports. This crate holds the parts of that
shell that decide: what an operation answers for each outcome of the work it
hands out, how state changes, and what error the user sees.

## Layout

- `src/` is the verified library. Each module states its behaviour in
  `requires` / `ensures` clauses over spec functions and views; Verus proves
  every executable function against them. Work that reaches the disk, a
  process or the clock is handed to the library as a closure or as a plain
  value, and the contracts say what is answered for every result that
  closure may give. The native report window is reached through the
  `ReportWindowPort` trait the shell implements; its results are decided by
  `focus_answer` and `finish_window_creation`, whose contracts are exact for
  each result.
  - `profiles`, `command`, `process`, `controller_*`, `policy`, `automation`:
    controller profiles, command expansion, process attempts and the
    automation state machine.
  - `conductor_*`, `timing`, `report_snapshot`: the live conductor, its views,
    tokens and operator events.
  - `desktop`, `refresh`, `report_window`, `managed`, `bundles`, `paths`:
    active-session state, report refresh and export, bundle export,
    report windows, and the managed session catalog.
  - `rbn`: admission of a Reverse Beacon Network archive and the listening
    window and bands of its import.
  - `errors`, `open_errors`, `diagnostics`, `operation_diagnostics`: the
    typed error payloads and the diagnostics shown to the user.
  - `laws`: properties that span several functions, stated and proved as
    proof functions.
- The few calls into outside crates (`sha2`, `base64`, `serde_json`, `chrono`, `uuid`)
  and into parts of `std` that Verus does not specify stand behind small
  trusted wrappers, each with a doc comment that says what its contract claims.
- `tests/` runs the library on concrete values.
- `app/` is ordinary Rust around the library: file and process I/O, the
  clock, and serde copies of the library's types.

## Checking

Verification runs Verus on `src/lib.rs`; the tests run with `cargo test`.
