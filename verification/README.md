# phone-backup

The decisions of the phone backup command line program and desktop front
end, written in Verus and proved against their contracts.

- `src/` is the verified library: option parsing, listing order and
  summaries, text layout of the terminal listings, storage and cloud
  connection planning, device and workspace decisions, the recovery kit
  page, and the start-up and device-monitoring decisions of the desktop
  front end. `src/laws.rs` and the public proof functions of
  `src/ordering.rs` and `src/tally.rs` state properties that hold across
  functions.
- `app/` is the program around it: argument parsing with `clap`, the
  backup service and device adapters, file and network I/O, progress bars,
  and the desktop commands.
- `tests/` runs the library on concrete values.
