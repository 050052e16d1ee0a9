# sunberry

Programs for a solar-powered Raspberry Pi Zero 2: a collector that stores
system and power measurements in SQLite, and web servers that show pages,
markdown notes and the measurements.

- `src/` is the verified library (Verus): formatting of byte counts, the
  order of the process list, markdown page assembly, SQL text and query
  windows, the collector's schedule, the logger's rules.
- `tests/` runs the library on concrete values.
- `app/` is the program around it: `sunberry collector`,
  `sunberry collector-demo`, `sunberry webserver [d]` and
  `sunberry legacy-webserver`. It does the I/O (database, files, system
  information, HTTP) and the floating point arithmetic.
