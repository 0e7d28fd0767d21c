# colhidor

The core of a per-application power monitoring collector, written in Verus: every
function under `src/` carries a contract that Verus proves.

Layout:

- `src/` — the verified library
  - `text.rs` decimal text, whitespace splitting, trimming, unsigned integer parsing
  - `units.rs` energy (µJ), byte counts and percentages
  - `hash.rs` BLAKE3-based 64-bit identifiers
  - `net.rs` IP addresses and their standard text forms
  - `processes.rs` process identification and per-process readings
  - `tcp.rs` TCP connection identification for Linux, macOS and Windows tables
  - `cpu.rs` RAPL counters (sysfs and model-specific registers), driver install steps
  - `types.rs`, `db.rs` readings, events, database entries and SQL statements
  - `collector.rs` options, clock, energy totals of an event
  - `purge.rs` hourly aggregation and purge arithmetic, schema migration plan
  - `logging.rs` log lines, session trimming, per-component error budget
  - `mqtt.rs` timestamped payloads and topics for the MQTT publisher
- `tests/` — tests run against the compiled library
- `app/` — the program: options, sensors' system calls, the MQTT broker
  connection, SQLite, the log file, and the floating-point conversions
