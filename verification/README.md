# axial_state

The durable state of a launcher: journals of its operations, the Guardian's memory of failures, and
the install sessions and their queue.

- `src/` is the library. It is written for Verus: every function has a contract, and Verus proves the
  code against it. The modules whose names begin with `journal_` are about the journals, those that
  begin with `failure_` about the memory of failures, those that begin with `install_` about
  installs. What holds of a store as a whole stands in `journal_laws`, `journal_replays`,
  `journal_success` and `failure_laws`, and beside the definitions that it is about.
- `tests/` runs the library on given values.
- `app/` is the launcher's side: files, encodings, clocks and waiting.

The library does no input or output and reads no clock. A change is drafted against a store, encoded
by the caller, and shows once the caller has said what became of the write. What other parts of the
launcher decide about texts and records is handed in as a table of rulings.

Two outside crates are called from the library. `chrono` reads, writes and shifts instants
(`instants`), and `im` provides the persistent map that holds the journals (`journal_revision`). What
is claimed of them stands on the functions that call them.
