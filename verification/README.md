# trace_archiver

Verified building blocks of a pipeline that records digitiser trace messages: reading trace files
and HDF5 archives back, placing traces in archives, checking messages and preparing their rows for
a time-series database, simulating messages, and benchmarking. Verus verifies every function in
`src/` but the trusted wrappers; nearly all carry a contract, and a few private helpers carry
none. The calls into other crates go through those small trusted wrappers, whose contracts are
stated beside them; those that draw random numbers, read the clock or read the environment state
nothing of what comes back.

Layout:

- `src/message.rs`, `src/common.rs`: the contents of a trace message as plain values.
- `src/text.rs`: decimal rendering and parsing, splitting at a separator.
- `src/payload.rs`: recognising a message by its flatbuffer file identifier.
- `src/reader/`: the binary trace file format, HDF5 read sequences, and messages made from events.
- `src/hdf5/`: the frame index and trace placement of HDF5 archives, run control, single-frame files.
- `src/tdengine/`, `src/db/`: message checks, error reports, SQL text and table columns for TDengine,
  login details, broker settings and `.env` files.
- `src/simulator.rs`: simulated messages.
- `src/benchmarker/`: stepped parameter ranges, benchmark records, series and result tables.
- `src/server/`: the settings of the trace search server.
- `tests/`: tests on concrete values.
- `app/`: the command-line program around the library (files, terminal, regression fitting).
