# realm

A TCP/UDP relay server. `src/` is the verified library: the configuration
model (log, DNS, network and endpoint options, how command-line, endpoint and
global options combine, the early configuration format and its conversion),
the management API's instance table, and the decisions of the relay loops
(which tasks start, copy-buffer and pipe bookkeeping, UDP associations).
Every public function carries a contract proved by Verus; `src/laws.rs`
states the properties that relate several functions.

`app/` is the program around it: command-line parsing, reading files,
serde formats, logging, the resolver, the tokio relay loops and the HTTP API.
`tests/` runs the library on concrete values.
