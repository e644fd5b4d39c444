# useragent_worker

The logic of a DuckDB VGI worker that parses HTTP User-Agent strings into
browser, operating system and device (plus spider/crawler detection) over the
uap-core regex database, written in Verus and proved against its contracts.

- `src/` is the verified library: the parser handle and the normalization of
  what uap-core reports (`useragent.rs`), the scalar functions
  (`scalar/`), their metadata tags (`meta.rs`), the laws that hold of every
  parse (`laws.rs`), and the trusted boundaries with `uaparser` (`uap.rs`) and
  `serde_json` (`json.rs`). `regexes.rs` holds the uap-core database.
- `app/` is the worker binary: it reads and builds the Arrow columns, registers
  the functions with the VGI runtime and compiles the parser once per process.
- `tests/` runs the library on well-known User-Agents and edge cases.
