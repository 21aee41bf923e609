# autoseeker

A command-line tool that collects job postings from Bright Data's LinkedIn
and Indeed datasets, as a verified library and a thin program around it.

- `src/` is the library, checked by Verus: the choices and discovery inputs
  and the request objects they become (`app/ports/types.rs`), the provider's
  addresses, authorization and progress reports (`actors/driven/brightdata`),
  the snapshot table, the command handler's decisions (`actors/driving/cli`),
  the reading of trigger answers and snapshot bodies and the wait for a
  snapshot (`adapters/driven`), and text helpers (`text.rs`). JSON documents
  are `serde_json` values, read through the model in `json.rs`.
- `app/` is the program: argument parsing, environment, HTTP, files and the
  asynchronous ports and services, each decision delegated to the library.
- `tests/` exercises the library on concrete inputs.
